//! What the instrumentation is set up with: the exporter's target and
//! settings and the tracer's name, decided from the agent's host, its port
//! and the addresses they resolved to.

use crate::endpoint::{first_resolved, resolve_agent_address, unresolved_text, SocketAddress};
use vstd::prelude::*;
use vstd::string::*;

verus! {

/// The settings of one instrumentation: where the span exporter sends, under
/// which service name, whether it splits batches that exceed a packet, and
/// the name of the single tracer that feeds the tracing layer.
#[derive(Debug, PartialEq, Eq)]
pub struct Instrumentation {
    pub agent_endpoint: SocketAddress,
    pub service_name: String,
    pub auto_split_batch: bool,
    pub tracer_name: String,
}

/// An `Instrumentation` with its texts as character sequences.
pub struct InstrumentationView {
    pub agent_endpoint: SocketAddress,
    pub service_name: Seq<char>,
    pub auto_split_batch: bool,
    pub tracer_name: Seq<char>,
}

impl View for Instrumentation {
    type V = InstrumentationView;

    open spec fn view(&self) -> InstrumentationView {
        InstrumentationView {
            agent_endpoint: self.agent_endpoint,
            service_name: self.service_name@,
            auto_split_batch: self.auto_split_batch,
            tracer_name: self.tracer_name@,
        }
    }
}

/// The service name that the exporter reports.
pub open spec fn service_name_text() -> Seq<char> {
    "global-test"@
}

/// The name of the tracer that every span goes through.
pub open spec fn tracer_name_text() -> Seq<char> {
    "tracing-opentelemetry-jaeger"@
}

/// The instrumentation that sends to `endpoint`: the fixed service name,
/// batches split automatically, and the fixed tracer name.
pub open spec fn instrumentation_for(endpoint: SocketAddress) -> InstrumentationView {
    InstrumentationView {
        agent_endpoint: endpoint,
        service_name: service_name_text(),
        auto_split_batch: true,
        tracer_name: tracer_name_text(),
    }
}

/// What setting up comes to for an agent at `host` and `port` whose name
/// resolved to `resolved`: the instrumentation for the first address, or the
/// message that says the agent could not be resolved.
pub open spec fn setup_outcome(
    host: Seq<char>,
    port: u16,
    resolved: Seq<SocketAddress>,
) -> Result<InstrumentationView, Seq<char>> {
    match first_resolved(host, port, resolved) {
        Ok(endpoint) => Ok(instrumentation_for(endpoint)),
        Err(message) => Err(message),
    }
}

/// Setting up succeeds exactly when the agent's name resolved to at least
/// one address, and the instrumentation is then bound to the first of them.
/// Otherwise its outcome is the message of `unresolved_text`.
pub proof fn setup_succeeds_iff_resolved(host: Seq<char>, port: u16, resolved: Seq<SocketAddress>)
    ensures
        setup_outcome(host, port, resolved) is Ok <==> resolved.len() > 0,
        resolved.len() > 0 ==> setup_outcome(host, port, resolved) == Ok::<
            InstrumentationView,
            Seq<char>,
        >(instrumentation_for(resolved[0])),
        resolved.len() == 0 ==> setup_outcome(host, port, resolved) == Err::<
            InstrumentationView,
            Seq<char>,
        >(unresolved_text(host, port)),
{
}

/// Decides the instrumentation for the agent at `jaeger_agent_host` and
/// `jaeger_agent_port`, given the addresses that this pair resolved to, in
/// the resolver's order.
///
/// With at least one address the result is the instrumentation bound to the
/// first of them. With none it is the message that names host and port; the
/// caller is expected to stop on it.
pub fn setup_instrumentation(
    jaeger_agent_host: String,
    jaeger_agent_port: u16,
    resolved: Vec<SocketAddress>,
) -> (r: Result<Instrumentation, String>)
    ensures
        match r {
            Ok(instrumentation) => setup_outcome(jaeger_agent_host@, jaeger_agent_port, resolved@)
                == Ok::<InstrumentationView, Seq<char>>(instrumentation@),
            Err(message) => setup_outcome(jaeger_agent_host@, jaeger_agent_port, resolved@)
                == Err::<InstrumentationView, Seq<char>>(message@),
        },
{
    match resolve_agent_address(jaeger_agent_host.as_str(), jaeger_agent_port, &resolved) {
        Ok(agent_endpoint) => Ok(
            Instrumentation {
                agent_endpoint,
                service_name: String::from_str("global-test"),
                auto_split_batch: true,
                tracer_name: String::from_str("tracing-opentelemetry-jaeger"),
            },
        ),
        Err(message) => Err(message),
    }
}

} // verus!
