use jaeger_instrumentation::endpoint::{
    push_decimal, resolve_agent_address, unresolved_message, SocketAddress,
};

fn decimal_of(n: u16) -> String {
    let mut out = String::new();
    push_decimal(&mut out, n);
    out
}

#[test]
fn decimal_of_zero_is_a_single_zero() {
    assert_eq!(decimal_of(0), "0");
}

#[test]
fn decimal_of_single_digits() {
    assert_eq!(decimal_of(1), "1");
    assert_eq!(decimal_of(5), "5");
    assert_eq!(decimal_of(9), "9");
}

#[test]
fn decimal_at_each_new_digit() {
    assert_eq!(decimal_of(10), "10");
    assert_eq!(decimal_of(99), "99");
    assert_eq!(decimal_of(100), "100");
    assert_eq!(decimal_of(999), "999");
    assert_eq!(decimal_of(1000), "1000");
    assert_eq!(decimal_of(9999), "9999");
    assert_eq!(decimal_of(10000), "10000");
}

#[test]
fn decimal_of_the_agent_port() {
    assert_eq!(decimal_of(6831), "6831");
}

#[test]
fn decimal_of_the_largest_port() {
    assert_eq!(decimal_of(u16::MAX), "65535");
}

#[test]
fn decimal_keeps_inner_zeros() {
    assert_eq!(decimal_of(1001), "1001");
    assert_eq!(decimal_of(60000), "60000");
    assert_eq!(decimal_of(10203), "10203");
}

#[test]
fn decimal_agrees_with_display_for_every_port() {
    for n in 0..=u16::MAX {
        assert_eq!(decimal_of(n), n.to_string());
    }
}

#[test]
fn decimal_reads_back_as_the_number() {
    for n in 0..=u16::MAX {
        assert_eq!(decimal_of(n).parse::<u16>(), Ok(n));
    }
}

#[test]
fn push_decimal_appends_to_what_is_there() {
    let mut out = String::from("port ");
    push_decimal(&mut out, 6831);
    assert_eq!(out, "port 6831");
    push_decimal(&mut out, 0);
    assert_eq!(out, "port 68310");
}

#[test]
fn unresolved_message_names_host_and_port() {
    assert_eq!(
        unresolved_message("192.168.0.162", 6831),
        "Could not resolve jaeger agent address 192.168.0.162:6831"
    );
}

#[test]
fn unresolved_message_with_a_host_name() {
    assert_eq!(
        unresolved_message("jaeger.example.org", 14268),
        "Could not resolve jaeger agent address jaeger.example.org:14268"
    );
}

#[test]
fn unresolved_message_with_an_empty_host() {
    assert_eq!(
        unresolved_message("", 0),
        "Could not resolve jaeger agent address :0"
    );
}

#[test]
fn unresolved_message_keeps_the_host_as_given() {
    assert_eq!(
        unresolved_message(" Agent:1 ", 65535),
        "Could not resolve jaeger agent address  Agent:1 :65535"
    );
    assert_eq!(
        unresolved_message("j\u{e4}ger", 80),
        "Could not resolve jaeger agent address j\u{e4}ger:80"
    );
}

#[test]
fn a_single_address_is_chosen() {
    let resolved = vec![SocketAddress::V4 {
        ipv4: 0xC0A8_00A2,
        port: 6831,
    }];
    assert_eq!(
        resolve_agent_address("192.168.0.162", 6831, &resolved),
        Ok(SocketAddress::V4 {
            ipv4: 0xC0A8_00A2,
            port: 6831
        })
    );
}

#[test]
fn the_first_of_several_addresses_is_chosen() {
    let first = SocketAddress::V6 {
        ipv6: 1,
        port: 6831,
        flowinfo: 0,
        scope_id: 0,
    };
    let second = SocketAddress::V4 {
        ipv4: 0x7F00_0001,
        port: 6831,
    };
    assert_eq!(
        resolve_agent_address("localhost", 6831, &vec![first, second]),
        Ok(first)
    );
    assert_eq!(
        resolve_agent_address("localhost", 6831, &vec![second, first]),
        Ok(second)
    );
}

#[test]
fn an_address_is_handed_on_unchanged() {
    let address = SocketAddress::V6 {
        ipv6: 0xFE80_0000_0000_0000_0000_0000_0000_0001,
        port: 6832,
        flowinfo: 7,
        scope_id: 3,
    };
    assert_eq!(
        resolve_agent_address("fe80::1%3", 6831, &vec![address]),
        Ok(address)
    );
}

#[test]
fn no_address_gives_the_message() {
    assert_eq!(
        resolve_agent_address("nowhere.invalid", 6831, &Vec::new()),
        Err(String::from(
            "Could not resolve jaeger agent address nowhere.invalid:6831"
        ))
    );
}

#[test]
fn the_resolved_list_is_left_as_it_was() {
    let resolved = vec![
        SocketAddress::V4 {
            ipv4: 1,
            port: 2,
        },
        SocketAddress::V4 {
            ipv4: 3,
            port: 4,
        },
    ];
    let before = resolved.clone();
    let _ = resolve_agent_address("h", 2, &resolved);
    assert_eq!(resolved, before);
}
