use ninat::addr::{Endpoint, Ipv4};
use ninat::probe::{
    finish_on_error, is_complete, on_datagram, probe_payload, send_plan, ProbeKind, RoundEnd,
    RoundResult, RoundState, ONE_TIME_SEND, PORT_1, PORT_2, PORT_3,
};

fn server1() -> Ipv4 {
    Ipv4::new(198, 51, 100, 1)
}

fn server2() -> Ipv4 {
    Ipv4::new(198, 51, 100, 2)
}

/// A well-formed 16-byte reply carrying the given discriminator and
/// observed endpoint.
fn reply(discriminator: u8, ip: Ipv4, port: u16) -> Vec<u8> {
    vec![
        0,
        0,
        0,
        discriminator,
        0,
        0,
        (port / 256) as u8,
        (port % 256) as u8,
        ip.a,
        ip.b,
        ip.c,
        ip.d,
        10,
        0,
        0,
        1,
    ]
}

#[test]
fn payloads_are_zero_but_for_the_discriminator() {
    assert_eq!(probe_payload(ProbeKind::SendOnly), vec![0u8; 16]);
    let echo = probe_payload(ProbeKind::EchoRequest);
    assert_eq!(echo.len(), 16);
    assert_eq!(echo[3], 0x65);
    assert!(echo.iter().enumerate().all(|(i, &b)| i == 3 || b == 0));
    assert_eq!(probe_payload(ProbeKind::CrossPortRequest)[3], 0x66);
    assert_eq!(probe_payload(ProbeKind::CrossServerRequest)[3], 0x67);
}

#[test]
fn plan_sends_each_kind_five_times_in_order() {
    let plan = send_plan(server1(), server2());
    assert_eq!(plan.len(), 4 * ONE_TIME_SEND);
    for (i, entry) in plan.iter().enumerate() {
        let (kind, dest) = match i / ONE_TIME_SEND {
            0 => (ProbeKind::SendOnly, Endpoint::new(server1(), PORT_1)),
            1 => (ProbeKind::EchoRequest, Endpoint::new(server1(), PORT_2)),
            2 => (ProbeKind::CrossPortRequest, Endpoint::new(server1(), PORT_2)),
            _ => (ProbeKind::CrossServerRequest, Endpoint::new(server2(), PORT_2)),
        };
        assert_eq!(entry.kind, kind);
        assert_eq!(entry.dest, dest);
    }
}

#[test]
fn well_known_ports_are_fixed() {
    assert_eq!(PORT_1, 33334);
    assert_eq!(PORT_2, 10025);
    assert_eq!(PORT_3, 50920);
}

#[test]
fn echo_reply_from_server1_records_remote1() {
    let external = Ipv4::new(203, 0, 113, 5);
    let state = on_datagram(
        RoundState::new(),
        Endpoint::new(server1(), PORT_2),
        &reply(0x65, external, 40001),
        server1(),
        server2(),
    );
    assert_eq!(state.remote1, Some(Endpoint::new(external, 40001)));
    assert_eq!(state.remote2, None);
    assert!(!state.saw_cross_port);
    assert!(!is_complete(&state));
}

#[test]
fn cross_port_reply_sets_the_flag() {
    let state = on_datagram(
        RoundState::new(),
        Endpoint::new(server1(), PORT_3),
        &reply(0x66, Ipv4::new(203, 0, 113, 5), 40001),
        server1(),
        server2(),
    );
    assert!(state.saw_cross_port);
    assert_eq!(state.remote1, None);
    assert_eq!(state.remote2, None);
}

#[test]
fn cross_server_reply_records_remote2() {
    let external = Ipv4::new(203, 0, 113, 5);
    let state = on_datagram(
        RoundState::new(),
        Endpoint::new(server2(), PORT_2),
        &reply(0x67, external, 40002),
        server1(),
        server2(),
    );
    assert_eq!(state.remote2, Some(Endpoint::new(external, 40002)));
    assert_eq!(state.remote1, None);
}

#[test]
fn wrong_length_datagrams_are_ignored() {
    let external = Ipv4::new(203, 0, 113, 5);
    let mut data = reply(0x65, external, 40001);
    data.push(0);
    let source = Endpoint::new(server1(), PORT_2);
    let state = on_datagram(RoundState::new(), source, &data, server1(), server2());
    assert_eq!(state, RoundState::new());
    let state = on_datagram(RoundState::new(), source, &data[..15], server1(), server2());
    assert_eq!(state, RoundState::new());
    let state = on_datagram(RoundState::new(), source, &[], server1(), server2());
    assert_eq!(state, RoundState::new());
}

#[test]
fn unexpected_sources_are_ignored() {
    let external = Ipv4::new(203, 0, 113, 5);
    let data = reply(0x65, external, 40001);
    // right server, wrong port
    let state = on_datagram(
        RoundState::new(),
        Endpoint::new(server1(), 9999),
        &data,
        server1(),
        server2(),
    );
    assert_eq!(state, RoundState::new());
    // unrelated host on the bidirectional port
    let state = on_datagram(
        RoundState::new(),
        Endpoint::new(Ipv4::new(192, 0, 2, 9), PORT_2),
        &data,
        server1(),
        server2(),
    );
    assert_eq!(state, RoundState::new());
}

#[test]
fn mismatched_discriminator_is_ignored() {
    let external = Ipv4::new(203, 0, 113, 5);
    // a cross-server discriminator arriving from server1's echo port
    let state = on_datagram(
        RoundState::new(),
        Endpoint::new(server1(), PORT_2),
        &reply(0x67, external, 40001),
        server1(),
        server2(),
    );
    assert_eq!(state, RoundState::new());
    // an echo discriminator arriving from the receive-only port
    let state = on_datagram(
        RoundState::new(),
        Endpoint::new(server1(), PORT_3),
        &reply(0x65, external, 40001),
        server1(),
        server2(),
    );
    assert_eq!(state, RoundState::new());
}

#[test]
fn round_completes_after_all_three_observations() {
    let external = Ipv4::new(203, 0, 113, 5);
    let mut state = RoundState::new();
    state = on_datagram(
        state,
        Endpoint::new(server2(), PORT_2),
        &reply(0x67, external, 40002),
        server1(),
        server2(),
    );
    assert!(!is_complete(&state));
    state = on_datagram(
        state,
        Endpoint::new(server1(), PORT_3),
        &reply(0x66, external, 40001),
        server1(),
        server2(),
    );
    assert!(!is_complete(&state));
    state = on_datagram(
        state,
        Endpoint::new(server1(), PORT_2),
        &reply(0x65, external, 40001),
        server1(),
        server2(),
    );
    assert!(is_complete(&state));
    assert_eq!(
        finish_on_error(&state, false),
        RoundEnd::Complete(RoundResult {
            remote1: Endpoint::new(external, 40001),
            remote2: Endpoint::new(external, 40002),
            saw_cross_port: true,
        })
    );
}

#[test]
fn late_timeout_with_both_endpoints_still_completes() {
    let external = Ipv4::new(203, 0, 113, 5);
    let mut state = RoundState::new();
    state = on_datagram(
        state,
        Endpoint::new(server1(), PORT_2),
        &reply(0x65, external, 40001),
        server1(),
        server2(),
    );
    state = on_datagram(
        state,
        Endpoint::new(server2(), PORT_2),
        &reply(0x67, external, 40002),
        server1(),
        server2(),
    );
    assert!(!is_complete(&state));
    // the cross-port reply is optional: a timeout now completes the round
    assert_eq!(
        finish_on_error(&state, true),
        RoundEnd::Complete(RoundResult {
            remote1: Endpoint::new(external, 40001),
            remote2: Endpoint::new(external, 40002),
            saw_cross_port: false,
        })
    );
}

#[test]
fn early_timeout_is_inconclusive_and_other_errors_fail() {
    let external = Ipv4::new(203, 0, 113, 5);
    let empty = RoundState::new();
    assert_eq!(finish_on_error(&empty, true), RoundEnd::Inconclusive);
    assert_eq!(finish_on_error(&empty, false), RoundEnd::Failed);

    let mut one = RoundState::new();
    one = on_datagram(
        one,
        Endpoint::new(server1(), PORT_2),
        &reply(0x65, external, 40001),
        server1(),
        server2(),
    );
    assert_eq!(finish_on_error(&one, true), RoundEnd::Inconclusive);
    assert_eq!(finish_on_error(&one, false), RoundEnd::Failed);
}
