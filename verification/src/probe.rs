//! The probe-round protocol: which packets go out, and how inbound
//! datagrams drive the round's state.
//!
//! A round first sends four kinds of 16-byte probes, each five times to
//! tolerate UDP loss: a send-only probe to server 1's send-only port, an
//! echo request and a cross-port receive request to server 1's
//! bidirectional port, and a cross-server echo request to server 2's
//! bidirectional port. It then consumes inbound datagrams one at a time,
//! dispatching purely by source address (with the discriminator byte as a
//! secondary check) until the two echoed endpoints and the cross-port
//! reply have all arrived, or the transport reports an error. The caller
//! performs the actual sends and receives and feeds each datagram to
//! [`on_datagram`]; everything decided here is pure and verified.

use vstd::prelude::*;

use crate::addr::{Endpoint, Ipv4};
use crate::codec::{
    decode, spec_decode, DISCRIMINATOR_CROSS_PORT, DISCRIMINATOR_CROSS_SERVER, DISCRIMINATOR_ECHO,
};

verus! {

/// Server port that only receives probes and never replies.
pub const PORT_1: u16 = 33334;

/// Server port that replies: it echoes the observed endpoint, or on a
/// cross-port request additionally sends from `PORT_3`.
pub const PORT_2: u16 = 10025;

/// Server 1 port that replies from an unrelated egress port; a datagram
/// from it shows the NAT admits traffic from ports never sent to.
pub const PORT_3: u16 = 50920;

/// How many times each probe payload is sent in one round.
pub const ONE_TIME_SEND: usize = 5;

/// The four probe roles a round sends.
#[derive(Clone, Copy, Debug, PartialEq, Eq, Structural)]
pub enum ProbeKind {
    /// Sent to `server1:PORT_1`; no reply is expected.
    SendOnly,
    /// Sent to `server1:PORT_2`; the server echoes the observed endpoint.
    EchoRequest,
    /// Sent to `server1:PORT_2`; the server additionally replies from `PORT_3`.
    CrossPortRequest,
    /// Sent to `server2:PORT_2`; server 2 echoes the observed endpoint.
    CrossServerRequest,
}

/// The discriminator byte a probe of the given kind carries in byte 3.
pub open spec fn spec_discriminator(kind: ProbeKind) -> u8 {
    match kind {
        ProbeKind::SendOnly => 0,
        ProbeKind::EchoRequest => DISCRIMINATOR_ECHO,
        ProbeKind::CrossPortRequest => DISCRIMINATOR_CROSS_PORT,
        ProbeKind::CrossServerRequest => DISCRIMINATOR_CROSS_SERVER,
    }
}

/// The 16-byte payload a probe of the given kind sends: all zero except
/// the discriminator in byte 3.
pub open spec fn spec_probe_payload(kind: ProbeKind) -> Seq<u8> {
    seq![
        0u8,
        0u8,
        0u8,
        spec_discriminator(kind),
        0u8,
        0u8,
        0u8,
        0u8,
        0u8,
        0u8,
        0u8,
        0u8,
        0u8,
        0u8,
        0u8,
        0u8,
    ]
}

/// Builds the wire payload for one probe kind.
pub fn probe_payload(kind: ProbeKind) -> (out: Vec<u8>)
    ensures
        out@ == spec_probe_payload(kind),
{
    let discriminator: u8 = match kind {
        ProbeKind::SendOnly => 0,
        ProbeKind::EchoRequest => DISCRIMINATOR_ECHO,
        ProbeKind::CrossPortRequest => DISCRIMINATOR_CROSS_PORT,
        ProbeKind::CrossServerRequest => DISCRIMINATOR_CROSS_SERVER,
    };
    let mut out: Vec<u8> = Vec::new();
    out.push(0);
    out.push(0);
    out.push(0);
    out.push(discriminator);
    let mut i: usize = 4;
    while i < 16
        invariant
            4 <= i <= 16,
            out@.len() == i,
            out@[0] == 0u8 && out@[1] == 0u8 && out@[2] == 0u8,
            out@[3] == spec_discriminator(kind),
            forall|j: int| 4 <= j < i ==> out@[j] == 0u8,
        decreases 16 - i,
    {
        out.push(0);
        i += 1;
    }
    proof {
        assert(out@ =~= spec_probe_payload(kind));
    }
    out
}

/// One planned send: which probe kind goes to which destination.
#[derive(Clone, Copy, Debug, PartialEq, Eq, Structural)]
pub struct ProbeSend {
    pub kind: ProbeKind,
    pub dest: Endpoint,
}

/// The send at position `i` of a round's plan: five send-only probes to
/// `server1:PORT_1`, then five echo requests and five cross-port requests
/// to `server1:PORT_2`, then five cross-server requests to `server2:PORT_2`.
pub open spec fn spec_send_at(server1: Ipv4, server2: Ipv4, i: int) -> ProbeSend {
    if i < 5 {
        ProbeSend { kind: ProbeKind::SendOnly, dest: Endpoint { ip: server1, port: PORT_1 } }
    } else if i < 10 {
        ProbeSend { kind: ProbeKind::EchoRequest, dest: Endpoint { ip: server1, port: PORT_2 } }
    } else if i < 15 {
        ProbeSend { kind: ProbeKind::CrossPortRequest, dest: Endpoint { ip: server1, port: PORT_2 } }
    } else {
        ProbeSend { kind: ProbeKind::CrossServerRequest, dest: Endpoint { ip: server2, port: PORT_2 } }
    }
}

/// A full round's send plan, in order.
pub open spec fn spec_send_plan(server1: Ipv4, server2: Ipv4) -> Seq<ProbeSend> {
    Seq::new(20, |i: int| spec_send_at(server1, server2, i))
}

/// Builds the ordered list of the 20 sends of one round.
pub fn send_plan(server1: Ipv4, server2: Ipv4) -> (plan: Vec<ProbeSend>)
    ensures
        plan@ == spec_send_plan(server1, server2),
{
    let mut plan: Vec<ProbeSend> = Vec::new();
    let mut i: usize = 0;
    while i < 20
        invariant
            i <= 20,
            plan@.len() == i,
            forall|j: int| 0 <= j < i ==> plan@[j] == spec_send_at(server1, server2, j),
        decreases 20 - i,
    {
        let entry = if i < 5 {
            ProbeSend { kind: ProbeKind::SendOnly, dest: Endpoint { ip: server1, port: PORT_1 } }
        } else if i < 10 {
            ProbeSend { kind: ProbeKind::EchoRequest, dest: Endpoint { ip: server1, port: PORT_2 } }
        } else if i < 15 {
            ProbeSend {
                kind: ProbeKind::CrossPortRequest,
                dest: Endpoint { ip: server1, port: PORT_2 },
            }
        } else {
            ProbeSend {
                kind: ProbeKind::CrossServerRequest,
                dest: Endpoint { ip: server2, port: PORT_2 },
            }
        };
        plan.push(entry);
        i += 1;
    }
    proof {
        assert(plan@ =~= spec_send_plan(server1, server2));
    }
    plan
}

/// What a round has observed so far.
#[derive(Clone, Copy, Debug, PartialEq, Eq)]
pub struct RoundState {
    /// The external endpoint echoed by server 1, once seen.
    pub remote1: Option<Endpoint>,
    /// The external endpoint echoed by server 2, once seen.
    pub remote2: Option<Endpoint>,
    /// Whether a reply arrived from server 1's receive-only port.
    pub saw_cross_port: bool,
}

impl RoundState {
    /// The state of a round that has seen nothing yet.
    pub open spec fn spec_initial() -> RoundState {
        RoundState { remote1: None, remote2: None, saw_cross_port: false }
    }

    /// Starts a round with nothing observed.
    pub fn new() -> (s: RoundState)
        ensures
            s == RoundState::spec_initial(),
    {
        RoundState { remote1: None, remote2: None, saw_cross_port: false }
    }
}

/// The state after one inbound datagram. A datagram counts only if it is
/// exactly 16 bytes and its source address and discriminator agree on one
/// of the three expected reply roles; everything else is noise and leaves
/// the state unchanged. Dispatch checks the source address first, as the
/// protocol does: a datagram from `server1:PORT_2` is never interpreted as
/// another role, even when the discriminator would match one.
pub open spec fn spec_on_datagram(
    state: RoundState,
    source: Endpoint,
    data: Seq<u8>,
    server1: Ipv4,
    server2: Ipv4,
) -> RoundState {
    if data.len() != 16 {
        state
    } else {
        let resp = spec_decode(data);
        if source == (Endpoint { ip: server1, port: PORT_2 }) {
            if resp.spec_unique_number() == DISCRIMINATOR_ECHO {
                RoundState { remote1: Some(resp.spec_remote_addr()), ..state }
            } else {
                state
            }
        } else if source == (Endpoint { ip: server1, port: PORT_3 }) {
            if resp.spec_unique_number() == DISCRIMINATOR_CROSS_PORT {
                RoundState { saw_cross_port: true, ..state }
            } else {
                state
            }
        } else if source == (Endpoint { ip: server2, port: PORT_2 }) {
            if resp.spec_unique_number() == DISCRIMINATOR_CROSS_SERVER {
                RoundState { remote2: Some(resp.spec_remote_addr()), ..state }
            } else {
                state
            }
        } else {
            state
        }
    }
}

/// Feeds one received datagram to the round.
pub fn on_datagram(
    state: RoundState,
    source: Endpoint,
    data: &[u8],
    server1: Ipv4,
    server2: Ipv4,
) -> (r: RoundState)
    ensures
        r == spec_on_datagram(state, source, data@, server1, server2),
{
    if data.len() != 16 {
        return state;
    }
    let resp = match decode(data) {
        Ok(resp) => resp,
        Err(_) => {
            return state;
        },
    };
    if source == (Endpoint { ip: server1, port: PORT_2 }) {
        if resp.is_payload_2() {
            RoundState { remote1: Some(resp.remote_addr()), ..state }
        } else {
            state
        }
    } else if source == (Endpoint { ip: server1, port: PORT_3 }) {
        if resp.is_payload_3() {
            RoundState { saw_cross_port: true, ..state }
        } else {
            state
        }
    } else if source == (Endpoint { ip: server2, port: PORT_2 }) {
        if resp.is_payload_4() {
            RoundState { remote2: Some(resp.remote_addr()), ..state }
        } else {
            state
        }
    } else {
        state
    }
}

/// Whether the round is finished: both echoed endpoints recorded and the
/// cross-port reply seen.
pub open spec fn spec_is_complete(state: RoundState) -> bool {
    state.remote1 is Some && state.remote2 is Some && state.saw_cross_port
}

/// Returns whether the round has everything it waits for.
pub fn is_complete(state: &RoundState) -> (r: bool)
    ensures
        r == spec_is_complete(*state),
{
    state.remote1.is_some() && state.remote2.is_some() && state.saw_cross_port
}

/// What a completed round observed.
#[derive(Clone, Copy, Debug, PartialEq, Eq, Structural)]
pub struct RoundResult {
    /// The external endpoint as seen by server 1.
    pub remote1: Endpoint,
    /// The external endpoint as seen by server 2.
    pub remote2: Endpoint,
    /// Whether server 1's unrelated egress port reached us.
    pub saw_cross_port: bool,
}

/// How a round ended.
#[derive(Clone, Copy, Debug, PartialEq, Eq, Structural)]
pub enum RoundEnd {
    /// Both endpoints are known; the cross-port flag is whatever was seen.
    Complete(RoundResult),
    /// A timeout struck before both endpoints were known.
    Inconclusive,
    /// Another transport error struck before both endpoints were known.
    Failed,
}

/// How the round ends when the transport reports an error. If both echoed
/// endpoints are already known the round completes — the cross-port reply
/// is optional, and its absence is itself an observation. Otherwise a
/// timeout ends the round as inconclusive and any other error as failed.
pub open spec fn spec_finish_on_error(state: RoundState, timed_out: bool) -> RoundEnd {
    if state.remote1 is Some && state.remote2 is Some {
        RoundEnd::Complete(
            RoundResult {
                remote1: state.remote1.unwrap(),
                remote2: state.remote2.unwrap(),
                saw_cross_port: state.saw_cross_port,
            },
        )
    } else if timed_out {
        RoundEnd::Inconclusive
    } else {
        RoundEnd::Failed
    }
}

/// Ends the round after a transport error, or after completion (where it
/// always yields `Complete`, whatever `timed_out` says).
pub fn finish_on_error(state: &RoundState, timed_out: bool) -> (r: RoundEnd)
    ensures
        r == spec_finish_on_error(*state, timed_out),
{
    match (state.remote1, state.remote2) {
        (Some(remote1), Some(remote2)) => RoundEnd::Complete(
            RoundResult { remote1, remote2, saw_cross_port: state.saw_cross_port },
        ),
        _ => {
            if timed_out {
                RoundEnd::Inconclusive
            } else {
                RoundEnd::Failed
            }
        },
    }
}

} // verus!
