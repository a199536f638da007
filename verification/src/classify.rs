//! The two-round NAT classifier and the five NAT classes.
//!
//! Round 1 observes the external endpoint through each of the two servers.
//! Equal ports mean the NAT does not remap the port per destination: a
//! cross-port reply then shows class A (full cone), its absence class B
//! (restricted cone). Differing ports call for a second round on a fresh
//! local transport; the forward port deltas of the two rounds, taken with
//! the protocol's 16-bit wraparound rule, distinguish a predictable
//! allocator (class C) from an independent one (class D). A round that
//! times out before both endpoints are known ends the whole test as class
//! F — a terminal, successful "inconclusive" outcome, not an error.

use vstd::prelude::*;

use vstd::arithmetic::div_mod::{lemma_fundamental_div_mod_converse, lemma_small_mod};

use crate::addr::Ipv4;
use crate::probe::{spec_finish_on_error, RoundEnd, RoundResult, RoundState};

verus! {

/// The five NAT classes.
#[derive(Clone, Copy, Debug, Eq, Ord, PartialEq, PartialOrd, Structural)]
pub enum NatType {
    /// Full cone: any external host or port can reach the mapped port.
    A,
    /// Restricted cone: the mapping is stable, inbound traffic is filtered.
    B,
    /// Symmetric with a predictable port-allocation increment.
    C,
    /// Symmetric with independent port allocation per destination.
    D,
    /// Test inconclusive or network unavailable.
    F,
}

/// The label a NAT class carries on the platform that names classes by letter.
pub open spec fn spec_nintendo(nat_class: NatType) -> Seq<char> {
    match nat_class {
        NatType::A => "A"@,
        NatType::B => "B"@,
        NatType::C => "C"@,
        NatType::D => "D"@,
        NatType::F => "F"@,
    }
}

/// The label a NAT class carries on the platform that numbers classes.
pub open spec fn spec_sony(nat_class: NatType) -> Seq<char> {
    match nat_class {
        NatType::A => "1"@,
        NatType::B => "2"@,
        NatType::C => "3"@,
        NatType::D => "3"@,
        NatType::F => "-"@,
    }
}

/// The label a NAT class carries on the platform that names openness.
pub open spec fn spec_microsoft(nat_class: NatType) -> Seq<char> {
    match nat_class {
        NatType::A => "Open"@,
        NatType::B => "Moderate"@,
        NatType::C => "Strict"@,
        NatType::D => "Strict"@,
        NatType::F => "Unavailable"@,
    }
}

impl NatType {
    /// Returns the Nintendo (Nintendo Switch) NAT type label.
    pub fn nintendo(&self) -> (r: String)
        ensures
            r@ == spec_nintendo(*self),
    {
        match self {
            NatType::A => "A".to_owned(),
            NatType::B => "B".to_owned(),
            NatType::C => "C".to_owned(),
            NatType::D => "D".to_owned(),
            NatType::F => "F".to_owned(),
        }
    }

    /// Returns the Sony (PlayStation) NAT type label.
    pub fn sony(&self) -> (r: String)
        ensures
            r@ == spec_sony(*self),
    {
        match self {
            NatType::A => "1".to_owned(),
            NatType::B => "2".to_owned(),
            NatType::C => "3".to_owned(),
            NatType::D => "3".to_owned(),
            NatType::F => "-".to_owned(),
        }
    }

    /// Returns the Microsoft (Xbox) NAT type label.
    pub fn microsoft(&self) -> (r: String)
        ensures
            r@ == spec_microsoft(*self),
    {
        match self {
            NatType::A => "Open".to_owned(),
            NatType::B => "Moderate".to_owned(),
            NatType::C => "Strict".to_owned(),
            NatType::D => "Strict".to_owned(),
            NatType::F => "Unavailable".to_owned(),
        }
    }
}

/// The forward port delta between two rounds, under the protocol's
/// wraparound rule: a plain difference while it does not underflow, and
/// `65535 - (previous - current)` once it does, modelling a 16-bit
/// allocation counter rolling over.
pub open spec fn spec_port_delta(current: u16, previous: u16) -> u16 {
    if current >= previous {
        (current - previous) as u16
    } else {
        (65535 - (previous - current)) as u16
    }
}

/// Computes the wrap-adjusted forward port delta.
pub fn port_delta(current: u16, previous: u16) -> (d: u16)
    ensures
        d == spec_port_delta(current, previous),
{
    if current >= previous {
        current - previous
    } else {
        65535 - (previous - current)
    }
}

/// What the classifier knows after a round.
#[derive(Clone, Copy, Debug, PartialEq, Eq)]
pub enum NatOutcome {
    /// The test is over, successfully; class F carries no observed address.
    Classified { ip: Option<Ipv4>, nat: NatType },
    /// Round 1 saw differing ports: a second round on a fresh local
    /// transport must decide between classes C and D.
    NeedSecondRound { round1_ip: Ipv4, port_a1: u16, port_b1: u16 },
    /// The round failed with a non-timeout transport error; the caller
    /// surfaces it as a hard failure.
    Failed,
}

/// The classifier's decision after round 1. A complete round with equal
/// ports settles the test at class A or B by the cross-port flag; with
/// differing ports it asks for a second round, carrying round 1's ports
/// and server 1's view of the external address. An inconclusive round
/// settles the test at class F with no observed address.
pub open spec fn spec_classify_round1(end: RoundEnd) -> NatOutcome {
    match end {
        RoundEnd::Complete(rr) => {
            if rr.remote1.port == rr.remote2.port {
                NatOutcome::Classified {
                    ip: Some(rr.remote1.ip),
                    nat: if rr.saw_cross_port {
                        NatType::A
                    } else {
                        NatType::B
                    },
                }
            } else {
                NatOutcome::NeedSecondRound {
                    round1_ip: rr.remote1.ip,
                    port_a1: rr.remote1.port,
                    port_b1: rr.remote2.port,
                }
            }
        },
        RoundEnd::Inconclusive => NatOutcome::Classified { ip: None, nat: NatType::F },
        RoundEnd::Failed => NatOutcome::Failed,
    }
}

/// Decides what follows from round 1.
pub fn classify_round1(end: &RoundEnd) -> (r: NatOutcome)
    ensures
        r == spec_classify_round1(*end),
{
    match end {
        RoundEnd::Complete(rr) => {
            if rr.remote1.port == rr.remote2.port {
                NatOutcome::Classified {
                    ip: Some(rr.remote1.ip),
                    nat: if rr.saw_cross_port {
                        NatType::A
                    } else {
                        NatType::B
                    },
                }
            } else {
                NatOutcome::NeedSecondRound {
                    round1_ip: rr.remote1.ip,
                    port_a1: rr.remote1.port,
                    port_b1: rr.remote2.port,
                }
            }
        },
        RoundEnd::Inconclusive => NatOutcome::Classified { ip: None, nat: NatType::F },
        RoundEnd::Failed => NatOutcome::Failed,
    }
}

/// The classifier's decision after round 2, given round 1's ports and
/// observed address. Equal wrap-adjusted deltas on the two servers mean a
/// predictable allocator, class C; differing deltas class D. The observed
/// address is always the one server 1 reported in round 1. An
/// inconclusive round again settles the test at class F.
pub open spec fn spec_classify_round2(
    ip: Ipv4,
    port_a1: u16,
    port_b1: u16,
    end: RoundEnd,
) -> NatOutcome {
    match end {
        RoundEnd::Complete(rr) => NatOutcome::Classified {
            ip: Some(ip),
            nat: if spec_port_delta(rr.remote1.port, port_a1) == spec_port_delta(
                rr.remote2.port,
                port_b1,
            ) {
                NatType::C
            } else {
                NatType::D
            },
        },
        RoundEnd::Inconclusive => NatOutcome::Classified { ip: None, nat: NatType::F },
        RoundEnd::Failed => NatOutcome::Failed,
    }
}

/// Decides the test from round 2's end.
pub fn classify_round2(ip: Ipv4, port_a1: u16, port_b1: u16, end: &RoundEnd) -> (r: NatOutcome)
    ensures
        r == spec_classify_round2(ip, port_a1, port_b1, *end),
{
    match end {
        RoundEnd::Complete(rr) => {
            let delta_a = port_delta(rr.remote1.port, port_a1);
            let delta_b = port_delta(rr.remote2.port, port_b1);
            NatOutcome::Classified {
                ip: Some(ip),
                nat: if delta_a == delta_b {
                    NatType::C
                } else {
                    NatType::D
                },
            }
        },
        RoundEnd::Inconclusive => NatOutcome::Classified { ip: None, nat: NatType::F },
        RoundEnd::Failed => NatOutcome::Failed,
    }
}

/// A complete round 1 with equal ports settles the test: class A when the
/// cross-port reply was seen, class B when it was not, and the observed
/// address is the one server 1 reported.
pub proof fn lemma_equal_ports_settle_cone(rr: RoundResult)
    requires
        rr.remote1.port == rr.remote2.port,
    ensures
        rr.saw_cross_port ==> spec_classify_round1(RoundEnd::Complete(rr))
            == (NatOutcome::Classified { ip: Some(rr.remote1.ip), nat: NatType::A }),
        !rr.saw_cross_port ==> spec_classify_round1(RoundEnd::Complete(rr))
            == (NatOutcome::Classified { ip: Some(rr.remote1.ip), nat: NatType::B }),
{
}

/// A round 1 that times out before both echoed endpoints are known
/// classifies as F with no observed address — a successful outcome, not
/// an error surfaced to the caller.
pub proof fn lemma_round1_timeout_is_unavailable(state: RoundState)
    requires
        !(state.remote1 is Some && state.remote2 is Some),
    ensures
        spec_classify_round1(spec_finish_on_error(state, true)) == (NatOutcome::Classified {
            ip: None,
            nat: NatType::F,
        }),
{
}

/// A uniform translation of the observed ports yields class C: when round
/// 1's ports differ and every round-2 port is round 1's port shifted by
/// one constant `k` modulo 65536, and the shift wraps on both servers or
/// on neither, the two wrap-adjusted deltas agree and round 2 classifies
/// as C. (When the shift wraps on exactly one server the protocol's
/// wraparound rule is off by one between the two deltas, and the
/// classification is D instead; that case is excluded here.)
pub proof fn lemma_uniform_shift_is_predictable(
    ip: Ipv4,
    round1: RoundResult,
    round2: RoundResult,
    k: u16,
)
    requires
        round1.remote1.port != round1.remote2.port,
        round2.remote1.port == (round1.remote1.port + k) % 65536,
        round2.remote2.port == (round1.remote2.port + k) % 65536,
        (round1.remote1.port + k >= 65536) <==> (round1.remote2.port + k >= 65536),
    ensures
        spec_classify_round1(RoundEnd::Complete(round1)) == (NatOutcome::NeedSecondRound {
            round1_ip: round1.remote1.ip,
            port_a1: round1.remote1.port,
            port_b1: round1.remote2.port,
        }),
        spec_classify_round2(ip, round1.remote1.port, round1.remote2.port, RoundEnd::Complete(round2))
            == (NatOutcome::Classified { ip: Some(ip), nat: NatType::C }),
{
    let pa1 = round1.remote1.port as int;
    let pb1 = round1.remote2.port as int;
    lemma_shifted_port_delta(round1.remote1.port, round2.remote1.port, k);
    lemma_shifted_port_delta(round1.remote2.port, round2.remote2.port, k);
    if pa1 + k < 65536 {
        assert(spec_port_delta(round2.remote1.port, round1.remote1.port) == k);
        assert(spec_port_delta(round2.remote2.port, round1.remote2.port) == k);
    } else {
        assert(spec_port_delta(round2.remote1.port, round1.remote1.port) == k - 1);
        assert(spec_port_delta(round2.remote2.port, round1.remote2.port) == k - 1);
    }
}

/// The wrap-adjusted delta of a port shifted by `k` modulo 65536: it is
/// `k` itself while the shift stays below 65536, and `k - 1` once the
/// shift wraps (the wraparound rule counts through 65535, not 65536).
pub proof fn lemma_shifted_port_delta(previous: u16, current: u16, k: u16)
    requires
        current == (previous + k) % 65536,
    ensures
        previous + k < 65536 ==> spec_port_delta(current, previous) == k,
        previous + k >= 65536 ==> spec_port_delta(current, previous) == k - 1,
{
    if previous + k < 65536 {
        lemma_small_mod((previous + k) as nat, 65536nat);
        assert(current == previous + k);
    } else {
        lemma_fundamental_div_mod_converse(
            previous + k,
            65536,
            1,
            previous + k - 65536,
        );
        assert(current == previous + k - 65536);
        assert(current < previous);
    }
}

} // verus!
