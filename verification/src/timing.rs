//! Phases of the adaptive timing of one target, and how the number of
//! probes under way changes between them. The loss rates, round-trip
//! variations and scaled parallelism are measured by the caller; here is
//! what they lead to.

use vstd::prelude::*;

verus! {

/// Phases of a timing profile.
#[derive(Debug, Clone, Copy, PartialEq, Eq, Structural)]
pub enum TimingState {
    /// Initial probing phase
    Probing,
    /// Normal operation
    Normal,
    /// Congestion detected, backing off
    Congested,
    /// Recovering from congestion
    Recovering,
}

pub open spec fn min_usize(a: usize, b: usize) -> usize {
    if a <= b { a } else { b }
}

pub open spec fn max_usize(a: usize, b: usize) -> usize {
    if a >= b { a } else { b }
}

/// The phase and parallelism after a reply. `samples` is the number of
/// round-trip samples so far; `below_half` and `below_quarter` say whether
/// the loss rate is below half, or a quarter, of the loss threshold;
/// `jittery` whether the round-trip variation is over half the smoothed
/// round-trip time; `scaled` is the parallelism scaled by the recovery
/// rate.
///
/// Probing ends after ten samples, with a quarter of the maximum
/// parallelism (at least one). In normal operation the parallelism grows by
/// one while losses are low and the round trips steady. Congestion turns to
/// recovery once losses are low. In recovery, with very low losses, the
/// parallelism becomes the scaled one plus one, and normal operation
/// resumes at half the maximum. The parallelism never passes the maximum.
pub open spec fn reply_step(
    state: TimingState,
    samples: u64,
    parallelism: usize,
    max_parallelism: usize,
    below_half: bool,
    below_quarter: bool,
    jittery: bool,
    scaled: usize,
) -> (TimingState, usize) {
    match state {
        TimingState::Probing => if samples >= 10 {
            (TimingState::Normal, max_usize(max_parallelism / 4, 1))
        } else {
            (TimingState::Probing, parallelism)
        },
        TimingState::Normal => if below_half && !jittery {
            (TimingState::Normal, min_usize((parallelism + 1) as usize, max_parallelism))
        } else {
            (TimingState::Normal, parallelism)
        },
        TimingState::Congested => if below_half {
            (TimingState::Recovering, parallelism)
        } else {
            (TimingState::Congested, parallelism)
        },
        TimingState::Recovering => if below_quarter {
            let p = min_usize((scaled + 1) as usize, max_parallelism);
            (if p >= max_parallelism / 2 { TimingState::Normal } else { TimingState::Recovering }, p)
        } else {
            (TimingState::Recovering, parallelism)
        },
    }
}

/// The phase and parallelism after a reply; see `reply_step`.
pub fn after_reply(
    state: TimingState,
    samples: u64,
    parallelism: usize,
    max_parallelism: usize,
    below_half: bool,
    below_quarter: bool,
    jittery: bool,
    scaled: usize,
) -> (r: (TimingState, usize))
    requires
        (state == TimingState::Normal && below_half && !jittery) ==> parallelism < usize::MAX,
        (state == TimingState::Recovering && below_quarter) ==> scaled < usize::MAX,
    ensures
        r == reply_step(state, samples, parallelism, max_parallelism, below_half, below_quarter, jittery, scaled),
{
    match state {
        TimingState::Probing => {
            if samples >= 10 {
                let q = max_parallelism / 4;
                (TimingState::Normal, if q >= 1 { q } else { 1 })
            } else {
                (TimingState::Probing, parallelism)
            }
        },
        TimingState::Normal => {
            if below_half && !jittery {
                let p = parallelism + 1;
                (TimingState::Normal, if p <= max_parallelism { p } else { max_parallelism })
            } else {
                (TimingState::Normal, parallelism)
            }
        },
        TimingState::Congested => {
            if below_half {
                (TimingState::Recovering, parallelism)
            } else {
                (TimingState::Congested, parallelism)
            }
        },
        TimingState::Recovering => {
            if below_quarter {
                let s = scaled + 1;
                let p = if s <= max_parallelism { s } else { max_parallelism };
                (if p >= max_parallelism / 2 { TimingState::Normal } else { TimingState::Recovering }, p)
            } else {
                (TimingState::Recovering, parallelism)
            }
        },
    }
}

/// The phase and parallelism on entering congestion: congested, with the
/// parallelism divided by the back-off factor (`backed_off`), at least one.
pub fn after_congestion(backed_off: usize) -> (r: (TimingState, usize))
    ensures
        r == (TimingState::Congested, max_usize(backed_off, 1)),
{
    (TimingState::Congested, if backed_off >= 1 { backed_off } else { 1 })
}

/// The parallelism stays between one and the maximum: from a parallelism
/// in that range, a reply, or entering congestion with a backed-off value
/// no larger than the maximum, leads to a parallelism in that range again.
pub proof fn lemma_parallelism_in_range(
    state: TimingState,
    samples: u64,
    parallelism: usize,
    max_parallelism: usize,
    below_half: bool,
    below_quarter: bool,
    jittery: bool,
    scaled: usize,
    backed_off: usize,
)
    requires
        1 <= parallelism <= max_parallelism,
        parallelism < usize::MAX,
        scaled < usize::MAX,
        backed_off <= max_parallelism,
    ensures
        ({
            let (s, p) = reply_step(state, samples, parallelism, max_parallelism, below_half, below_quarter, jittery, scaled);
            1 <= p <= max_parallelism
        }),
        1 <= max_usize(backed_off, 1) <= max_parallelism,
{
}

} // verus!
