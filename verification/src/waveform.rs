//! The waveform on the line: which level it holds at which time when the
//! tape is replayed from time 0 with a fixed delay after each step.

use vstd::arithmetic::div_mod::{
    lemma_div_multiples_vanish_fancy, lemma_hoist_over_denominator, lemma_mod_add_multiples_vanish,
};
use vstd::arithmetic::mul::{lemma_mul_is_commutative, lemma_mul_is_distributive_add_other_way};
use vstd::prelude::*;

use crate::action::{led_action, Action, Level};
use crate::cycle::lemma_issued_follows_tape;
use crate::playback::PlaybackView;
use crate::tape::ActionTape;

verus! {

/// The playback period: the time that one pass over a tape of `len` entries
/// takes, in milliseconds.
pub open spec fn tape_period_ms(len: nat, delay_ms: nat) -> nat {
    len * delay_ms
}

/// The time at which step `k`, counted from 0, drives the line, in
/// milliseconds from the first step.
pub open spec fn step_time_ms(delay_ms: nat, k: nat) -> nat {
    k * delay_ms
}

/// The level that the line holds `t_ms` milliseconds after the first step.
pub open spec fn line_level_at_ms(tape: Seq<Action>, delay_ms: nat, t_ms: nat) -> Level
    recommends
        tape.len() > 0,
        delay_ms > 0,
{
    tape[((t_ms / delay_ms) % tape.len()) as int].level()
}

/// Steps are evenly spaced: the first is at time 0, each next one a delay
/// later, and the step one tape length later comes one period later.
pub proof fn lemma_steps_are_evenly_spaced(len: nat, delay_ms: nat, k: nat)
    ensures
        step_time_ms(delay_ms, 0) == 0,
        step_time_ms(delay_ms, k + 1) == step_time_ms(delay_ms, k) + delay_ms,
        step_time_ms(delay_ms, k + len) == step_time_ms(delay_ms, k) + tape_period_ms(
            len,
            delay_ms,
        ),
{
    lemma_mul_is_distributive_add_other_way(delay_ms as int, k as int, 1);
    lemma_mul_is_distributive_add_other_way(delay_ms as int, k as int, len as int);
}

/// From step `k` until the next step the line holds the level of the entry
/// that step `k` replays.
pub proof fn lemma_level_between_steps(tape: Seq<Action>, delay_ms: nat, k: nat, since_ms: nat)
    requires
        tape.len() > 0,
        since_ms < delay_ms,
    ensures
        line_level_at_ms(tape, delay_ms, step_time_ms(delay_ms, k) + since_ms) == tape[(k
            % tape.len()) as int].level(),
{
    lemma_mul_is_commutative(k as int, delay_ms as int);
    lemma_div_multiples_vanish_fancy(k as int, since_ms as int, delay_ms as int);
}

/// Periodicity: one playback period later the line holds the same level.
pub proof fn lemma_level_is_periodic(tape: Seq<Action>, delay_ms: nat, t_ms: nat)
    requires
        tape.len() > 0,
        delay_ms > 0,
    ensures
        line_level_at_ms(tape, delay_ms, t_ms + tape_period_ms(tape.len(), delay_ms))
            == line_level_at_ms(tape, delay_ms, t_ms),
{
    let len = tape.len() as int;
    lemma_hoist_over_denominator(t_ms as int, len, delay_ms);
    lemma_mod_add_multiples_vanish(t_ms as int / delay_ms as int, len);
}

/// The line follows the machine: at the time of step `k` the line holds the
/// level of the `k`-th action that a machine started on the tape issues.
pub proof fn lemma_line_follows_machine(m: PlaybackView, n: nat, k: nat)
    requires
        m.replaying(),
        m.cursor == 0,
        m.delay_ms > 0,
        k < n,
    ensures
        line_level_at_ms(m.tape, m.delay_ms, step_time_ms(m.delay_ms, k)) == m.issued(
            n,
        )[k as int].level(),
{
    lemma_issued_follows_tape(m, n);
    lemma_level_between_steps(m.tape, m.delay_ms, k, 0);
}

impl ActionTape {
    /// The playback period of this tape at `delay_ms` milliseconds per step,
    /// or `None` where it does not fit in 64 bits.
    pub fn period_ms(&self, delay_ms: u32) -> (period: Option<u64>)
        ensures
            match period {
                Some(ms) => ms == tape_period_ms(self@.len(), delay_ms as nat),
                None => tape_period_ms(self@.len(), delay_ms as nat) > u64::MAX,
            },
    {
        (self.len() as u64).checked_mul(delay_ms as u64)
    }

    /// The level that the line holds `t_ms` milliseconds after the first
    /// step, when this tape is replayed at `delay_ms` milliseconds per step.
    /// `None` where no waveform is defined: the tape is empty or the delay is
    /// zero.
    pub fn level_at_ms(&self, delay_ms: u32, t_ms: u64) -> (level: Option<Level>)
        ensures
            level == if self@.len() > 0 && delay_ms > 0 {
                Some(line_level_at_ms(self@, delay_ms as nat, t_ms as nat))
            } else {
                None
            },
    {
        let len: usize = self.len();
        if len == 0 || delay_ms == 0 {
            return None;
        }
        let step: u64 = t_ms / (delay_ms as u64);
        let place: u64 = step % (len as u64);
        match self.get(place as usize) {
            Some(action) => Some(led_action(action).level),
            None => None,
        }
    }
}

} // verus!
