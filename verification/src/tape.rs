//! The action tape: an ordered sequence of actions, built once from the arena
//! and read from then on.

use vstd::prelude::*;

use crate::action::Action;
use crate::arena::{Arena, ArenaView, HEAP_SIZE};
use crate::fault::Fault;

verus! {

/// Bytes that one action occupies on a tape.
pub const ACTION_BYTES: usize = 1;

/// Bytes that the arena is charged for a tape beyond its actions: the
/// allowance for the sequence's own bookkeeping.
pub const TAPE_OVERHEAD_BYTES: usize = 8;

/// Number of actions on the default tape.
pub const DEFAULT_TAPE_LEN: usize = 6;

/// Bytes that the arena is charged for a tape of `len` actions.
pub open spec fn tape_footprint(len: nat) -> nat {
    TAPE_OVERHEAD_BYTES as nat + len * (ACTION_BYTES as nat)
}

/// The pattern of the default tape.
pub open spec fn default_pattern() -> Seq<Action> {
    seq![Action::High, Action::Low, Action::High, Action::Low, Action::Low, Action::Low]
}

/// A freshly registered arena holds a tape exactly when its region is at
/// least as large as the tape's footprint. So a region of no bytes holds no
/// tape at all, while the default region holds the default tape, whose
/// footprint is 14 bytes.
pub proof fn lemma_fresh_arena_holds_tape(base: nat, size: nat, len: nat)
    ensures
        ArenaView::fresh(base, size).grants(tape_footprint(len)) <==> size >= tape_footprint(len),
        !ArenaView::fresh(base, 0).grants(tape_footprint(len)),
        default_pattern().len() == DEFAULT_TAPE_LEN,
        tape_footprint(default_pattern().len()) == 14,
        ArenaView::fresh(base, HEAP_SIZE as nat).grants(tape_footprint(default_pattern().len())),
{
}

/// An ordered sequence of actions. Its length and its entries are fixed when
/// it is built; every read gives the entries in the order of insertion.
#[derive(Debug)]
pub struct ActionTape {
    actions: Vec<Action>,
}

impl View for ActionTape {
    type V = Seq<Action>;

    closed spec fn view(&self) -> Seq<Action> {
        self.actions@
    }
}

/// The footprint of a tape of `len` actions, unless it is more than any arena
/// can hold.
fn footprint_of(len: usize) -> (bytes: Option<usize>)
    ensures
        match bytes {
            Some(b) => b == tape_footprint(len as nat),
            None => tape_footprint(len as nat) > usize::MAX,
        },
{
    match len.checked_mul(ACTION_BYTES) {
        Some(payload) => payload.checked_add(TAPE_OVERHEAD_BYTES),
        None => None,
    }
}

impl ActionTape {
    /// Builds a tape that holds `pattern`, entry for entry, and charges the
    /// arena its footprint. Where the arena has fewer bytes left than that, no
    /// tape is built and the arena stays as it was.
    pub fn record(arena: &mut Arena, pattern: &[Action]) -> (built: Result<ActionTape, Fault>)
        requires
            old(arena)@.initialized,
        ensures
            built is Ok <==> old(arena)@.grants(tape_footprint(pattern@.len())),
            built matches Ok(tape) ==> tape@ == pattern@ && final(arena)@ == old(arena)@.charged(
                tape_footprint(pattern@.len()),
            ),
            built matches Err(fault) ==> fault == Fault::AllocatorExhausted && final(arena)@ == old(
                arena,
            )@,
            final(arena)@.wf(),
    {
        proof {
            use_type_invariant(&*arena);
        }
        let bytes: usize = match footprint_of(pattern.len()) {
            Some(bytes) => bytes,
            None => {
                return Err(Fault::AllocatorExhausted);
            },
        };
        match arena.allocate(bytes) {
            Ok(()) => {},
            Err(fault) => {
                return Err(fault);
            },
        }
        let mut actions: Vec<Action> = Vec::with_capacity(pattern.len());
        let mut i: usize = 0;
        while i < pattern.len()
            invariant
                i <= pattern@.len(),
                actions@ == pattern@.take(i as int),
            decreases pattern@.len() - i,
        {
            actions.push(pattern[i]);
            i = i + 1;
        }
        assert(pattern@.take(pattern@.len() as int) == pattern@);
        Ok(ActionTape { actions })
    }

    /// Number of actions on the tape.
    pub fn len(&self) -> (n: usize)
        ensures
            n == self@.len(),
    {
        self.actions.len()
    }

    /// Whether the tape holds no action.
    pub fn is_empty(&self) -> (b: bool)
        ensures
            b == (self@.len() == 0),
    {
        self.actions.len() == 0
    }

    /// The action at `index`, counted from 0, or `None` past the end.
    pub fn get(&self, index: usize) -> (action: Option<Action>)
        ensures
            action == if index < self@.len() {
                Some(self@[index as int])
            } else {
                None
            },
    {
        if index < self.actions.len() {
            Some(self.actions[index])
        } else {
            None
        }
    }

    /// The actions from first to last, for reading in order.
    pub fn actions(&self) -> (entries: &[Action])
        ensures
            entries@ == self@,
    {
        self.actions.as_slice()
    }
}

/// Builds the default tape, `High, Low, High, Low, Low, Low`, and charges the
/// arena its footprint. Where the arena has fewer bytes left than that, no
/// tape is built and the arena stays as it was.
pub fn build_tape(arena: &mut Arena) -> (built: Result<ActionTape, Fault>)
    requires
        old(arena)@.initialized,
    ensures
        built is Ok <==> old(arena)@.grants(tape_footprint(default_pattern().len())),
        built matches Ok(tape) ==> tape@ == default_pattern() && final(arena)@ == old(
            arena,
        )@.charged(tape_footprint(default_pattern().len())),
        built matches Err(fault) ==> fault == Fault::AllocatorExhausted && final(arena)@ == old(
            arena,
        )@,
        final(arena)@.wf(),
{
    let bytes: usize = TAPE_OVERHEAD_BYTES + DEFAULT_TAPE_LEN * ACTION_BYTES;
    match arena.allocate(bytes) {
        Ok(()) => {},
        Err(fault) => {
            return Err(fault);
        },
    }
    let mut actions: Vec<Action> = Vec::new();
    actions.push(Action::High);
    actions.push(Action::Low);
    actions.push(Action::High);
    actions.push(Action::Low);
    actions.push(Action::Low);
    actions.push(Action::Low);
    Ok(ActionTape { actions })
}

} // verus!
