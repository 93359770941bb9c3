//! What the playback machine replays over many steps: the tape, entry by
//! entry, again and again, with nothing added, left out or moved.

use vstd::arithmetic::div_mod::{lemma_mod_add_multiples_vanish, lemma_mod_self_0, lemma_small_mod};
use vstd::prelude::*;

use crate::action::Action;
use crate::fault::Fault;
use crate::playback::PlaybackView;

verus! {

impl PlaybackView {
    /// The machine is replaying a tape that is not empty.
    pub open spec fn replaying(self) -> bool {
        &&& self.wf()
        &&& self.phase is Running
        &&& self.tape.len() > 0
    }
}

/// A step of a replaying machine moves the cursor one place round the tape
/// and changes nothing else.
pub proof fn lemma_step_moves_cursor(m: PlaybackView)
    requires
        m.replaying(),
    ensures
        m.after_step().replaying(),
        m.due() == Some(m.tape[m.cursor as int]),
        m.after_step() == (PlaybackView { cursor: (m.cursor + 1) % m.tape.len(), ..m }),
{
    if m.cursor + 1 < m.tape.len() {
        lemma_small_mod(m.cursor + 1, m.tape.len());
    } else {
        lemma_mod_self_0(m.tape.len() as int);
    }
}

/// After `n` steps the cursor of a replaying machine has moved `n` places
/// round the tape, and nothing else has changed.
pub proof fn lemma_steps_move_cursor(m: PlaybackView, n: nat)
    requires
        m.replaying(),
    ensures
        m.after_steps(n).replaying(),
        m.after_steps(n) == (PlaybackView { cursor: (m.cursor + n) % m.tape.len(), ..m }),
    decreases n,
{
    let len = m.tape.len();
    if n == 0 {
        lemma_small_mod(m.cursor, len);
    } else {
        let next = m.after_step();
        lemma_step_moves_cursor(m);
        lemma_steps_move_cursor(next, (n - 1) as nat);
        if m.cursor + 1 == len {
            lemma_mod_add_multiples_vanish(n - 1, len as int);
        }
    }
}

/// A replaying machine issues one action per step, and the `k`-th of them is
/// the tape entry `k` places round the tape from the cursor.
pub proof fn lemma_issued_follows_tape(m: PlaybackView, n: nat)
    requires
        m.replaying(),
    ensures
        m.issued(n).len() == n,
        forall|k: int|
            0 <= k < n ==> #[trigger] m.issued(n)[k] == m.tape[(m.cursor + k) % (m.tape.len()
                as int)],
    decreases n,
{
    let len = m.tape.len() as int;
    if n > 0 {
        let next = m.after_step();
        lemma_step_moves_cursor(m);
        lemma_issued_follows_tape(next, (n - 1) as nat);
        assert forall|k: int| 0 <= k < n implies #[trigger] m.issued(n)[k] == m.tape[(m.cursor + k)
            % len] by {
            if k == 0 {
                lemma_small_mod(m.cursor, m.tape.len());
            } else {
                assert(m.issued(n)[k] == next.issued((n - 1) as nat)[k - 1]);
                if m.cursor + 1 == len {
                    lemma_mod_add_multiples_vanish(k - 1, len);
                }
            }
        }
    }
}

/// What `a + b` steps issue is what the first `a` steps issue, followed by
/// what the next `b` steps issue.
pub proof fn lemma_issued_splits(m: PlaybackView, a: nat, b: nat)
    ensures
        m.issued(a + b) == m.issued(a) + m.after_steps(a).issued(b),
    decreases a,
{
    if a == 0 {
        assert(m.issued(0) + m.issued(b) =~= m.issued(b));
    } else if m.due() is Some {
        let next = m.after_step();
        lemma_issued_splits(next, (a - 1) as nat, b);
        let head = seq![m.due().unwrap()];
        assert(head + (next.issued((a - 1) as nat) + next.after_steps((a - 1) as nat).issued(b))
            =~= (head + next.issued((a - 1) as nat)) + next.after_steps((a - 1) as nat).issued(b));
    } else {
        lemma_stalled_issues_nothing(m, (a - 1) as nat);
        lemma_stalled_issues_nothing(m, b);
        lemma_stalled_issues_nothing(m, a + b);
        assert(m.issued(a) + m.after_steps(a).issued(b) =~= Seq::<Action>::empty());
    }
}

/// A machine with nothing due stays as it is and issues nothing, however
/// many steps it is given.
pub proof fn lemma_stalled_issues_nothing(m: PlaybackView, n: nat)
    requires
        m.due() is None,
    ensures
        m.after_steps(n) == m,
        m.issued(n) == Seq::<Action>::empty(),
    decreases n,
{
    if n > 0 {
        lemma_stalled_issues_nothing(m, (n - 1) as nat);
    }
}

/// After a fault nothing more is issued: a halted machine stays halted on
/// the same fault and issues nothing, however many steps it is given, and a
/// second fault does not replace the first.
pub proof fn lemma_halted_is_final(m: PlaybackView, n: nat, later: Fault)
    requires
        m.phase is Halted,
    ensures
        m.after_steps(n) == m,
        m.issued(n) == Seq::<Action>::empty(),
        m.halted(later) == m,
{
    lemma_stalled_issues_nothing(m, n);
}

/// Periodicity: among the actions that a replaying machine issues, each one
/// is issued again one tape length later.
pub proof fn lemma_issued_is_periodic(m: PlaybackView, n: nat, k: nat)
    requires
        m.replaying(),
        k + m.tape.len() < n,
    ensures
        m.issued(n)[(k + m.tape.len()) as int] == m.issued(n)[k as int],
{
    let len = m.tape.len() as int;
    lemma_issued_follows_tape(m, n);
    lemma_mod_add_multiples_vanish((m.cursor + k) as int, len);
    assert(m.issued(n)[k + len] == m.tape[(m.cursor + (k + len)) % len]);
    assert(m.cursor + (k + len) == len + (m.cursor + k));
}

/// Repetition: from the first entry, one tape length of steps issues the
/// tape itself and brings the machine back to where it was, so that any
/// longer run issues the tape followed by what a run from the start issues.
pub proof fn lemma_issued_repeats_tape(m: PlaybackView, n: nat)
    requires
        m.replaying(),
        m.cursor == 0,
    ensures
        m.issued(m.tape.len()) == m.tape,
        m.after_steps(m.tape.len()) == m,
        m.issued(m.tape.len() + n) == m.tape + m.issued(n),
{
    let len = m.tape.len();
    lemma_issued_follows_tape(m, len);
    assert forall|k: int| 0 <= k < len implies m.issued(len)[k] == m.tape[k] by {
        lemma_small_mod(k as nat, len);
    }
    assert(m.issued(len) =~= m.tape);
    lemma_steps_move_cursor(m, len);
    lemma_mod_self_0(len as int);
    lemma_issued_splits(m, len, n);
}

/// Restart: the step after the one that replays the last entry replays the
/// first entry. No step lies between the two, and the delay after the last
/// entry is the delay after every other.
pub proof fn lemma_restart_after_last_entry(m: PlaybackView)
    requires
        m.replaying(),
        m.cursor + 1 == m.tape.len(),
    ensures
        m.due() == Some(m.tape.last()),
        m.after_step().due() == Some(m.tape.first()),
        m.after_step().cursor == 0,
        m.after_step().delay_ms == m.delay_ms,
        m.issued(2) == seq![m.tape.last(), m.tape.first()],
{
    lemma_step_moves_cursor(m);
    let next = m.after_step();
    lemma_step_moves_cursor(next);
    assert(m.issued(2) =~= seq![m.tape.last(), m.tape.first()]) by {
        assert(next.after_step().issued(0) =~= Seq::<Action>::empty());
        assert(next.issued(1) =~= seq![m.tape.first()]);
    }
}

} // verus!
