//! The playback machine: it replays the tape on the output line, one action
//! per step, and starts over at the first entry when the tape is exhausted.
//!
//! The machine decides; the caller acts. Each [`Playback::step`] says what is
//! due: a level to drive, the event to log and the delay to wait before the
//! next step. The caller drives the line, hands the device's answer to
//! [`Playback::device_result`], waits, and steps again. Once the device has
//! refused a level nothing more is due. What becomes of a logged event is never
//! reported back, so the log cannot change what the machine does.

use vstd::prelude::*;

use crate::action::{led_action, Action, Level};
use crate::arena::Arena;
use crate::fault::Fault;
use crate::tape::{build_tape, default_pattern, tape_footprint, ActionTape};

verus! {

/// Delay between two steps of the default configuration, in milliseconds.
pub const STEP_DELAY_MS: u32 = 250;

/// Where the machine stands.
#[derive(Clone, Copy, Debug, PartialEq, Eq, Structural)]
pub enum Phase {
    /// No tape yet: the arena and the tape are still to be set up.
    Idle,
    /// The tape is being replayed. The machine leaves this phase only on a
    /// fault.
    Running,
    /// A fault has stopped the machine for good.
    Halted(Fault),
}

/// One step's worth of work for the caller.
#[derive(Clone, Copy, Debug, PartialEq, Eq)]
pub struct Directive {
    /// The tape entry that this step replays.
    pub action: Action,
    /// The level to drive on the line.
    pub level: Level,
    /// The event to hand to the log.
    pub event: &'static str,
    /// How long to wait before the next step, in milliseconds.
    pub wait_ms: u32,
}

/// What a step of the machine asks of the caller.
#[derive(Clone, Copy, Debug, PartialEq, Eq)]
pub enum Step {
    /// Drive the line, log the event, wait.
    Drive(Directive),
    /// Nothing is due: the machine is idle or its tape is empty.
    Rest,
    /// The machine has halted on this fault.
    Halt(Fault),
}

/// The machine as a mathematical value.
pub struct PlaybackView {
    pub phase: Phase,
    /// The tape being replayed; empty while idle.
    pub tape: Seq<Action>,
    /// Index of the entry that the next step replays.
    pub cursor: nat,
    /// Delay after each step, in milliseconds.
    pub delay_ms: nat,
}

impl PlaybackView {
    /// The idle machine.
    pub open spec fn idle(delay_ms: nat) -> PlaybackView {
        PlaybackView { phase: Phase::Idle, tape: Seq::empty(), cursor: 0, delay_ms }
    }

    /// The cursor points into the tape, and an idle machine has no tape.
    pub open spec fn wf(self) -> bool {
        &&& self.tape.len() == 0 ==> self.cursor == 0
        &&& self.tape.len() > 0 ==> self.cursor < self.tape.len()
        &&& self.phase is Idle ==> self.tape.len() == 0
    }

    /// The machine after it is started on `tape`.
    pub open spec fn started(self, tape: Seq<Action>) -> PlaybackView {
        PlaybackView { phase: Phase::Running, tape, cursor: 0, ..self }
    }

    /// The machine after `fault` is reported. The first fault stands.
    pub open spec fn halted(self, fault: Fault) -> PlaybackView {
        if self.phase is Halted {
            self
        } else {
            PlaybackView { phase: Phase::Halted(fault), ..self }
        }
    }

    /// The action that the next step replays, if any.
    pub open spec fn due(self) -> Option<Action> {
        if self.phase is Running && self.tape.len() > 0 {
            Some(self.tape[self.cursor as int])
        } else {
            None
        }
    }

    /// The machine after one step: the cursor moves to the next entry, and
    /// from the last entry to the first.
    pub open spec fn after_step(self) -> PlaybackView {
        if self.due() is Some {
            PlaybackView {
                cursor: if self.cursor + 1 < self.tape.len() {
                    self.cursor + 1
                } else {
                    0
                },
                ..self
            }
        } else {
            self
        }
    }

    /// The machine after `n` steps.
    pub open spec fn after_steps(self, n: nat) -> PlaybackView
        decreases n,
    {
        if n == 0 {
            self
        } else {
            self.after_step().after_steps((n - 1) as nat)
        }
    }

    /// The actions that the next `n` steps replay, in order.
    pub open spec fn issued(self, n: nat) -> Seq<Action>
        decreases n,
    {
        if n == 0 {
            Seq::empty()
        } else {
            match self.due() {
                Some(action) => seq![action] + self.after_step().issued((n - 1) as nat),
                None => Seq::empty(),
            }
        }
    }
}

/// The playback machine.
#[derive(Debug)]
pub struct Playback {
    phase: Phase,
    tape: Option<ActionTape>,
    cursor: usize,
    delay_ms: u32,
}

impl View for Playback {
    type V = PlaybackView;

    closed spec fn view(&self) -> PlaybackView {
        PlaybackView {
            phase: self.phase,
            tape: match self.tape {
                Some(tape) => tape@,
                None => Seq::empty(),
            },
            cursor: self.cursor as nat,
            delay_ms: self.delay_ms as nat,
        }
    }
}

impl Playback {
    #[verifier::type_invariant]
    spec fn inv(self) -> bool {
        self@.wf()
    }

    /// An idle machine that will wait `delay_ms` milliseconds after each step.
    pub fn new(delay_ms: u32) -> (playback: Playback)
        ensures
            playback@ == PlaybackView::idle(delay_ms as nat),
    {
        Playback { phase: Phase::Idle, tape: None, cursor: 0, delay_ms }
    }

    /// Where the machine stands.
    pub fn phase(&self) -> (phase: Phase)
        ensures
            phase == self@.phase,
    {
        self.phase
    }

    /// Delay after each step, in milliseconds.
    pub fn delay_ms(&self) -> (ms: u32)
        ensures
            ms == self@.delay_ms,
    {
        self.delay_ms
    }

    /// Index of the entry that the next step replays.
    pub fn cursor(&self) -> (index: usize)
        ensures
            index == self@.cursor,
            self@.wf(),
    {
        proof {
            use_type_invariant(self);
        }
        self.cursor
    }

    /// Starts the idle machine on `tape`, at its first entry.
    pub fn start(&mut self, tape: ActionTape)
        requires
            old(self)@.phase is Idle,
        ensures
            final(self)@ == old(self)@.started(tape@),
    {
        let delay_ms: u32 = self.delay_ms;
        *self = Playback { phase: Phase::Running, tape: Some(tape), cursor: 0, delay_ms };
    }

    /// Takes the idle machine into service: builds the default tape from the
    /// arena and starts on it. Where the arena cannot hold the tape the
    /// machine halts on that fault and the arena stays as it was.
    pub fn boot(&mut self, arena: &mut Arena) -> (started: Result<(), Fault>)
        requires
            old(self)@.phase is Idle,
            old(arena)@.initialized,
        ensures
            started is Ok <==> old(arena)@.grants(tape_footprint(default_pattern().len())),
            started is Ok ==> final(self)@ == old(self)@.started(default_pattern()) && final(arena)@
                == old(arena)@.charged(tape_footprint(default_pattern().len())),
            started matches Err(fault) ==> fault == Fault::AllocatorExhausted && final(self)@ == old(
                self,
            )@.halted(fault) && final(arena)@ == old(arena)@,
    {
        proof {
            use_type_invariant(&*self);
        }
        match build_tape(arena) {
            Ok(tape) => {
                self.start(tape);
                Ok(())
            },
            Err(fault) => {
                self.phase = Phase::Halted(fault);
                Err(fault)
            },
        }
    }

    /// One step of the machine. While running on a tape that is not empty,
    /// the entry under the cursor is due and the cursor moves on; otherwise
    /// the machine stays as it is.
    pub fn step(&mut self) -> (step: Step)
        ensures
            final(self)@ == old(self)@.after_step(),
            match step {
                Step::Drive(directive) => {
                    &&& old(self)@.due() == Some(directive.action)
                    &&& directive.level == directive.action.level()
                    &&& directive.event@ == directive.action.event_text()
                    &&& directive.wait_ms == old(self)@.delay_ms
                },
                Step::Rest => !(old(self)@.phase is Halted) && old(self)@.due() is None,
                Step::Halt(fault) => old(self)@.phase == Phase::Halted(fault),
            },
    {
        proof {
            use_type_invariant(&*self);
        }
        match self.phase {
            Phase::Halted(fault) => Step::Halt(fault),
            Phase::Idle => Step::Rest,
            Phase::Running => {
                let (len, due): (usize, Option<Action>) = match &self.tape {
                    Some(tape) => (tape.len(), tape.get(self.cursor)),
                    None => (0, None),
                };
                match due {
                    Some(action) => {
                        let command = led_action(action);
                        self.cursor = if self.cursor + 1 < len {
                            self.cursor + 1
                        } else {
                            0
                        };
                        Step::Drive(
                            Directive {
                                action,
                                level: command.level,
                                event: command.event,
                                wait_ms: self.delay_ms,
                            },
                        )
                    },
                    None => Step::Rest,
                }
            },
        }
    }

    /// Takes the output device's answer to the level it was last given.
    /// A device that took the level changes nothing. A device that refused
    /// it halts the machine: there is no retry. The result is `Ok` while the
    /// machine has not halted, and otherwise the fault that it stands halted
    /// on, which is an earlier one where there was one.
    pub fn device_result(&mut self, accepted: bool) -> (outcome: Result<(), Fault>)
        ensures
            final(self)@ == if accepted {
                old(self)@
            } else {
                old(self)@.halted(Fault::DeviceFault)
            },
            outcome == match final(self)@.phase {
                Phase::Halted(fault) => Err::<(), Fault>(fault),
                _ => Ok::<(), Fault>(()),
            },
    {
        proof {
            use_type_invariant(&*self);
        }
        match self.phase {
            Phase::Halted(fault) => Err(fault),
            _ => {
                if accepted {
                    Ok(())
                } else {
                    self.phase = Phase::Halted(Fault::DeviceFault);
                    Err(Fault::DeviceFault)
                }
            },
        }
    }
}

} // verus!
