//! The session cycle controller: an explicit state machine that drives an
//! unbounded alternation of Work and Break (or Long Break) phases.
//!
//! Each call to [`Session::step`] performs one transition and returns the
//! [`Directive`] the caller must complete before stepping again. The caller
//! owns the clock, the console and the audio device; the controller owns
//! every decision: which phase comes next, how long it lasts, and when the
//! cycle counter advances or resets.

use vstd::prelude::*;

use crate::config::SessionConfig;

verus! {

/// The kind of a timed interval.
#[derive(Clone, Copy, PartialEq, Eq, Structural, Debug)]
pub enum PhaseKind {
    Work,
    Break,
    LongBreak,
}

/// One timed interval of the session: its kind and its length in seconds.
#[derive(Clone, Copy, PartialEq, Eq, Structural, Debug)]
pub struct Phase {
    pub kind: PhaseKind,
    pub duration_secs: u64,
}

/// The controller's position in the cycle. Transitions always run in the
/// order `Work -> DecideBreakKind -> (Break | LongBreak) -> AwaitContinue
/// -> Work`.
#[derive(Clone, Copy, PartialEq, Eq, Structural, Debug)]
pub enum SessionState {
    Work,
    DecideBreakKind,
    Break,
    LongBreak,
    AwaitContinue,
}

/// What the caller must do to complete the transition just taken:
/// run a phase (countdown, then alert, then completion message), nothing
/// (an internal decision), or block until the user confirms with a line
/// of input.
#[derive(Clone, Copy, PartialEq, Eq, Structural, Debug)]
pub enum Directive {
    RunPhase(Phase),
    Decide,
    AwaitInput,
}

impl PhaseKind {
    /// The label a phase is announced under.
    pub open spec fn spec_label(self) -> Seq<char> {
        match self {
            PhaseKind::Work => "Work"@,
            PhaseKind::Break => "Break"@,
            PhaseKind::LongBreak => "Long Break"@,
        }
    }

    /// The label a phase is announced under.
    pub fn label(self) -> (r: &'static str)
        ensures
            r@ == self.spec_label(),
    {
        match self {
            PhaseKind::Work => "Work",
            PhaseKind::Break => "Break",
            PhaseKind::LongBreak => "Long Break",
        }
    }

    /// The message printed when a phase of this kind completes.
    pub open spec fn spec_completion_message(self) -> Seq<char> {
        match self {
            PhaseKind::Work => "Work session completed! Time for a break."@,
            PhaseKind::Break => "Break completed! Back to work."@,
            PhaseKind::LongBreak => "Long break completed! Ready for a new set of cycles."@,
        }
    }

    /// The message printed when a phase of this kind completes.
    pub fn completion_message(self) -> (r: &'static str)
        ensures
            r@ == self.spec_completion_message(),
    {
        match self {
            PhaseKind::Work => "Work session completed! Time for a break.",
            PhaseKind::Break => "Break completed! Back to work.",
            PhaseKind::LongBreak => "Long break completed! Ready for a new set of cycles.",
        }
    }
}

/// The session cycle controller: configuration, the cycle counter, and the
/// current state.
pub struct Session {
    pub config: SessionConfig,
    pub cycle_count: u32,
    pub state: SessionState,
}

/// The phase the controller schedules in a given state, if any: its kind,
/// and its length as the configured minutes converted to seconds.
pub open spec fn spec_phase_of_state(config: SessionConfig, state: SessionState) -> Option<Phase> {
    match state {
        SessionState::Work => Some(
            Phase { kind: PhaseKind::Work, duration_secs: (config.work_minutes * 60) as u64 },
        ),
        SessionState::Break => Some(
            Phase { kind: PhaseKind::Break, duration_secs: (config.break_minutes * 60) as u64 },
        ),
        SessionState::LongBreak => Some(
            Phase {
                kind: PhaseKind::LongBreak,
                duration_secs: (config.long_break_minutes * 60) as u64,
            },
        ),
        _ => None,
    }
}

/// The directive owed for the state the controller is in.
pub open spec fn spec_directive(s: Session) -> Directive {
    match s.state {
        SessionState::Work => Directive::RunPhase(
            spec_phase_of_state(s.config, SessionState::Work)->Some_0,
        ),
        SessionState::DecideBreakKind => Directive::Decide,
        SessionState::Break => Directive::RunPhase(
            spec_phase_of_state(s.config, SessionState::Break)->Some_0,
        ),
        SessionState::LongBreak => Directive::RunPhase(
            spec_phase_of_state(s.config, SessionState::LongBreak)->Some_0,
        ),
        SessionState::AwaitContinue => Directive::AwaitInput,
    }
}

/// One transition of the state machine:
/// - after a Work phase, decide the break kind;
/// - the decision compares `cycle_count >= cycles`: a long break when it
///   holds, an ordinary break otherwise;
/// - after an ordinary break the counter is incremented, after a long
///   break it is reset to 1, and either way the user is awaited;
/// - once the user confirms, the next Work phase begins.
pub open spec fn spec_step(s: Session) -> Session {
    match s.state {
        SessionState::Work => Session { state: SessionState::DecideBreakKind, ..s },
        SessionState::DecideBreakKind => {
            if s.cycle_count >= s.config.cycles {
                Session { state: SessionState::LongBreak, ..s }
            } else {
                Session { state: SessionState::Break, ..s }
            }
        },
        SessionState::Break => Session {
            state: SessionState::AwaitContinue,
            cycle_count: (s.cycle_count + 1) as u32,
            ..s
        },
        SessionState::LongBreak => Session {
            state: SessionState::AwaitContinue,
            cycle_count: 1,
            ..s
        },
        SessionState::AwaitContinue => Session { state: SessionState::Work, ..s },
    }
}

/// A fresh session: counter at 1, about to run the first Work phase.
pub open spec fn spec_init(config: SessionConfig) -> Session {
    Session { config, cycle_count: 1, state: SessionState::Work }
}

impl Session {
    /// Controller invariant: the configuration is well formed, the counter
    /// stays within `1 ..= cycles`, and an ordinary break is only ever
    /// scheduled while the counter is strictly below the cycle target (so
    /// the increment after it cannot overflow the target).
    pub open spec fn wf(&self) -> bool {
        &&& self.config.wf()
        &&& 1 <= self.cycle_count <= self.config.cycles
        &&& (self.state is Break ==> self.cycle_count < self.config.cycles)
    }

    /// Start a session on the given configuration.
    pub fn new(config: SessionConfig) -> (s: Session)
        requires
            config.wf(),
        ensures
            s == spec_init(config),
            s.wf(),
    {
        Session { config, cycle_count: 1, state: SessionState::Work }
    }

    /// Take one transition, returning the directive owed for the state the
    /// controller was in. The configuration never changes; the invariant is
    /// preserved.
    pub fn step(&mut self) -> (d: Directive)
        requires
            old(self).wf(),
        ensures
            final(self).wf(),
            *final(self) == spec_step(*old(self)),
            d == spec_directive(*old(self)),
    {
        match self.state {
            SessionState::Work => {
                let phase = Phase { kind: PhaseKind::Work, duration_secs: self.config.work_minutes * 60 };
                self.state = SessionState::DecideBreakKind;
                Directive::RunPhase(phase)
            },
            SessionState::DecideBreakKind => {
                if long_break_due(self.cycle_count, self.config.cycles) {
                    self.state = SessionState::LongBreak;
                } else {
                    self.state = SessionState::Break;
                }
                Directive::Decide
            },
            SessionState::Break => {
                let phase = Phase { kind: PhaseKind::Break, duration_secs: self.config.break_minutes * 60 };
                self.cycle_count = self.cycle_count + 1;
                self.state = SessionState::AwaitContinue;
                Directive::RunPhase(phase)
            },
            SessionState::LongBreak => {
                let phase = Phase {
                    kind: PhaseKind::LongBreak,
                    duration_secs: self.config.long_break_minutes * 60,
                };
                self.cycle_count = 1;
                self.state = SessionState::AwaitContinue;
                Directive::RunPhase(phase)
            },
            SessionState::AwaitContinue => {
                self.state = SessionState::Work;
                Directive::AwaitInput
            },
        }
    }
}

/// The long-break decision: a long break is due exactly when the cycle
/// counter has reached the configured cycle target.
pub fn long_break_due(cycle_count: u32, cycles: u32) -> (r: bool)
    ensures
        r == (cycle_count >= cycles),
{
    cycle_count >= cycles
}

} // verus!
