use vstd::prelude::*;

verus! {

/// One segment of the cycle.
#[derive(Clone, Copy, Debug, PartialEq, Eq)]
pub enum PomodoroMode {
    Work,
    Break,
    LongBreak,
}

/// How long each kind of phase lasts, in milliseconds.
#[derive(Clone, Copy, Debug, PartialEq, Eq)]
pub struct PomoConfig {
    pub work_time: u64,
    pub break_time: u64,
    pub long_break_time: u64,
}

/// The phase that round `n` falls on: four work phases, each followed by a
/// break, the fourth break being a long one.
pub open spec fn phase_of(n: int) -> PomodoroMode {
    if n % 8 == 7 {
        PomodoroMode::LongBreak
    } else if n % 2 == 0 {
        PomodoroMode::Work
    } else {
        PomodoroMode::Break
    }
}

impl PomodoroMode {
    pub open spec fn target_of(self, config: PomoConfig) -> u64 {
        match self {
            PomodoroMode::Work => config.work_time,
            PomodoroMode::Break => config.break_time,
            PomodoroMode::LongBreak => config.long_break_time,
        }
    }

    /// How long a phase of this kind lasts under `config`.
    pub fn current_target(&self, config: &PomoConfig) -> (r: u64)
        ensures
            r == self.target_of(*config),
    {
        match self {
            PomodoroMode::Work => config.work_time,
            PomodoroMode::Break => config.break_time,
            PomodoroMode::LongBreak => config.long_break_time,
        }
    }
}

impl PomoConfig {
    pub fn new(work_time: u64, break_time: u64, long_break_time: u64) -> (r: PomoConfig)
        ensures
            r.work_time == work_time,
            r.break_time == break_time,
            r.long_break_time == long_break_time,
    {
        PomoConfig { work_time, break_time, long_break_time }
    }
}

/// The current phase and the number of phases passed before it.
#[derive(Clone, Copy, Debug, PartialEq, Eq)]
pub struct PomodoroSession {
    pub mode: PomodoroMode,
    pub number: u32,
}

impl PomodoroSession {
    /// The phase is the one that the round number falls on.
    pub open spec fn wf(self) -> bool {
        self.mode == phase_of(self.number as int)
    }

    pub open spec fn next_spec(self) -> PomodoroSession {
        PomodoroSession { mode: phase_of(self.number + 1), number: (self.number + 1) as u32 }
    }

    /// The first work phase, round zero.
    pub fn new() -> (r: PomodoroSession)
        ensures
            r.mode == PomodoroMode::Work,
            r.number == 0,
            r.wf(),
    {
        PomodoroSession { mode: PomodoroMode::Work, number: 0 }
    }

    /// The phase that follows this one.
    pub fn next_mode(&self) -> (r: PomodoroMode)
        ensures
            r == phase_of(self.number + 1),
    {
        let k: u32 = self.number % 8;
        if k == 6 {
            PomodoroMode::LongBreak
        } else if k % 2 == 1 {
            PomodoroMode::Work
        } else {
            PomodoroMode::Break
        }
    }

    /// The session after this one; the receiver is left unchanged, so the
    /// next phase can be previewed without committing to it.
    pub fn next(&self) -> (r: PomodoroSession)
        requires
            self.number < u32::MAX,
        ensures
            r == self.next_spec(),
            r.number == self.number + 1,
            r.wf(),
    {
        PomodoroSession { mode: self.next_mode(), number: self.number + 1 }
    }
}

/// The session reached from `s` after `k` advances.
pub open spec fn advanced_by(s: PomodoroSession, k: nat) -> PomodoroSession
    decreases k,
{
    if k == 0 {
        s
    } else {
        advanced_by(s, (k - 1) as nat).next_spec()
    }
}

/// Eight advances from round zero pass through work, break, work, break,
/// work, break, work and a long break, and come back to work eight rounds on.
pub proof fn lemma_eight_phase_cycle(s: PomodoroSession)
    requires
        s.number == 0,
        s.wf(),
    ensures
        advanced_by(s, 8) == (PomodoroSession { mode: PomodoroMode::Work, number: 8 }),
        forall|k: int|
            0 <= k < 8 ==> #[trigger] advanced_by(s, k as nat).mode == seq![
                PomodoroMode::Work,
                PomodoroMode::Break,
                PomodoroMode::Work,
                PomodoroMode::Break,
                PomodoroMode::Work,
                PomodoroMode::Break,
                PomodoroMode::Work,
                PomodoroMode::LongBreak,
            ][k],
{
    reveal_with_fuel(advanced_by, 9);
    assert(advanced_by(s, 8).number == 8);
}

} // verus!
