use vstd::prelude::*;

use crate::command::Command;
use crate::counter::Counter;
use crate::session::{phase_of, PomoConfig, PomodoroMode, PomodoroSession};

verus! {

/// Key hints while the phase is still running.
pub const CONTROLS: &'static str = "[Q]: quit, [Shift S]: Skip, [Space]: pause/resume";

/// Key hints once the phase has reached its target.
pub const ENDING_CONTROLS: &'static str = "[Q]: quit, [Shift S]: Skip, [Space]: pause/resume, [Enter]: Next";

/// Key hints while a skip waits for confirmation.
pub const SKIP_CONTROLS: &'static str = "[Enter]: Yes, [Q/N]: No";

/// Whether the live timer counts, or a skip waits for confirmation with the
/// time of the skipped phase frozen.
#[derive(Clone, Copy, Debug, PartialEq, Eq)]
pub enum PomoStateMode {
    Skip { elapsed: u64 },
    Running { counter: Counter },
}

/// The whole timer: what counts, which phase it is, the phase lengths, and
/// whether the alert for the current phase has been raised.
#[derive(Clone, Copy, Debug, PartialEq, Eq)]
pub struct PomoState {
    pub mode: PomoStateMode,
    pub session: PomodoroSession,
    pub config: PomoConfig,
    pub alert: bool,
}

/// A counter that started at zero at the clock reading `now`.
pub open spec fn fresh_running(now: u64) -> PomoStateMode {
    PomoStateMode::Running { counter: Counter { accumulated: 0, resumed_at: Some(now) } }
}

impl PomoState {
    /// The session's phase agrees with its round number.
    pub open spec fn wf(self) -> bool {
        self.session.wf()
    }

    /// Time spent in the current phase as of `now`.
    pub open spec fn elapsed_at(self, now: u64) -> u64 {
        match self.mode {
            PomoStateMode::Running { counter } => counter.elapsed_at(now),
            PomoStateMode::Skip { elapsed } => elapsed,
        }
    }

    /// Length of the current phase.
    pub open spec fn target_spec(self) -> u64 {
        self.session.mode.target_of(self.config)
    }

    /// The phase has run past its target.
    pub open spec fn alert_due(self, now: u64) -> bool {
        self.elapsed_at(now) > self.target_spec()
    }

    pub open spec fn with_mode(self, mode: PomoStateMode) -> PomoState {
        PomoState { mode, session: self.session, config: self.config, alert: self.alert }
    }

    /// The next phase, with a fresh counter started at `now` and the alert
    /// re-armed.
    pub open spec fn advanced(self, now: u64) -> PomoState {
        PomoState {
            mode: fresh_running(now),
            session: self.session.next_spec(),
            config: self.config,
            alert: false,
        }
    }

    /// `command` at `now` moves on to the next phase: Enter once the running
    /// phase has reached its target, or a confirmed skip.
    pub open spec fn advances_on(self, command: Command, now: u64) -> bool {
        match self.mode {
            PomoStateMode::Running { counter } => command == Command::Enter
                && counter.elapsed_at(now) >= self.target_spec(),
            PomoStateMode::Skip { .. } => command == Command::Yes || command == Command::Enter,
        }
    }

    /// The state after `command` arrives at `now`; `None` when the command
    /// ends the program.
    pub open spec fn step(self, command: Command, now: u64) -> Option<PomoState> {
        match self.mode {
            PomoStateMode::Running { counter } => match command {
                Command::Quit => None,
                Command::Pause => Some(
                    self.with_mode(PomoStateMode::Running { counter: counter.stop_spec(now) }),
                ),
                Command::Resume => Some(
                    self.with_mode(PomoStateMode::Running { counter: counter.start_spec(now) }),
                ),
                Command::Toggle => Some(
                    self.with_mode(PomoStateMode::Running { counter: counter.toggle_spec(now) }),
                ),
                Command::Skip => Some(
                    self.with_mode(PomoStateMode::Skip { elapsed: counter.elapsed_at(now) }),
                ),
                Command::Enter => if counter.elapsed_at(now) >= self.target_spec() {
                    Some(self.advanced(now))
                } else {
                    Some(self)
                },
                _ => Some(self),
            },
            PomoStateMode::Skip { elapsed } => match command {
                Command::Quit | Command::No => Some(
                    self.with_mode(
                        PomoStateMode::Running {
                            counter: Counter { accumulated: elapsed, resumed_at: Some(now) },
                        },
                    ),
                ),
                Command::Yes | Command::Enter => Some(self.advanced(now)),
                _ => Some(self),
            },
        }
    }

    /// Whether a tick at `now` raises the alert, and the state after it.
    pub open spec fn tick_spec(self, now: u64) -> (bool, PomoState) {
        let fire = self.alert_due(now) && !self.alert;
        (
            fire,
            PomoState {
                mode: self.mode,
                session: self.session,
                config: self.config,
                alert: self.alert || fire,
            },
        )
    }

    /// The first work phase under `config`, its counter started at `now`.
    pub fn new(config: PomoConfig, now: u64) -> (r: PomoState)
        ensures
            r.mode == fresh_running(now),
            r.session == (PomodoroSession { mode: PomodoroMode::Work, number: 0 }),
            r.config == config,
            !r.alert,
            r.wf(),
    {
        PomoState {
            mode: PomoStateMode::Running { counter: Counter::new().start(now) },
            session: PomodoroSession::new(),
            config,
            alert: false,
        }
    }

    fn advance(self, now: u64) -> (r: PomoState)
        requires
            self.session.number < u32::MAX,
        ensures
            r == self.advanced(now),
    {
        PomoState {
            mode: PomoStateMode::Running { counter: Counter::new().start(now) },
            session: self.session.next(),
            config: self.config,
            alert: false,
        }
    }

    fn resume_from(self, elapsed: u64, now: u64) -> (r: PomoState)
        ensures
            r == self.with_mode(
                PomoStateMode::Running {
                    counter: Counter { accumulated: elapsed, resumed_at: Some(now) },
                },
            ),
    {
        let counter = Counter::from_elapsed(elapsed).start(now);
        PomoState { mode: PomoStateMode::Running { counter }, ..self }
    }

    /// Applies `command`, received at the clock reading `now`. Returns `None`
    /// when the command ends the program (quitting while the timer runs).
    pub fn handle_command(self, command: Command, now: u64) -> (r: Option<PomoState>)
        requires
            self.advances_on(command, now) ==> self.session.number < u32::MAX,
        ensures
            r == self.step(command, now),
            self.wf() && r is Some ==> r->Some_0.wf(),
    {
        match self.mode {
            PomoStateMode::Running { counter } => match command {
                Command::Quit => None,
                Command::Pause => Some(
                    PomoState { mode: PomoStateMode::Running { counter: counter.stop(now) }, ..self },
                ),
                Command::Resume => Some(
                    PomoState { mode: PomoStateMode::Running { counter: counter.start(now) }, ..self },
                ),
                Command::Toggle => Some(
                    PomoState { mode: PomoStateMode::Running { counter: counter.toggle(now) }, ..self },
                ),
                Command::Skip => {
                    let elapsed = counter.elapsed(now);
                    Some(PomoState { mode: PomoStateMode::Skip { elapsed }, ..self })
                },
                Command::Enter => {
                    if counter.elapsed(now) >= self.target() {
                        Some(self.advance(now))
                    } else {
                        Some(self)
                    }
                },
                _ => Some(self),
            },
            PomoStateMode::Skip { elapsed } => match command {
                Command::Quit | Command::No => Some(self.resume_from(elapsed, now)),
                Command::Yes | Command::Enter => Some(self.advance(now)),
                _ => Some(self),
            },
        }
    }

    /// Whether `command` at `now` would move on to the next phase.
    pub fn advances(&self, command: Command, now: u64) -> (r: bool)
        ensures
            r == self.advances_on(command, now),
    {
        match self.mode {
            PomoStateMode::Running { counter } => match command {
                Command::Enter => counter.elapsed(now) >= self.target(),
                _ => false,
            },
            PomoStateMode::Skip { .. } => match command {
                Command::Yes | Command::Enter => true,
                _ => false,
            },
        }
    }

    /// Time spent in the current phase as of `now`; frozen during a skip.
    pub fn elapsed(&self, now: u64) -> (r: u64)
        ensures
            r == self.elapsed_at(now),
    {
        match self.mode {
            PomoStateMode::Running { counter } => counter.elapsed(now),
            PomoStateMode::Skip { elapsed } => elapsed,
        }
    }

    /// Length of the current phase.
    pub fn target(&self) -> (r: u64)
        ensures
            r == self.target_spec(),
    {
        self.session.mode.current_target(&self.config)
    }

    /// Whether the alert for the current phase has been raised.
    pub fn alerted(&self) -> (r: bool)
        ensures
            r == self.alert,
    {
        self.alert
    }

    pub fn set_alert(&mut self, alert: bool)
        ensures
            *final(self) == (PomoState { alert, ..*old(self) }),
    {
        self.alert = alert;
    }

    /// Whether the phase has run past its target as of `now`.
    pub fn should_alert(&self, now: u64) -> (r: bool)
        ensures
            r == self.alert_due(now),
    {
        self.elapsed(now) > self.target()
    }

    /// Decides at a tick whether to raise the alert: only when the phase has
    /// run past its target and no alert has been raised for it yet. Records
    /// the alert, so that later ticks of the same phase stay quiet.
    pub fn check_alert(&mut self, now: u64) -> (fire: bool)
        ensures
            (fire, *final(self)) == old(self).tick_spec(now),
    {
        let fire = self.should_alert(now) && !self.alert;
        if fire {
            self.alert = true;
        }
        fire
    }

    /// Title and message of the alert raised when this phase runs out; they
    /// announce the phase that comes next.
    pub fn alert_message(&self) -> (r: (&'static str, &'static str))
        ensures
            r.0@ == alert_title_of(phase_of(self.session.number + 1)),
            r.1@ == alert_body_of(phase_of(self.session.number + 1)),
    {
        pomodoro_alert_message(self.session.next_mode())
    }
}

/// What the screen shows of a state: a read-only projection for the renderer.
#[derive(Clone, Copy, Debug, PartialEq, Eq)]
pub enum PomoView {
    /// A skip waits for confirmation.
    Skip { prompt: &'static str, next: PomodoroMode, round: u32, controls: &'static str },
    /// The phase runs and has `left` milliseconds to go.
    Counting {
        title: &'static str,
        left: u64,
        running: bool,
        controls: &'static str,
        round: u32,
    },
    /// The phase has run `excess` milliseconds past its target.
    Overrun {
        title: &'static str,
        excess: u64,
        running: bool,
        controls: &'static str,
        message: &'static str,
    },
}

impl PomoState {
    /// What is on screen for this state as of `now`: the skip question, the
    /// time left before the target, or the time run past it.
    pub fn view(&self, now: u64) -> (r: PomoView)
        ensures
            match self.mode {
                PomoStateMode::Skip { .. } => match r {
                    PomoView::Skip { prompt, next, round, controls } => {
                        &&& next == phase_of(self.session.number + 1)
                        &&& prompt@ == skip_prompt_of(next)
                        &&& round == self.session.number
                        &&& controls@ == SKIP_CONTROLS@
                    },
                    _ => false,
                },
                PomoStateMode::Running { counter } => if counter.elapsed_at(now) < self.target_spec() {
                    match r {
                        PomoView::Counting { title, left, running, controls, round } => {
                            &&& title@ == work_title_of(self.session.mode)
                            &&& left == self.target_spec() - counter.elapsed_at(now)
                            &&& running == counter.is_running()
                            &&& controls@ == CONTROLS@
                            &&& round == self.session.number
                        },
                        _ => false,
                    }
                } else {
                    match r {
                        PomoView::Overrun { title, excess, running, controls, message } => {
                            &&& title@ == break_title_of(phase_of(self.session.number + 1))
                            &&& excess == counter.elapsed_at(now) - self.target_spec()
                            &&& running == counter.is_running()
                            &&& controls@ == ENDING_CONTROLS@
                            &&& message@ == alert_body_of(phase_of(self.session.number + 1))
                        },
                        _ => false,
                    }
                },
            },
    {
        let target = self.target();
        match self.mode {
            PomoStateMode::Skip { .. } => {
                let next = self.session.next_mode();
                PomoView::Skip {
                    prompt: pomodoro_skip_prompt(next),
                    next,
                    round: self.session.number,
                    controls: SKIP_CONTROLS,
                }
            },
            PomoStateMode::Running { counter } => {
                let elapsed = counter.elapsed(now);
                if elapsed < target {
                    PomoView::Counting {
                        title: pomodoro_work_title(self.session.mode),
                        left: target.saturating_sub(elapsed),
                        running: counter.started(),
                        controls: CONTROLS,
                        round: self.session.number,
                    }
                } else {
                    let next = self.session.next_mode();
                    let (_, message) = pomodoro_alert_message(next);
                    PomoView::Overrun {
                        title: pomodoro_break_title(next),
                        excess: elapsed.saturating_sub(target),
                        running: counter.started(),
                        controls: ENDING_CONTROLS,
                        message,
                    }
                }
            },
        }
    }
}

/// Splits a span of milliseconds into whole hours, minutes and seconds, the
/// way a clock face shows it.
pub fn clock_parts(ms: u64) -> (r: (u64, u64, u64))
    ensures
        r.0 == ms / 3_600_000,
        r.1 == (ms / 60_000) % 60,
        r.2 == (ms / 1000) % 60,
{
    (ms / 3_600_000, (ms / 60_000) % 60, (ms / 1000) % 60)
}

/// The state reached from `s` by the commands `cmds`, all received at `now`;
/// `None` once one of them ends the program.
pub open spec fn run_commands(s: PomoState, cmds: Seq<Command>, now: u64) -> Option<PomoState>
    decreases cmds.len(),
{
    if cmds.len() == 0 {
        Some(s)
    } else {
        match run_commands(s, cmds.drop_last(), now) {
            Some(t) => t.step(cmds.last(), now),
            None => None,
        }
    }
}

/// Pausing, resuming and toggling with no time passing between them neither
/// loses nor double-counts time: the elapsed time stays what it was, and
/// nothing but the counter changes.
pub proof fn lemma_pause_resume_keep_elapsed(s: PomoState, cmds: Seq<Command>, now: u64)
    requires
        s.mode is Running,
        forall|i: int|
            0 <= i < cmds.len() ==> (#[trigger] cmds[i] == Command::Pause || cmds[i]
                == Command::Resume || cmds[i] == Command::Toggle),
    ensures
        run_commands(s, cmds, now) is Some,
        run_commands(s, cmds, now)->Some_0.mode is Running,
        run_commands(s, cmds, now)->Some_0.elapsed_at(now) == s.elapsed_at(now),
        run_commands(s, cmds, now)->Some_0.session == s.session,
        run_commands(s, cmds, now)->Some_0.config == s.config,
        run_commands(s, cmds, now)->Some_0.alert == s.alert,
    decreases cmds.len(),
{
    if cmds.len() > 0 {
        let init = cmds.drop_last();
        assert forall|i: int| 0 <= i < init.len() implies (#[trigger] init[i] == Command::Pause
            || init[i] == Command::Resume || init[i] == Command::Toggle) by {
            assert(init[i] == cmds[i]);
        }
        lemma_pause_resume_keep_elapsed(s, init, now);
        assert(cmds[cmds.len() - 1] == cmds.last());
    }
}

/// Skipping and then declining (with No or Quit) resumes counting from
/// exactly the time frozen when Skip was pressed, however long the question
/// stood; nothing else changes.
pub proof fn lemma_skip_then_decline(s: PomoState, skip_at: u64, answer: Command, answer_at: u64)
    requires
        s.mode is Running,
        answer == Command::No || answer == Command::Quit,
    ensures
        ({
            let asked = s.step(Command::Skip, skip_at)->Some_0;
            let resumed = asked.step(answer, answer_at)->Some_0;
            &&& s.step(Command::Skip, skip_at) is Some
            &&& asked.mode is Skip
            &&& forall|t: u64| #[trigger] asked.elapsed_at(t) == s.elapsed_at(skip_at)
            &&& asked.step(answer, answer_at) is Some
            &&& resumed.mode is Running
            &&& resumed.mode->counter.is_running()
            &&& resumed.elapsed_at(answer_at) == s.elapsed_at(skip_at)
            &&& resumed.session == s.session
            &&& resumed.config == s.config
            &&& resumed.alert == s.alert
        }),
{
}

/// Skipping and then confirming (with Yes or Enter) advances the session
/// exactly once, re-arms the alert and starts a fresh counter at zero.
pub proof fn lemma_skip_then_confirm(s: PomoState, skip_at: u64, answer: Command, answer_at: u64)
    requires
        s.mode is Running,
        s.session.number < u32::MAX,
        answer == Command::Yes || answer == Command::Enter,
    ensures
        ({
            let asked = s.step(Command::Skip, skip_at)->Some_0;
            let next = asked.step(answer, answer_at)->Some_0;
            &&& s.step(Command::Skip, skip_at) is Some
            &&& asked.step(answer, answer_at) is Some
            &&& next.session == s.session.next_spec()
            &&& next.session.number == s.session.number + 1
            &&& !next.alert
            &&& next.mode == fresh_running(answer_at)
            &&& next.elapsed_at(answer_at) == 0
            &&& next.config == s.config
        }),
{
}

/// The number of alerts raised by ticks at the readings `times`, in order.
pub open spec fn alerts_raised(s: PomoState, times: Seq<u64>) -> nat
    decreases times.len(),
{
    if times.len() == 0 {
        0
    } else {
        let (fire, t) = s.tick_spec(times[0]);
        (if fire { 1nat } else { 0nat }) + alerts_raised(t, times.drop_first())
    }
}

/// The state after ticks at the readings `times`, in order.
pub open spec fn after_ticks(s: PomoState, times: Seq<u64>) -> PomoState
    decreases times.len(),
{
    if times.len() == 0 {
        s
    } else {
        after_ticks(s.tick_spec(times[0]).1, times.drop_first())
    }
}

/// Ticks without a command in between raise the alert at most once, and
/// none at all once it has been raised for the phase.
pub proof fn lemma_alert_fires_once(s: PomoState, times: Seq<u64>)
    ensures
        alerts_raised(s, times) <= 1,
        s.alert ==> alerts_raised(s, times) == 0 && after_ticks(s, times) == s,
    decreases times.len(),
{
    if times.len() > 0 {
        let t = s.tick_spec(times[0]).1;
        lemma_alert_fires_once(t, times.drop_first());
    }
}

/// Advancing to the next phase, by Enter once the target is reached or by a
/// confirmed skip, re-arms the alert, and the new phase is not yet due.
pub proof fn lemma_advance_rearms_alert(s: PomoState, command: Command, now: u64)
    requires
        s.session.number < u32::MAX,
        s.advances_on(command, now),
    ensures
        s.step(command, now) == Some(s.advanced(now)),
        !s.advanced(now).alert,
        !s.advanced(now).alert_due(now),
        s.advanced(now).session == s.session.next_spec(),
{
}

/// Enter before the running phase has reached its target changes nothing.
pub proof fn lemma_early_enter_is_noop(s: PomoState, now: u64)
    requires
        s.mode is Running,
        s.elapsed_at(now) < s.target_spec(),
    ensures
        s.step(Command::Enter, now) == Some(s),
{
}

/// Heading shown while a phase of kind `mode` runs.
pub open spec fn work_title_of(mode: PomodoroMode) -> Seq<char> {
    match mode {
        PomodoroMode::Work => "Pomodoro (Work)"@,
        PomodoroMode::Break => "Pomodoro (Break)"@,
        PomodoroMode::LongBreak => "Pomodoro (Long Break)"@,
    }
}

/// Heading shown once a phase has run out, announcing the phase `next_mode`.
pub open spec fn break_title_of(next_mode: PomodoroMode) -> Seq<char> {
    match next_mode {
        PomodoroMode::Work => "Break has ended! Start work?"@,
        PomodoroMode::Break => "Work has ended! Start break?"@,
        PomodoroMode::LongBreak => "Work has ended! Start a long break"@,
    }
}

/// Question asked before skipping to a phase of kind `next_mode`.
pub open spec fn skip_prompt_of(next_mode: PomodoroMode) -> Seq<char> {
    match next_mode {
        PomodoroMode::Work => "skip to work?"@,
        PomodoroMode::Break => "skip to break?"@,
        PomodoroMode::LongBreak => "skip to long break?"@,
    }
}

pub open spec fn alert_title_of(next_mode: PomodoroMode) -> Seq<char> {
    match next_mode {
        PomodoroMode::Work => "Your break ended!"@,
        PomodoroMode::Break => "Pomodoro ended!"@,
        PomodoroMode::LongBreak => "Pomodoro 4 sessions complete!"@,
    }
}

pub open spec fn alert_body_of(next_mode: PomodoroMode) -> Seq<char> {
    match next_mode {
        PomodoroMode::Work => "Time for some work"@,
        PomodoroMode::Break => "Time for a short break"@,
        PomodoroMode::LongBreak => "Time for a long break"@,
    }
}

pub fn pomodoro_work_title(mode: PomodoroMode) -> (r: &'static str)
    ensures
        r@ == work_title_of(mode),
{
    match mode {
        PomodoroMode::Work => "Pomodoro (Work)",
        PomodoroMode::Break => "Pomodoro (Break)",
        PomodoroMode::LongBreak => "Pomodoro (Long Break)",
    }
}

pub fn pomodoro_break_title(next_mode: PomodoroMode) -> (r: &'static str)
    ensures
        r@ == break_title_of(next_mode),
{
    match next_mode {
        PomodoroMode::Work => "Break has ended! Start work?",
        PomodoroMode::Break => "Work has ended! Start break?",
        PomodoroMode::LongBreak => "Work has ended! Start a long break",
    }
}

pub fn pomodoro_skip_prompt(next_mode: PomodoroMode) -> (r: &'static str)
    ensures
        r@ == skip_prompt_of(next_mode),
{
    match next_mode {
        PomodoroMode::Work => "skip to work?",
        PomodoroMode::Break => "skip to break?",
        PomodoroMode::LongBreak => "skip to long break?",
    }
}

/// Title and message of the alert that announces the phase `next_mode`.
pub fn pomodoro_alert_message(next_mode: PomodoroMode) -> (r: (&'static str, &'static str))
    ensures
        r.0@ == alert_title_of(next_mode),
        r.1@ == alert_body_of(next_mode),
{
    match next_mode {
        PomodoroMode::Work => ("Your break ended!", "Time for some work"),
        PomodoroMode::Break => ("Pomodoro ended!", "Time for a short break"),
        PomodoroMode::LongBreak => ("Pomodoro 4 sessions complete!", "Time for a long break"),
    }
}

} // verus!
