//! The backup scheduler of one instance.
//!
//! The scheduler is a small machine that is fed one input at a time: an
//! instruction from its queue, a tick of its one-second timer, or the news
//! that the queue was closed. Each step says whether a backup is due.

use std::fmt::Write;
use vstd::prelude::*;
use vstd::string::*;
use crate::lifecycle::State;

verus! {

/// What the owner of an instance can ask of its scheduler.
#[derive(Debug, Clone, Copy, PartialEq, Eq, Structural)]
pub enum BackupInstruction {
    /// Back up every so many ticks, or never.
    SetPeriod(Option<u32>),
    /// Back up at once.
    BackupNow,
    /// Stop counting ticks.
    Pause,
    /// Count ticks again.
    Resume,
}

/// One input of the scheduler.
#[derive(Debug, Clone, Copy, PartialEq, Eq, Structural)]
pub enum SchedulerInput {
    /// The next instruction of the queue.
    Instruction(BackupInstruction),
    /// The timer fired; the instance is in the given state.
    Tick(State),
    /// The queue was closed: the instance is gone.
    Closed,
}

/// What the scheduler wants done after an input.
#[derive(Debug, Clone, Copy, PartialEq, Eq, Structural)]
pub enum BackupAction {
    /// Nothing.
    Idle,
    /// Copy the instance's data now.
    Backup,
    /// End the task.
    Exit,
}

/// The scheduler as a mathematical value.
pub struct SchedulerModel {
    /// The configured period in ticks.
    pub period: Option<u32>,
    /// Counted ticks since the last backup or since the period was set.
    pub elapsed: nat,
    /// Whether a pause is in force.
    pub paused: bool,
}

impl SchedulerModel {
    /// The counter stays under the period, and at zero where there is none.
    pub open spec fn wf(self) -> bool {
        match self.period {
            Some(p) => self.elapsed < p || self.elapsed == 0,
            None => self.elapsed == 0,
        }
    }

    /// Whether a tick in `state` is counted.
    pub open spec fn counts(self, state: State) -> bool {
        !self.paused && self.period is Some && state == State::Running
    }

    /// The scheduler after `input`.
    pub open spec fn next(self, input: SchedulerInput) -> SchedulerModel {
        match input {
            SchedulerInput::Instruction(BackupInstruction::SetPeriod(period)) => SchedulerModel {
                period,
                elapsed: 0,
                paused: self.paused,
            },
            SchedulerInput::Instruction(BackupInstruction::BackupNow) => SchedulerModel {
                elapsed: 0,
                ..self
            },
            SchedulerInput::Instruction(BackupInstruction::Pause) => SchedulerModel {
                paused: true,
                ..self
            },
            SchedulerInput::Instruction(BackupInstruction::Resume) => SchedulerModel {
                paused: false,
                ..self
            },
            SchedulerInput::Tick(state) => if self.counts(state) {
                if self.elapsed + 1 >= self.period->Some_0 {
                    SchedulerModel { elapsed: 0, ..self }
                } else {
                    SchedulerModel { elapsed: self.elapsed + 1, ..self }
                }
            } else {
                self
            },
            SchedulerInput::Closed => self,
        }
    }

    /// What `input` makes the scheduler ask for.
    pub open spec fn action(self, input: SchedulerInput) -> BackupAction {
        match input {
            SchedulerInput::Instruction(BackupInstruction::BackupNow) => BackupAction::Backup,
            SchedulerInput::Instruction(_) => BackupAction::Idle,
            SchedulerInput::Tick(state) => if self.counts(state) && self.elapsed + 1
                >= self.period->Some_0 {
                BackupAction::Backup
            } else {
                BackupAction::Idle
            },
            SchedulerInput::Closed => BackupAction::Exit,
        }
    }

    /// The scheduler after `n` ticks during which the instance is running.
    pub open spec fn after_running_ticks(self, n: nat) -> SchedulerModel
        decreases n,
    {
        if n == 0 {
            self
        } else {
            self.after_running_ticks((n - 1) as nat).next(SchedulerInput::Tick(State::Running))
        }
    }

    /// How many of `n` ticks, with the instance running, end in a backup.
    pub open spec fn backups_in_running_ticks(self, n: nat) -> nat
        decreases n,
    {
        if n == 0 {
            0
        } else {
            let before = self.after_running_ticks((n - 1) as nat);
            let fired = before.action(SchedulerInput::Tick(State::Running)) == BackupAction::Backup;
            self.backups_in_running_ticks((n - 1) as nat) + if fired { 1nat } else { 0nat }
        }
    }
}

/// The scheduler of one instance.
pub struct BackupScheduler {
    period: Option<u32>,
    elapsed: u32,
    paused: bool,
}

impl View for BackupScheduler {
    type V = SchedulerModel;

    closed spec fn view(&self) -> SchedulerModel {
        SchedulerModel { period: self.period, elapsed: self.elapsed as nat, paused: self.paused }
    }
}

impl BackupScheduler {
    #[verifier::type_invariant]
    spec fn inv(self) -> bool {
        self@.wf()
    }

    /// A scheduler with the given period that has counted nothing yet and
    /// is not paused.
    pub fn new(period: Option<u32>) -> (scheduler: BackupScheduler)
        ensures
            scheduler@ == (SchedulerModel { period, elapsed: 0, paused: false }),
            scheduler@.wf(),
    {
        BackupScheduler { period, elapsed: 0, paused: false }
    }

    /// The configured period.
    pub fn period(&self) -> (period: Option<u32>)
        ensures
            period == self@.period,
    {
        self.period
    }

    /// Whether a pause is in force.
    pub fn is_paused(&self) -> (paused: bool)
        ensures
            paused == self@.paused,
    {
        self.paused
    }

    /// Feeds one input to the scheduler and returns what is to be done.
    pub fn step(&mut self, input: SchedulerInput) -> (action: BackupAction)
        ensures
            final(self)@.wf(),
            final(self)@ == old(self)@.next(input),
            action == old(self)@.action(input),
    {
        proof {
            use_type_invariant(&*self);
        }
        match input {
            SchedulerInput::Instruction(BackupInstruction::SetPeriod(period)) => {
                self.elapsed = 0;
                self.period = period;
                BackupAction::Idle
            },
            SchedulerInput::Instruction(BackupInstruction::BackupNow) => {
                self.elapsed = 0;
                BackupAction::Backup
            },
            SchedulerInput::Instruction(BackupInstruction::Pause) => {
                self.paused = true;
                BackupAction::Idle
            },
            SchedulerInput::Instruction(BackupInstruction::Resume) => {
                self.paused = false;
                BackupAction::Idle
            },
            SchedulerInput::Tick(state) => {
                match self.period {
                    Some(period) => {
                        if !self.paused && state == State::Running {
                            if self.elapsed >= period || self.elapsed + 1 >= period {
                                self.elapsed = 0;
                                BackupAction::Backup
                            } else {
                                self.elapsed = self.elapsed + 1;
                                BackupAction::Idle
                            }
                        } else {
                            BackupAction::Idle
                        }
                    },
                    None => BackupAction::Idle,
                }
            },
            SchedulerInput::Closed => BackupAction::Exit,
        }
    }
}

/// An explicit request is always served: `BackupNow` asks for exactly one
/// backup whatever the period, the counter and the pause flag are, and
/// leaves period and pause as they were.
pub proof fn lemma_backup_now_fires(m: SchedulerModel)
    ensures
        m.action(SchedulerInput::Instruction(BackupInstruction::BackupNow)) == BackupAction::Backup,
        m.next(SchedulerInput::Instruction(BackupInstruction::BackupNow)).period == m.period,
        m.next(SchedulerInput::Instruction(BackupInstruction::BackupNow)).paused == m.paused,
{
}

/// While a pause is in force no tick leads to a backup, whatever state the
/// instance is in and however many ticks go by, and the scheduler does not
/// move.
pub proof fn lemma_paused_is_silent(m: SchedulerModel, state: State, n: nat)
    requires
        m.paused,
    ensures
        m.action(SchedulerInput::Tick(state)) == BackupAction::Idle,
        m.next(SchedulerInput::Tick(state)) == m,
        m.after_running_ticks(n) == m,
        m.backups_in_running_ticks(n) == 0,
    decreases n,
{
    if n > 0 {
        lemma_paused_is_silent(m, state, (n - 1) as nat);
    }
}

/// A pause is entered by `Pause` and left by the first `Resume`: pausing
/// twice is the same as pausing once.
pub proof fn lemma_pause_does_not_nest(m: SchedulerModel)
    ensures
        m.next(SchedulerInput::Instruction(BackupInstruction::Pause)).next(
            SchedulerInput::Instruction(BackupInstruction::Pause),
        ) == m.next(SchedulerInput::Instruction(BackupInstruction::Pause)),
        !m.next(SchedulerInput::Instruction(BackupInstruction::Pause)).next(
            SchedulerInput::Instruction(BackupInstruction::Pause),
        ).next(SchedulerInput::Instruction(BackupInstruction::Resume)).paused,
{
}

/// Without a period, or while the instance is not running, ticks are not
/// counted and lead to no backup.
pub proof fn lemma_uncounted_tick_is_silent(m: SchedulerModel, state: State)
    requires
        m.period is None || state != State::Running,
    ensures
        m.action(SchedulerInput::Tick(state)) == BackupAction::Idle,
        m.next(SchedulerInput::Tick(state)) == m,
{
}

/// Every step keeps the scheduler well formed.
pub proof fn lemma_next_keeps_wf(m: SchedulerModel, input: SchedulerInput)
    requires
        m.wf(),
    ensures
        m.next(input).wf(),
{
}

/// With a period of `p >= 1` ticks, no pause and the instance running
/// throughout, the backups that fall into `n` ticks are counted exactly:
/// the counter runs from its start value up to the period and over again.
pub proof fn lemma_running_ticks_count(m: SchedulerModel, n: nat)
    requires
        m.wf(),
        !m.paused,
        m.period is Some,
        m.period->Some_0 >= 1,
    ensures
        m.after_running_ticks(n).period == m.period,
        !m.after_running_ticks(n).paused,
        m.after_running_ticks(n).elapsed == (m.elapsed as int + n as int) % (m.period->Some_0 as int),
        m.backups_in_running_ticks(n) == (m.elapsed as int + n as int) / (m.period->Some_0 as int),
    decreases n,
{
    let p = m.period->Some_0 as int;
    let e = m.elapsed as int;
    if n == 0 {
        vstd::arithmetic::div_mod::lemma_fundamental_div_mod_converse(e, p, 0, e);
    } else {
        let k = (n - 1) as nat;
        lemma_running_ticks_count(m, k);
        let x = e + k;
        let q = x / p;
        let r = x % p;
        vstd::arithmetic::div_mod::lemma_fundamental_div_mod(x, p);
        vstd::arithmetic::div_mod::lemma_mod_bound(x, p);
        if r + 1 >= p {
            assert(x + 1 == (q + 1) * p + 0) by (nonlinear_arith)
                requires
                    x == p * q + r,
                    r + 1 == p,
            ;
            vstd::arithmetic::div_mod::lemma_fundamental_div_mod_converse(x + 1, p, q + 1, 0);
        } else {
            assert(x + 1 == q * p + (r + 1)) by (nonlinear_arith)
                requires
                    x == p * q + r,
            ;
            vstd::arithmetic::div_mod::lemma_fundamental_div_mod_converse(x + 1, p, q, r + 1);
        }
    }
}

/// With a period of `p >= 1` ticks, no pause and the instance running
/// throughout, every stretch of `p` ticks holds at least one backup, and no
/// stretch of `n` ticks holds more than `n`: a tick leads to one backup at
/// most.
pub proof fn lemma_backup_every_period(m: SchedulerModel, n: nat)
    requires
        m.wf(),
        !m.paused,
        m.period is Some,
        m.period->Some_0 >= 1,
    ensures
        m.backups_in_running_ticks(m.period->Some_0 as nat) >= 1,
        m.backups_in_running_ticks(n) <= n,
{
    let p = m.period->Some_0 as int;
    lemma_running_ticks_count(m, p as nat);
    vstd::arithmetic::div_mod::lemma_div_is_ordered(p, m.elapsed as int + p, p);
    vstd::arithmetic::div_mod::lemma_div_basics(p);
    lemma_at_most_one_backup_per_tick(m, n);
}

/// Whatever the scheduler holds, `n` ticks lead to `n` backups at most.
pub proof fn lemma_at_most_one_backup_per_tick(m: SchedulerModel, n: nat)
    ensures
        m.backups_in_running_ticks(n) <= n,
    decreases n,
{
    if n > 0 {
        lemma_at_most_one_backup_per_tick(m, (n - 1) as nat);
    }
}

/// A period of zero ticks means a backup on every counted tick.
pub proof fn lemma_zero_period_fires_each_tick(m: SchedulerModel)
    requires
        !m.paused,
        m.period == Some(0u32),
    ensures
        m.action(SchedulerInput::Tick(State::Running)) == BackupAction::Backup,
{
}

/// What the `chrono` crate renders for the UTC date and time of the
/// moment `timestamp` seconds after the epoch under the format `pattern`,
/// or `None` where its calendar does not reach the moment or it does not
/// accept the format.
pub uninterp spec fn formatted_time(timestamp: i64, pattern: Seq<char>) -> Option<Seq<char>>;

/// The format of the time in the name of a backup: year, month and day,
/// then hour, minute and second, as in `2023-01-31_17-05-09`.
pub open spec fn backup_time_pattern() -> Seq<char> {
    "%Y-%m-%d_%H-%M-%S"@
}

/// Calls `chrono::DateTime::from_timestamp` and renders the result with
/// `DateTime::format` under `pattern`.
///
/// Trusted: the text is a function of the timestamp and the pattern alone,
/// since the time is taken as UTC and no locale is consulted. Nothing is
/// claimed about the text itself.
#[verifier::external_body]
fn format_time(timestamp: i64, pattern: &str) -> (text: Option<String>)
    ensures
        match text {
            Some(t) => formatted_time(timestamp, pattern@) == Some(t@),
            None => formatted_time(timestamp, pattern@) is None,
        },
{
    let time = chrono::DateTime::from_timestamp(timestamp, 0)?;
    let mut text = String::new();
    match write!(text, "{}", time.format(pattern)) {
        Ok(_) => Some(text),
        Err(_) => None,
    }
}

/// The name of the backup that is taken at the time with the text
/// `time_text`: `backup-` and that text.
pub fn backup_name_from(time_text: &str) -> (name: String)
    ensures
        name@ == "backup-"@ + time_text@,
{
    let mut name = String::from_str("backup-");
    name.append(time_text);
    name
}

/// The name of the backup that is taken `timestamp` seconds after the
/// epoch, or `None` for a moment that has no date.
pub fn backup_name(timestamp: i64) -> (name: Option<String>)
    ensures
        match name {
            Some(n) => formatted_time(timestamp, backup_time_pattern()) is Some && n@ == "backup-"@ + formatted_time(
                timestamp,
                backup_time_pattern(),
            )->Some_0,
            None => formatted_time(timestamp, backup_time_pattern()) is None,
        },
{
    match format_time(timestamp, "%Y-%m-%d_%H-%M-%S") {
        Some(text) => Some(backup_name_from(text.as_str())),
        None => None,
    }
}

/// Where a backup with the given name is put, relative to the directory
/// of the instance.
pub fn backup_destination(name: &str) -> (path: String)
    ensures
        path@ == "resources/worlds/backup/"@ + name@,
{
    let mut path = String::from_str("resources/worlds/backup/");
    path.append(name);
    path
}

} // verus!
