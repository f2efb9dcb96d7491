//! The lifecycle manager of one instance.
//!
//! The manager owns the durable record of the instance, its lifecycle
//! state and the state of its command channel. It decides; the caller
//! acts. Every operation answers with what is to be done to the process
//! and with the events to publish, and is told of what came of it by the
//! next call.

use vstd::prelude::*;
use vstd::string::*;
use crate::backup::BackupInstruction;
use crate::config::{RestoreConfig, RestoreConfigView};
use crate::error::{Error, ErrorInner, ErrorView};
use crate::events::{event_views, Event, EventView};
use crate::identity::InstanceUuid;
use crate::info::{projection, InstanceInfo, InstanceInfoView};
use crate::lifecycle::{initial_state, next_state, refusal, transition, LifecycleEvent, State};
use crate::port::PortManager;
use crate::provision::{ProvisionStep, Provisioning};
use crate::text::{append_decimal, clone_strings, decimal, texts};

verus! {

/// The longest name that an instance can have, in characters.
pub const MAX_NAME_LEN: usize = 100;

/// How long a graceful stop waits for the process before it is killed, in
/// seconds.
pub const GRACEFUL_STOP_TIMEOUT_SECS: u64 = 30;

/// The state of the command channel of an instance.
#[derive(Debug, Clone, Copy, PartialEq, Eq, Structural)]
pub enum ChannelState {
    /// There is nothing to connect to: the process is not running, or it
    /// offers no command endpoint.
    Closed,
    /// The endpoint is there and the next command connects to it.
    Ready,
    /// The connection stands.
    Connected,
}

/// What is to be done to the process of an instance.
#[derive(Debug, Clone, Copy, PartialEq, Eq, Structural)]
pub enum LifecycleAction {
    /// Nothing.
    Nothing,
    /// Persist the record, then launch the process in the instance's
    /// directory with its input and output captured.
    Launch,
    /// Send the shutdown command and wait for the process to end.
    StopGracefully,
    /// Terminate the process at once.
    Kill,
    /// Start the instance again, as its restart policy asks.
    Relaunch,
}

/// What the process of an instance reports.
#[derive(Debug, Clone, Copy, PartialEq, Eq, Structural)]
pub enum ProcessEvent {
    /// The launched process is up; `endpoint` says whether it offers a
    /// command endpoint.
    Healthy { endpoint: bool },
    /// The launch did not produce a running process.
    StartFailed,
    /// The process ended after a stop was requested.
    Exited,
    /// The process ended although nobody asked it to.
    Crashed,
}

impl ProcessEvent {
    /// The event of the state machine that the report stands for.
    pub open spec fn lifecycle_event(self) -> LifecycleEvent {
        match self {
            ProcessEvent::Healthy { .. } => LifecycleEvent::ProcessHealthy,
            ProcessEvent::StartFailed => LifecycleEvent::StartFailed,
            ProcessEvent::Exited => LifecycleEvent::ProcessExited,
            ProcessEvent::Crashed => LifecycleEvent::CrashDetected,
        }
    }
}

/// The answer to a lifecycle operation.
#[derive(Debug)]
pub struct Transition {
    pub action: LifecycleAction,
    pub events: Vec<Event>,
}

/// A command that is cleared to go out over the command channel.
#[derive(Debug)]
pub struct CommandRequest {
    /// Whether the connection has to be made before the command is sent.
    pub connect_first: bool,
    /// The text to send.
    pub command: String,
}

/// One change to the settings of an instance.
#[derive(Debug)]
pub enum SettingChange {
    Name(String),
    Description(String),
    Port(u32),
    MinRam(u32),
    MaxRam(u32),
    AutoStart(bool),
    RestartOnCrash(bool),
    BackupPeriod(Option<u32>),
    CmdArgs(Vec<String>),
}

/// A change as a mathematical value.
pub enum SettingChangeView {
    Name(Seq<char>),
    Description(Seq<char>),
    Port(u32),
    MinRam(u32),
    MaxRam(u32),
    AutoStart(bool),
    RestartOnCrash(bool),
    BackupPeriod(Option<u32>),
    CmdArgs(Seq<Seq<char>>),
}

impl View for SettingChange {
    type V = SettingChangeView;

    open spec fn view(&self) -> SettingChangeView {
        match *self {
            SettingChange::Name(name) => SettingChangeView::Name(name@),
            SettingChange::Description(text) => SettingChangeView::Description(text@),
            SettingChange::Port(port) => SettingChangeView::Port(port),
            SettingChange::MinRam(ram) => SettingChangeView::MinRam(ram),
            SettingChange::MaxRam(ram) => SettingChangeView::MaxRam(ram),
            SettingChange::AutoStart(on) => SettingChangeView::AutoStart(on),
            SettingChange::RestartOnCrash(on) => SettingChangeView::RestartOnCrash(on),
            SettingChange::BackupPeriod(period) => SettingChangeView::BackupPeriod(period),
            SettingChange::CmdArgs(args) => SettingChangeView::CmdArgs(texts(args@)),
        }
    }
}

/// The changes of `changes` as mathematical values, in order.
pub open spec fn change_views(changes: Seq<SettingChange>) -> Seq<SettingChangeView> {
    Seq::new(changes.len(), |i: int| changes[i]@)
}

impl SettingChangeView {
    /// The name of the field that the change is about.
    pub open spec fn field(self) -> Seq<char> {
        match self {
            SettingChangeView::Name(_) => "name"@,
            SettingChangeView::Description(_) => "description"@,
            SettingChangeView::Port(_) => "port"@,
            SettingChangeView::MinRam(_) => "min_ram"@,
            SettingChangeView::MaxRam(_) => "max_ram"@,
            SettingChangeView::AutoStart(_) => "auto_start"@,
            SettingChangeView::RestartOnCrash(_) => "restart_on_crash"@,
            SettingChangeView::BackupPeriod(_) => "backup_period"@,
            SettingChangeView::CmdArgs(_) => "cmd_args"@,
        }
    }

    /// Whether the change can be made to an instance that holds the port
    /// `own_port` while the ports of `taken` are claimed.
    ///
    /// A name has one to a hundred characters. A port is the instance's own
    /// or one that nobody has claimed. Every other change is valid.
    pub open spec fn is_valid(self, own_port: u32, taken: Set<u32>) -> bool {
        match self {
            SettingChangeView::Name(name) => 1 <= name.len() <= MAX_NAME_LEN,
            SettingChangeView::Port(port) => port == own_port || !taken.contains(port),
            _ => true,
        }
    }

    /// The error with which the change is turned down.
    pub open spec fn rejection(self) -> ErrorView {
        ErrorView {
            inner: if self is Port {
                ErrorInner::PortInUse
            } else {
                ErrorInner::MalformedRequest
            },
            detail: self.field(),
        }
    }

    /// The record after the change.
    pub open spec fn apply(self, config: RestoreConfigView) -> RestoreConfigView {
        match self {
            SettingChangeView::Name(name) => RestoreConfigView { name, ..config },
            SettingChangeView::Description(description) => RestoreConfigView { description, ..config },
            SettingChangeView::Port(port) => RestoreConfigView { port, ..config },
            SettingChangeView::MinRam(min_ram) => RestoreConfigView { min_ram, ..config },
            SettingChangeView::MaxRam(max_ram) => RestoreConfigView { max_ram, ..config },
            SettingChangeView::AutoStart(auto_start) => RestoreConfigView { auto_start, ..config },
            SettingChangeView::RestartOnCrash(restart_on_crash) => RestoreConfigView { restart_on_crash, ..config },
            SettingChangeView::BackupPeriod(backup_period) => RestoreConfigView { backup_period, ..config },
            SettingChangeView::CmdArgs(cmd_args) => RestoreConfigView { cmd_args, ..config },
        }
    }
}

/// Whether every change of `changes` is valid.
pub open spec fn all_valid(changes: Seq<SettingChangeView>, own_port: u32, taken: Set<u32>) -> bool {
    forall|i: int| 0 <= i < changes.len() ==> (#[trigger] changes[i]).is_valid(own_port, taken)
}

/// Whether `k` is the position of the first change that is not valid.
pub open spec fn is_first_invalid(changes: Seq<SettingChangeView>, own_port: u32, taken: Set<u32>, k: int) -> bool {
    &&& 0 <= k < changes.len()
    &&& !changes[k].is_valid(own_port, taken)
    &&& forall|i: int| 0 <= i < k ==> (#[trigger] changes[i]).is_valid(own_port, taken)
}

/// The record after the changes of `changes`, made in order.
pub open spec fn apply_changes(config: RestoreConfigView, changes: Seq<SettingChangeView>) -> RestoreConfigView
    decreases changes.len(),
{
    if changes.len() == 0 {
        config
    } else {
        changes.last().apply(apply_changes(config, changes.drop_last()))
    }
}

/// The instructions that the changes of `changes` mean for the backup
/// scheduler: the new period for each change of the period, in order.
pub open spec fn backup_instructions(changes: Seq<SettingChangeView>) -> Seq<BackupInstruction>
    decreases changes.len(),
{
    if changes.len() == 0 {
        Seq::empty()
    } else {
        let before = backup_instructions(changes.drop_last());
        match changes.last() {
            SettingChangeView::BackupPeriod(period) => before.push(BackupInstruction::SetPeriod(period)),
            _ => before,
        }
    }
}

/// The arguments that the runtime is started with: the memory ceiling and
/// floor in megabytes, the arguments of the record, and the server binary
/// without its graphical console.
pub open spec fn launch_argument_texts(config: RestoreConfigView) -> Seq<Seq<char>> {
    seq!["-Xmx"@ + decimal(config.max_ram as nat) + "M"@, "-Xms"@ + decimal(config.min_ram as nat) + "M"@]
        + config.cmd_args + seq!["-jar"@, "server.jar"@, "nogui"@]
}

/// The command that asks a server to shut down.
pub fn shutdown_command() -> (command: &'static str)
    ensures
        command@ == "stop"@,
{
    "stop"
}

/// Whether the machine can get from `from` to `to` in no step or in one:
/// the states are the same, or an edge leads from the one to the other.
pub open spec fn along_edge(from: State, to: State) -> bool {
    from == to || exists|event: LifecycleEvent| crate::lifecycle::edge(from, event) == Some(to)
}

/// The error for the deletion of an instance that is not stopped.
pub open spec fn must_be_stopped_error() -> ErrorView {
    ErrorView { inner: ErrorInner::InvalidInstanceState, detail: "Instance must be stopped before deletion"@ }
}

/// The error for what an instance cannot do while it is being deleted.
pub open spec fn being_deleted_error() -> ErrorView {
    ErrorView { inner: ErrorInner::InvalidInstanceState, detail: "Instance is being deleted"@ }
}

/// The error for a report on a deletion that was not asked for.
pub open spec fn no_deletion_error() -> ErrorView {
    ErrorView { inner: ErrorInner::InvalidInstanceState, detail: "No deletion of the instance is under way"@ }
}

/// The error for a command that finds the channel closed.
pub open spec fn channel_closed_error() -> ErrorView {
    ErrorView {
        inner: ErrorInner::RconNotOpen,
        detail: "Failed to send rcon command, rcon connection is not initialized"@,
    }
}

/// The error for a start that finds the runtime or the server binary
/// missing.
pub open spec fn launch_error() -> ErrorView {
    ErrorView { inner: ErrorInner::FailedToExecute, detail: "The runtime or the server binary is missing"@ }
}

/// The error for a manager that is asked for before its instance is
/// provisioned.
pub open spec fn not_provisioned_error() -> ErrorView {
    ErrorView { inner: ErrorInner::InvalidInstanceState, detail: "The instance is not provisioned"@ }
}

/// A manager as a mathematical value.
pub struct MinecraftInstanceView {
    pub config: RestoreConfigView,
    pub state: State,
    pub channel: ChannelState,
    pub player_count: Option<u32>,
    pub max_player_count: Option<u32>,
    /// Whether the deletion of the instance was asked for and is under
    /// way.
    pub deleting: bool,
}

impl MinecraftInstanceView {
    /// The manager of an instance that was just restored from its record:
    /// stopped, with a closed channel and unknown player counts.
    pub open spec fn restored(config: RestoreConfigView) -> MinecraftInstanceView {
        MinecraftInstanceView {
            config,
            state: initial_state(),
            channel: ChannelState::Closed,
            player_count: None,
            max_player_count: None,
            deleting: false,
        }
    }

    /// The projection of the instance.
    pub open spec fn info(self) -> InstanceInfoView {
        projection(self.config, self.state, self.player_count, self.max_player_count)
    }

    /// The event that reports that the instance entered `to`.
    pub open spec fn entered(self, to: State) -> EventView {
        EventView::state_transition(self.config.uuid, self.config.name, to)
    }

    /// The events of a move from the current state to `to`: one if the
    /// state changes, none if it does not.
    pub open spec fn move_events(self, to: State) -> Seq<EventView> {
        if to == self.state {
            Seq::empty()
        } else {
            seq![self.entered(to)]
        }
    }

    /// Whether a start is answered by a launch.
    pub open spec fn launches(self, runtime_found: bool, binary_found: bool) -> bool {
        self.state == State::Stopped && !self.deleting && runtime_found && binary_found
    }

    /// The error of a start, if it is refused: by the state machine, for
    /// an instance that is being deleted, or for want of the runtime or
    /// the server binary.
    pub open spec fn start_error(self, runtime_found: bool, binary_found: bool) -> Option<ErrorView> {
        if next_state(self.state, LifecycleEvent::StartRequested) is None {
            Some(refusal())
        } else if self.state == State::Stopped && self.deleting {
            Some(being_deleted_error())
        } else if self.state == State::Stopped && !(runtime_found && binary_found) {
            Some(launch_error())
        } else {
            None
        }
    }

    /// What the end of the process means: the exit that a stop was
    /// waiting for if the instance is stopping, and a crash otherwise.
    pub open spec fn ended_report(self) -> ProcessEvent {
        if self.state == State::Stopping {
            ProcessEvent::Exited
        } else {
            ProcessEvent::Crashed
        }
    }

    /// The error with which the deletion of the instance is refused: the
    /// instance has to be stopped, and not in the course of being deleted
    /// already.
    pub open spec fn deletion_error(self) -> Option<ErrorView> {
        if self.state != State::Stopped {
            Some(must_be_stopped_error())
        } else if self.deleting {
            Some(being_deleted_error())
        } else {
            None
        }
    }

    /// What holds of every manager: only a stopped instance is in the
    /// course of being deleted.
    pub open spec fn wf(self) -> bool {
        self.deleting ==> self.state == State::Stopped
    }

    /// The manager after a start.
    pub open spec fn after_start(self, runtime_found: bool, binary_found: bool) -> MinecraftInstanceView {
        if self.launches(runtime_found, binary_found) {
            MinecraftInstanceView {
                state: State::Starting,
                config: RestoreConfigView { has_started: true, ..self.config },
                ..self
            }
        } else {
            self
        }
    }

    /// The manager after a stop.
    pub open spec fn after_stop(self) -> MinecraftInstanceView {
        match next_state(self.state, LifecycleEvent::StopRequested) {
            Some(state) => MinecraftInstanceView { state, ..self },
            None => self,
        }
    }

    /// What a stop asks for.
    pub open spec fn stop_action(self, graceful: bool) -> LifecycleAction {
        if self.state != State::Running {
            LifecycleAction::Nothing
        } else if graceful {
            LifecycleAction::StopGracefully
        } else {
            LifecycleAction::Kill
        }
    }

    /// The manager after a report of the process.
    pub open spec fn after_report(self, report: ProcessEvent) -> MinecraftInstanceView {
        match next_state(self.state, report.lifecycle_event()) {
            Some(state) => MinecraftInstanceView {
                state,
                channel: match report {
                    ProcessEvent::Healthy { endpoint } => if endpoint {
                        ChannelState::Ready
                    } else {
                        ChannelState::Closed
                    },
                    _ => ChannelState::Closed,
                },
                ..self
            },
            None => self,
        }
    }

    /// What a report of the process asks for: a new start after a crash of
    /// an instance that is to be restarted, and nothing otherwise.
    pub open spec fn report_action(self, report: ProcessEvent) -> LifecycleAction {
        if report == ProcessEvent::Crashed && self.state != State::Stopped && self.config.restart_on_crash {
            LifecycleAction::Relaunch
        } else {
            LifecycleAction::Nothing
        }
    }

    /// The manager after a command came back, with a reply or without.
    pub open spec fn after_command(self, delivered: bool) -> MinecraftInstanceView {
        MinecraftInstanceView {
            channel: if self.channel == ChannelState::Closed {
                ChannelState::Closed
            } else if delivered {
                ChannelState::Connected
            } else {
                ChannelState::Ready
            },
            ..self
        }
    }

    /// Whether `result` is the answer to a start.
    pub open spec fn start_answer(
        self,
        runtime_found: bool,
        binary_found: bool,
        result: Result<Transition, Error>,
    ) -> bool {
        match result {
            Ok(t) => {
                &&& self.start_error(runtime_found, binary_found) is None
                &&& t.action == if self.launches(runtime_found, binary_found) {
                    LifecycleAction::Launch
                } else {
                    LifecycleAction::Nothing
                }
                &&& event_views(t.events@) == self.move_events(self.after_start(runtime_found, binary_found).state)
            },
            Err(e) => self.start_error(runtime_found, binary_found) == Some(e@),
        }
    }

    /// Whether `result` is the answer to a stop.
    pub open spec fn stop_answer(self, graceful: bool, result: Result<Transition, Error>) -> bool {
        match result {
            Ok(t) => {
                &&& next_state(self.state, LifecycleEvent::StopRequested) is Some
                &&& t.action == self.stop_action(graceful)
                &&& event_views(t.events@) == self.move_events(self.after_stop().state)
            },
            Err(e) => next_state(self.state, LifecycleEvent::StopRequested) is None && e@ == refusal(),
        }
    }

    /// Whether `result` is the answer to a report of the process.
    pub open spec fn report_answer(self, report: ProcessEvent, result: Result<Transition, Error>) -> bool {
        match result {
            Ok(t) => {
                &&& next_state(self.state, report.lifecycle_event()) is Some
                &&& t.action == self.report_action(report)
                &&& event_views(t.events@) == self.move_events(self.after_report(report).state)
            },
            Err(e) => next_state(self.state, report.lifecycle_event()) is None && e@ == refusal(),
        }
    }

    /// Whether `result` is the answer to the command `cmd`.
    pub open spec fn command_answer(self, cmd: Seq<char>, result: Result<CommandRequest, Error>) -> bool {
        match result {
            Ok(request) => {
                &&& self.channel != ChannelState::Closed
                &&& request.connect_first == (self.channel == ChannelState::Ready)
                &&& request.command@ == cmd
            },
            Err(e) => self.channel == ChannelState::Closed && e@ == channel_closed_error(),
        }
    }

    /// The manager after a request for the changes of `changes`, while the
    /// ports of `taken` are claimed: all of them are made, or none is.
    pub open spec fn after_settings(self, changes: Seq<SettingChangeView>, taken: Set<u32>) -> MinecraftInstanceView {
        if all_valid(changes, self.config.port, taken) {
            MinecraftInstanceView { config: apply_changes(self.config, changes), ..self }
        } else {
            self
        }
    }

    /// Whether `result` is the answer to a request for the changes of
    /// `changes`.
    pub open spec fn settings_answer(
        self,
        changes: Seq<SettingChangeView>,
        taken: Set<u32>,
        result: Result<Vec<BackupInstruction>, Error>,
    ) -> bool {
        match result {
            Ok(instructions) => {
                &&& all_valid(changes, self.config.port, taken)
                &&& instructions@ == backup_instructions(changes)
            },
            Err(e) => exists|k: int|
                #[trigger] is_first_invalid(changes, self.config.port, taken, k) && e@ == changes[k].rejection(),
        }
    }
}

/// The lifecycle manager of one instance.
#[derive(Debug)]
pub struct MinecraftInstance {
    config: RestoreConfig,
    state: State,
    channel: ChannelState,
    player_count: Option<u32>,
    max_player_count: Option<u32>,
    deleting: bool,
}

impl View for MinecraftInstance {
    type V = MinecraftInstanceView;

    closed spec fn view(&self) -> MinecraftInstanceView {
        MinecraftInstanceView {
            config: self.config@,
            state: self.state,
            channel: self.channel,
            player_count: self.player_count,
            max_player_count: self.max_player_count,
            deleting: self.deleting,
        }
    }
}

fn no_events() -> (events: Vec<Event>)
    ensures
        event_views(events@) == Seq::<EventView>::empty(),
{
    let events: Vec<Event> = Vec::new();
    events
}

impl MinecraftInstance {
    /// The manager of the instance that `run` has provisioned.
    ///
    /// A manager is made only of a run that is done, that is after the
    /// configuration file was written; it starts out as `restore` makes it.
    pub fn new(run: &Provisioning) -> (result: Result<MinecraftInstance, Error>)
        ensures
            match result {
                Ok(instance) => run@.step == ProvisionStep::Done && instance@ == MinecraftInstanceView::restored(
                    run@.restore_config(),
                ),
                Err(e) => run@.step != ProvisionStep::Done && e@ == not_provisioned_error(),
            },
    {
        match run.step() {
            ProvisionStep::Done => Ok(MinecraftInstance::restore(run.restore_config())),
            _ => Err(Error::new(ErrorInner::InvalidInstanceState, "The instance is not provisioned")),
        }
    }

    /// The manager of the instance with the record `config`, as it is
    /// when the host starts: stopped, with a closed command channel.
    pub fn restore(config: RestoreConfig) -> (instance: MinecraftInstance)
        ensures
            instance@ == MinecraftInstanceView::restored(config@),
    {
        MinecraftInstance {
            config,
            state: State::Stopped,
            channel: ChannelState::Closed,
            player_count: None,
            max_player_count: None,
            deleting: false,
        }
    }

    /// The durable record of the instance.
    pub fn config(&self) -> (config: &RestoreConfig)
        ensures
            config@ == self@.config,
    {
        &self.config
    }

    /// The state of the command channel.
    pub fn channel(&self) -> (channel: ChannelState)
        ensures
            channel == self@.channel,
    {
        self.channel
    }

    /// The arguments that the runtime of the instance is started with, in
    /// the directory of the instance.
    pub fn launch_arguments(&self) -> (arguments: Vec<String>)
        ensures
            texts(arguments@) == launch_argument_texts(self@.config),
    {
        let mut arguments: Vec<String> = Vec::new();
        let mut ceiling = String::from_str("-Xmx");
        append_decimal(&mut ceiling, self.config.max_ram as u64);
        ceiling.append("M");
        arguments.push(ceiling);
        let mut floor = String::from_str("-Xms");
        append_decimal(&mut floor, self.config.min_ram as u64);
        floor.append("M");
        arguments.push(floor);
        let mut i: usize = 0;
        while i < self.config.cmd_args.len()
            invariant
                i <= self.config.cmd_args.len(),
                arguments.len() == 2 + i,
                arguments@[0]@ == "-Xmx"@ + decimal(self.config.max_ram as nat) + "M"@,
                arguments@[1]@ == "-Xms"@ + decimal(self.config.min_ram as nat) + "M"@,
                forall|j: int| 0 <= j < i ==> arguments@[2 + j]@ == self.config.cmd_args@[j]@,
            decreases self.config.cmd_args.len() - i,
        {
            arguments.push(self.config.cmd_args[i].clone());
            i = i + 1;
        }
        arguments.push(String::from_str("-jar"));
        arguments.push(String::from_str("server.jar"));
        arguments.push(String::from_str("nogui"));
        arguments
    }

    /// The scheduler input of a timer tick: the tick with the state that
    /// the instance is in.
    pub fn tick(&self) -> (input: crate::backup::SchedulerInput)
        ensures
            input == crate::backup::SchedulerInput::Tick(self@.state),
    {
        crate::backup::SchedulerInput::Tick(self.state)
    }

    fn entered(&self, to: State) -> (events: Vec<Event>)
        ensures
            event_views(events@) == seq![self@.entered(to)],
    {
        let mut events: Vec<Event> = Vec::new();
        events.push(Event::state_transition(self.config.uuid.clone(), self.config.name.clone(), to));
        events
    }

    /// Asks for the instance to be started.
    ///
    /// `runtime_found` and `binary_found` say whether the runtime and the
    /// server binary are where the record expects them. A stopped instance
    /// with both in place becomes `Starting` and is to be launched; it is
    /// marked as having started. Starting an instance that is starting or
    /// running changes nothing. A stopping instance refuses, and so does a
    /// stopped one whose runtime or binary is missing; both stay as they
    /// are.
    pub fn start(&mut self, runtime_found: bool, binary_found: bool) -> (result: Result<Transition, Error>)
        ensures
            final(self)@ == old(self)@.after_start(runtime_found, binary_found),
            old(self)@.start_answer(runtime_found, binary_found, result),
    {
        match transition(self.state, LifecycleEvent::StartRequested) {
            Err(e) => Err(e),
            Ok(next) => {
                match self.state {
                    State::Stopped => {
                        if self.deleting {
                            Err(Error::new(ErrorInner::InvalidInstanceState, "Instance is being deleted"))
                        } else if runtime_found && binary_found {
                            let events = self.entered(State::Starting);
                            self.state = next;
                            self.config.has_started = true;
                            Ok(Transition { action: LifecycleAction::Launch, events })
                        } else {
                            Err(Error::new(ErrorInner::FailedToExecute, "The runtime or the server binary is missing"))
                        }
                    },
                    _ => Ok(Transition { action: LifecycleAction::Nothing, events: no_events() }),
                }
            },
        }
    }

    /// Asks for the instance to be stopped.
    ///
    /// A running instance becomes `Stopping`; its process is sent the
    /// shutdown command if `graceful` is set and is terminated at once if
    /// not. Stopping a stopped instance changes nothing. An instance that
    /// is starting or stopping refuses and stays as it is.
    pub fn stop(&mut self, graceful: bool) -> (result: Result<Transition, Error>)
        ensures
            final(self)@ == old(self)@.after_stop(),
            old(self)@.stop_answer(graceful, result),
    {
        match transition(self.state, LifecycleEvent::StopRequested) {
            Err(e) => Err(e),
            Ok(next) => {
                match self.state {
                    State::Running => {
                        let events = self.entered(next);
                        self.state = next;
                        let action = if graceful {
                            LifecycleAction::StopGracefully
                        } else {
                            LifecycleAction::Kill
                        };
                        Ok(Transition { action, events })
                    },
                    _ => Ok(Transition { action: LifecycleAction::Nothing, events: no_events() }),
                }
            },
        }
    }

    /// What to do when a graceful stop has waited for its full timeout:
    /// terminate the process if the instance is still stopping.
    pub fn stop_timed_out(&self) -> (action: LifecycleAction)
        ensures
            action == if self@.state == State::Stopping {
                LifecycleAction::Kill
            } else {
                LifecycleAction::Nothing
            },
    {
        match self.state {
            State::Stopping => LifecycleAction::Kill,
            _ => LifecycleAction::Nothing,
        }
    }

    /// Takes a report of the process.
    ///
    /// The state follows the edge of the state machine that the report
    /// stands for; a report that no edge accepts is refused and changes
    /// nothing. The command channel is ready once a healthy process offers
    /// an endpoint, and closed after any other report. A crash of an
    /// instance that is to restart on crashes asks for a new start.
    pub fn report(&mut self, report: ProcessEvent) -> (result: Result<Transition, Error>)
        ensures
            final(self)@ == old(self)@.after_report(report),
            old(self)@.report_answer(report, result),
    {
        let event = match report {
            ProcessEvent::Healthy { .. } => LifecycleEvent::ProcessHealthy,
            ProcessEvent::StartFailed => LifecycleEvent::StartFailed,
            ProcessEvent::Exited => LifecycleEvent::ProcessExited,
            ProcessEvent::Crashed => LifecycleEvent::CrashDetected,
        };
        match transition(self.state, event) {
            Err(e) => Err(e),
            Ok(next) => {
                let was_stopped = match self.state {
                    State::Stopped => true,
                    _ => false,
                };
                let events = if next == self.state {
                    no_events()
                } else {
                    self.entered(next)
                };
                let action = match report {
                    ProcessEvent::Crashed => if !was_stopped && self.config.restart_on_crash {
                        LifecycleAction::Relaunch
                    } else {
                        LifecycleAction::Nothing
                    },
                    _ => LifecycleAction::Nothing,
                };
                self.channel = match report {
                    ProcessEvent::Healthy { endpoint } => if endpoint {
                        ChannelState::Ready
                    } else {
                        ChannelState::Closed
                    },
                    _ => ChannelState::Closed,
                };
                self.state = next;
                Ok(Transition { action, events })
            },
        }
    }

    /// Takes the news that the process has ended, and decides what it
    /// means: the exit that a stop was waiting for if the instance is
    /// stopping, and a crash in every other state. The answer is that of
    /// `report` for the one or the other; it is never a refusal.
    pub fn process_ended(&mut self) -> (result: Result<Transition, Error>)
        ensures
            final(self)@ == old(self)@.after_report(old(self)@.ended_report()),
            old(self)@.report_answer(old(self)@.ended_report(), result),
            result is Ok,
    {
        match self.state {
            State::Stopping => self.report(ProcessEvent::Exited),
            _ => self.report(ProcessEvent::Crashed),
        }
    }

    /// Whether the deletion of the instance is under way.
    pub fn is_deleting(&self) -> (deleting: bool)
        ensures
            deleting == self@.deleting,
    {
        self.deleting
    }

    /// Marks the instance as being deleted. Only a stopped instance that
    /// is not being deleted already can be marked; from then on it refuses
    /// to start. An instance that cannot be marked stays as it is.
    pub fn begin_deletion(&mut self) -> (result: Result<(), Error>)
        ensures
            match result {
                Ok(_) => old(self)@.deletion_error() is None && final(self)@ == (MinecraftInstanceView {
                    deleting: true,
                    ..old(self)@
                }),
                Err(e) => old(self)@.deletion_error() == Some(e@) && final(self)@ == old(self)@,
            },
    {
        match self.state {
            State::Stopped => {
                if self.deleting {
                    Err(Error::new(ErrorInner::InvalidInstanceState, "Instance is being deleted"))
                } else {
                    self.deleting = true;
                    Ok(())
                }
            },
            _ => Err(Error::new(ErrorInner::InvalidInstanceState, "Instance must be stopped before deletion")),
        }
    }

    /// Takes the mark of a deletion off again: the deletion was given up.
    pub fn cancel_deletion(&mut self)
        ensures
            final(self)@ == (MinecraftInstanceView { deleting: false, ..old(self)@ }),
    {
        self.deleting = false;
    }

    /// Clears a command for the command channel.
    ///
    /// The command goes out if the channel is ready or connected, after the
    /// connection is made where it does not stand yet. With a closed
    /// channel the command fails at once. The manager itself does not
    /// change: what came of the command is told by `command_finished`.
    pub fn send_rcon(&self, cmd: &str) -> (result: Result<CommandRequest, Error>)
        ensures
            self@.command_answer(cmd@, result),
    {
        match self.channel {
            ChannelState::Closed => Err(
                Error::new(
                    ErrorInner::RconNotOpen,
                    "Failed to send rcon command, rcon connection is not initialized",
                ),
            ),
            ChannelState::Ready => Ok(CommandRequest { connect_first: true, command: String::from_str(cmd) }),
            ChannelState::Connected => Ok(CommandRequest { connect_first: false, command: String::from_str(cmd) }),
        }
    }

    /// Records what came of a command. After a reply the connection
    /// stands; after a transport failure the next command connects anew.
    pub fn command_finished(&mut self, delivered: bool)
        ensures
            final(self)@ == old(self)@.after_command(delivered),
    {
        self.channel = match self.channel {
            ChannelState::Closed => ChannelState::Closed,
            _ => if delivered {
                ChannelState::Connected
            } else {
                ChannelState::Ready
            },
        };
    }

    /// Records how many players are on the server and how many it admits,
    /// where that is known.
    pub fn set_player_counts(&mut self, player_count: Option<u32>, max_player_count: Option<u32>)
        ensures
            final(self)@ == (MinecraftInstanceView { player_count, max_player_count, ..old(self)@ }),
    {
        self.player_count = player_count;
        self.max_player_count = max_player_count;
    }
}

fn check_change(change: &SettingChange, own_port: u32, ports: &PortManager) -> (valid: bool)
    ensures
        valid == change@.is_valid(own_port, ports@),
{
    match change {
        SettingChange::Name(name) => {
            let len = name.as_str().unicode_len();
            1 <= len && len <= MAX_NAME_LEN
        },
        SettingChange::Port(port) => *port == own_port || ports.is_free(*port),
        _ => true,
    }
}

fn rejection_of(change: &SettingChange) -> (error: Error)
    ensures
        error@ == change@.rejection(),
{
    match change {
        SettingChange::Name(_) => Error::new(ErrorInner::MalformedRequest, "name"),
        SettingChange::Description(_) => Error::new(ErrorInner::MalformedRequest, "description"),
        SettingChange::Port(_) => Error::new(ErrorInner::PortInUse, "port"),
        SettingChange::MinRam(_) => Error::new(ErrorInner::MalformedRequest, "min_ram"),
        SettingChange::MaxRam(_) => Error::new(ErrorInner::MalformedRequest, "max_ram"),
        SettingChange::AutoStart(_) => Error::new(ErrorInner::MalformedRequest, "auto_start"),
        SettingChange::RestartOnCrash(_) => Error::new(ErrorInner::MalformedRequest, "restart_on_crash"),
        SettingChange::BackupPeriod(_) => Error::new(ErrorInner::MalformedRequest, "backup_period"),
        SettingChange::CmdArgs(_) => Error::new(ErrorInner::MalformedRequest, "cmd_args"),
    }
}

fn apply_change(config: &mut RestoreConfig, change: &SettingChange)
    ensures
        final(config)@ == change@.apply(old(config)@),
{
    match change {
        SettingChange::Name(name) => {
            config.name = name.clone();
        },
        SettingChange::Description(description) => {
            config.description = description.clone();
        },
        SettingChange::Port(port) => {
            config.port = *port;
        },
        SettingChange::MinRam(ram) => {
            config.min_ram = *ram;
        },
        SettingChange::MaxRam(ram) => {
            config.max_ram = *ram;
        },
        SettingChange::AutoStart(on) => {
            config.auto_start = *on;
        },
        SettingChange::RestartOnCrash(on) => {
            config.restart_on_crash = *on;
        },
        SettingChange::BackupPeriod(period) => {
            config.backup_period = *period;
        },
        SettingChange::CmdArgs(args) => {
            config.cmd_args = clone_strings(args);
        },
    }
}

/// The position of the first change of `changes` that is not valid, if
/// there is one.
pub fn first_invalid_change(changes: &Vec<SettingChange>, own_port: u32, ports: &PortManager) -> (found: Option<
    usize,
>)
    ensures
        match found {
            Some(k) => is_first_invalid(change_views(changes@), own_port, ports@, k as int),
            None => all_valid(change_views(changes@), own_port, ports@),
        },
{
    let mut i: usize = 0;
    while i < changes.len()
        invariant
            i <= changes.len(),
            forall|j: int| 0 <= j < i ==> (#[trigger] change_views(changes@)[j]).is_valid(own_port, ports@),
        decreases changes.len() - i,
    {
        if !check_change(&changes[i], own_port, ports) {
            return Some(i);
        }
        i = i + 1;
    }
    None
}

impl MinecraftInstance {
    /// Changes the settings of the instance.
    ///
    /// The changes are checked first, every one against the instance as it
    /// is and the ports of `ports`. If one is not valid, nothing changes
    /// and the error names the field of the first such change. Otherwise
    /// the changes are made to the record in order, and the answer holds
    /// the instructions for the backup scheduler, one for each change of
    /// the backup period. The caller persists the record and forwards the
    /// instructions.
    pub fn update_settings(&mut self, changes: &Vec<SettingChange>, ports: &PortManager) -> (result: Result<
        Vec<BackupInstruction>,
        Error,
    >)
        ensures
            final(self)@ == old(self)@.after_settings(change_views(changes@), ports@),
            old(self)@.settings_answer(change_views(changes@), ports@, result),
    {
        match first_invalid_change(changes, self.config.port, ports) {
            Some(k) => {
                let error = rejection_of(&changes[k]);
                return Err(error);
            },
            None => {},
        }
        let mut instructions: Vec<BackupInstruction> = Vec::new();
        let mut i: usize = 0;
        while i < changes.len()
            invariant
                i <= changes.len(),
                self@ == (MinecraftInstanceView {
                    config: apply_changes(old(self)@.config, change_views(changes@).take(i as int)),
                    ..old(self)@
                }),
                instructions@ == backup_instructions(change_views(changes@).take(i as int)),
            decreases changes.len() - i,
        {
            proof {
                let views = change_views(changes@);
                assert(views.take(i + 1).drop_last() =~= views.take(i as int));
            }
            apply_change(&mut self.config, &changes[i]);
            match &changes[i] {
                SettingChange::BackupPeriod(period) => {
                    instructions.push(BackupInstruction::SetPeriod(*period));
                },
                _ => {},
            }
            i = i + 1;
        }
        proof {
            let views = change_views(changes@);
            assert(views.take(changes.len() as int) =~= views);
        }
        Ok(instructions)
    }
}

/// What every kind of instance can tell about itself.
///
/// `info_view` is the projection of the instance. The getters return its
/// fields one by one, and `get_instance_info` gathers them.
pub trait TInstance {
    /// The projection of the instance.
    spec fn info_view(&self) -> InstanceInfoView;

    fn uuid(&self) -> (uuid: InstanceUuid)
        ensures
            uuid@ == self.info_view().uuid,
    ;

    fn name(&self) -> (name: String)
        ensures
            name@ == self.info_view().name,
    ;

    fn flavour(&self) -> (flavour: String)
        ensures
            flavour@ == self.info_view().flavour,
    ;

    fn game_type(&self) -> (game_type: String)
        ensures
            game_type@ == self.info_view().game_type,
    ;

    fn cmd_args(&self) -> (cmd_args: Vec<String>)
        ensures
            texts(cmd_args@) == self.info_view().cmd_args,
    ;

    fn description(&self) -> (description: String)
        ensures
            description@ == self.info_view().description,
    ;

    fn port(&self) -> (port: u32)
        ensures
            port == self.info_view().port,
    ;

    fn min_ram(&self) -> (min_ram: Option<u32>)
        ensures
            min_ram == self.info_view().min_ram,
    ;

    fn max_ram(&self) -> (max_ram: Option<u32>)
        ensures
            max_ram == self.info_view().max_ram,
    ;

    fn creation_time(&self) -> (creation_time: i64)
        ensures
            creation_time == self.info_view().creation_time,
    ;

    fn path(&self) -> (path: String)
        ensures
            path@ == self.info_view().path,
    ;

    fn auto_start(&self) -> (auto_start: bool)
        ensures
            auto_start == self.info_view().auto_start,
    ;

    fn restart_on_crash(&self) -> (restart_on_crash: bool)
        ensures
            restart_on_crash == self.info_view().restart_on_crash,
    ;

    fn backup_period(&self) -> (backup_period: Option<u32>)
        ensures
            backup_period == self.info_view().backup_period,
    ;

    fn state(&self) -> (state: State)
        ensures
            state == self.info_view().state,
    ;

    fn get_player_count(&self) -> (player_count: Option<u32>)
        ensures
            player_count == self.info_view().player_count,
    ;

    fn get_max_player_count(&self) -> (max_player_count: Option<u32>)
        ensures
            max_player_count == self.info_view().max_player_count,
    ;

    /// The projection of the instance, gathered field by field.
    fn get_instance_info(&self) -> (info: InstanceInfo)
        ensures
            info@ == self.info_view(),
    {
        InstanceInfo {
            uuid: self.uuid(),
            name: self.name(),
            flavour: self.flavour(),
            game_type: self.game_type(),
            cmd_args: self.cmd_args(),
            description: self.description(),
            port: self.port(),
            min_ram: self.min_ram(),
            max_ram: self.max_ram(),
            creation_time: self.creation_time(),
            path: self.path(),
            auto_start: self.auto_start(),
            restart_on_crash: self.restart_on_crash(),
            backup_period: self.backup_period(),
            state: self.state(),
            player_count: self.get_player_count(),
            max_player_count: self.get_max_player_count(),
        }
    }
}

impl TInstance for MinecraftInstance {
    open spec fn info_view(&self) -> InstanceInfoView {
        self@.info()
    }

    fn uuid(&self) -> (uuid: InstanceUuid) {
        self.config.uuid.clone()
    }

    fn name(&self) -> (name: String) {
        self.config.name.clone()
    }

    fn flavour(&self) -> (flavour: String) {
        self.config.flavour.to_string()
    }

    fn game_type(&self) -> (game_type: String) {
        self.config.game_type.clone()
    }

    fn cmd_args(&self) -> (cmd_args: Vec<String>) {
        clone_strings(&self.config.cmd_args)
    }

    fn description(&self) -> (description: String) {
        self.config.description.clone()
    }

    fn port(&self) -> (port: u32) {
        self.config.port
    }

    fn min_ram(&self) -> (min_ram: Option<u32>) {
        Some(self.config.min_ram)
    }

    fn max_ram(&self) -> (max_ram: Option<u32>) {
        Some(self.config.max_ram)
    }

    fn creation_time(&self) -> (creation_time: i64) {
        self.config.creation_time
    }

    fn path(&self) -> (path: String) {
        self.config.path.clone()
    }

    fn auto_start(&self) -> (auto_start: bool) {
        self.config.auto_start
    }

    fn restart_on_crash(&self) -> (restart_on_crash: bool) {
        self.config.restart_on_crash
    }

    fn backup_period(&self) -> (backup_period: Option<u32>) {
        self.config.backup_period
    }

    fn state(&self) -> (state: State) {
        self.state
    }

    fn get_player_count(&self) -> (player_count: Option<u32>) {
        self.player_count
    }

    fn get_max_player_count(&self) -> (max_player_count: Option<u32>) {
        self.max_player_count
    }
}

/// The projection of an instance is a function of its record, its state
/// and its player counts alone. A manager that is restored from a record
/// therefore shows, field for field, what a manager with the same record
/// shows that is stopped and knows no player counts, whatever lies between
/// the two: the record may have been written out and read back in full.
pub proof fn lemma_restored_projection(before: MinecraftInstanceView, reloaded: RestoreConfigView)
    requires
        reloaded == before.config,
    ensures
        MinecraftInstanceView::restored(reloaded).info() == projection(before.config, State::Stopped, None, None),
        before.state == State::Stopped && before.player_count is None && before.max_player_count is None
            ==> MinecraftInstanceView::restored(reloaded).info() == before.info(),
{
}

/// Whatever is asked of a manager and whatever its process reports, its
/// state stays as it is or moves along an edge of the state machine, and
/// it publishes an event exactly when the state has changed. Settings and
/// commands never touch the state, and an instance that is being deleted
/// stays stopped.
pub proof fn lemma_state_moves_along_edges(
    instance: MinecraftInstanceView,
    runtime_found: bool,
    binary_found: bool,
    report: ProcessEvent,
    delivered: bool,
    changes: Seq<SettingChangeView>,
    taken: Set<u32>,
)
    ensures
        along_edge(instance.state, instance.after_start(runtime_found, binary_found).state),
        along_edge(instance.state, instance.after_stop().state),
        along_edge(instance.state, instance.after_report(report).state),
        instance.after_command(delivered).state == instance.state,
        instance.after_settings(changes, taken).state == instance.state,
        instance.wf() ==> instance.after_start(runtime_found, binary_found).wf() && instance.after_stop().wf()
            && instance.after_report(report).wf() && instance.after_command(delivered).wf()
            && instance.after_settings(changes, taken).wf(),
        instance.move_events(instance.state) == Seq::<EventView>::empty(),
        forall|to: State| to != instance.state ==> instance.move_events(to) == seq![instance.entered(to)],
        MinecraftInstanceView::restored(instance.config).state == State::Stopped,
{
    assert(crate::lifecycle::edge(State::Stopped, LifecycleEvent::StartRequested) == Some(State::Starting));
}

} // verus!
