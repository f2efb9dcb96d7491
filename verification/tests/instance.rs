use lodestone_core::backup::{BackupInstruction, SchedulerInput};
use lodestone_core::config::{Flavour, RestoreConfig, SetupConfig};
use lodestone_core::error::ErrorInner;
use lodestone_core::events::{Event, EventInner, InstanceEventInner};
use lodestone_core::identity::InstanceUuid;
use lodestone_core::info::InstanceInfo;
use lodestone_core::instance::{
    first_invalid_change, ChannelState, LifecycleAction, MinecraftInstance, ProcessEvent, SettingChange, TInstance,
    GRACEFUL_STOP_TIMEOUT_SECS, MAX_NAME_LEN,
};
use lodestone_core::lifecycle::State;
use lodestone_core::port::PortManager;

fn record(restart_on_crash: bool) -> RestoreConfig {
    let setup = SetupConfig {
        game_type: "minecraft".to_string(),
        uuid: InstanceUuid::new("0a1b2c3d-4e5f".to_string()).unwrap(),
        name: "survival".to_string(),
        version: "1.20.1".to_string(),
        flavour: Flavour::Vanilla,
        port: 25565,
        path: "instances/survival-0a1b2c3d".to_string(),
        cmd_args: Some(vec!["-Dx=y".to_string()]),
        description: Some("my world".to_string()),
        min_ram: Some(1024),
        max_ram: Some(2048),
        auto_start: Some(true),
        restart_on_crash: Some(restart_on_crash),
        timeout_last_left: None,
        timeout_no_activity: None,
        start_on_connection: None,
        backup_period: Some(600),
    };
    RestoreConfig::from_setup(setup, Flavour::Vanilla, 17, 1700000000)
}

fn instance() -> MinecraftInstance {
    MinecraftInstance::restore(record(false))
}

fn running(endpoint: bool) -> MinecraftInstance {
    let mut instance = instance();
    instance.start(true, true).unwrap();
    instance.report(ProcessEvent::Healthy { endpoint }).unwrap();
    instance
}

fn entered(events: &Vec<Event>) -> Vec<State> {
    events
        .iter()
        .map(|event| match &event.event_inner {
            EventInner::InstanceEvent(e) => {
                assert_eq!(e.instance_uuid.as_str(), "0a1b2c3d-4e5f");
                assert_eq!(e.instance_name, "survival");
                match e.instance_event_inner {
                    InstanceEventInner::StateTransition { to } => to,
                }
            }
            _ => panic!("not an instance event"),
        })
        .collect()
}

fn same_info(a: &InstanceInfo, b: &InstanceInfo) -> bool {
    a.same_as(b)
}

#[test]
fn restored_instance_is_stopped() {
    let instance = instance();
    assert_eq!(instance.state(), State::Stopped);
    assert_eq!(instance.channel(), ChannelState::Closed);
    assert_eq!(instance.get_player_count(), None);
    assert_eq!(instance.get_max_player_count(), None);
    assert!(!instance.config().has_started);
}

#[test]
fn start_launches_a_stopped_instance() {
    let mut instance = instance();
    let answer = instance.start(true, true).unwrap();
    assert_eq!(answer.action, LifecycleAction::Launch);
    assert_eq!(entered(&answer.events), vec![State::Starting]);
    assert_eq!(instance.state(), State::Starting);
    assert!(instance.config().has_started);
    let answer = instance.report(ProcessEvent::Healthy { endpoint: true }).unwrap();
    assert_eq!(answer.action, LifecycleAction::Nothing);
    assert_eq!(entered(&answer.events), vec![State::Running]);
    assert_eq!(instance.state(), State::Running);
}

#[test]
fn start_on_a_running_instance_changes_nothing() {
    let mut instance = running(true);
    let answer = instance.start(true, true).unwrap();
    assert_eq!(answer.action, LifecycleAction::Nothing);
    assert!(answer.events.is_empty());
    assert_eq!(instance.state(), State::Running);
    assert_eq!(instance.channel(), ChannelState::Ready);
}

#[test]
fn start_on_a_starting_instance_changes_nothing() {
    let mut instance = instance();
    instance.start(true, true).unwrap();
    let answer = instance.start(false, false).unwrap();
    assert_eq!(answer.action, LifecycleAction::Nothing);
    assert!(answer.events.is_empty());
    assert_eq!(instance.state(), State::Starting);
}

#[test]
fn start_fails_when_runtime_or_binary_is_missing() {
    for (runtime, binary) in vec![(false, true), (true, false), (false, false)] {
        let mut instance = instance();
        let error = instance.start(runtime, binary).unwrap_err();
        assert_eq!(error.inner, ErrorInner::FailedToExecute);
        assert_eq!(error.detail, "The runtime or the server binary is missing");
        assert_eq!(instance.state(), State::Stopped);
        assert!(!instance.config().has_started);
    }
}

#[test]
fn start_while_stopping_is_refused() {
    let mut instance = running(true);
    instance.stop(true).unwrap();
    let error = instance.start(true, true).unwrap_err();
    assert_eq!(error.inner, ErrorInner::InvalidInstanceState);
    assert_eq!(instance.state(), State::Stopping);
}

#[test]
fn failed_start_returns_the_instance_to_stopped() {
    let mut instance = instance();
    instance.start(true, true).unwrap();
    let answer = instance.report(ProcessEvent::StartFailed).unwrap();
    assert_eq!(answer.action, LifecycleAction::Nothing);
    assert_eq!(entered(&answer.events), vec![State::Stopped]);
    assert_eq!(instance.state(), State::Stopped);
}

#[test]
fn graceful_stop_sends_the_shutdown_command() {
    let mut instance = running(true);
    let answer = instance.stop(true).unwrap();
    assert_eq!(answer.action, LifecycleAction::StopGracefully);
    assert_eq!(entered(&answer.events), vec![State::Stopping]);
    assert_eq!(instance.state(), State::Stopping);
    assert_eq!(instance.stop_timed_out(), LifecycleAction::Kill);
    let answer = instance.report(ProcessEvent::Exited).unwrap();
    assert_eq!(entered(&answer.events), vec![State::Stopped]);
    assert_eq!(instance.state(), State::Stopped);
    assert_eq!(instance.channel(), ChannelState::Closed);
    assert_eq!(instance.stop_timed_out(), LifecycleAction::Nothing);
    assert_eq!(GRACEFUL_STOP_TIMEOUT_SECS, 30);
}

#[test]
fn forced_stop_kills_at_once() {
    let mut instance = running(true);
    let answer = instance.stop(false).unwrap();
    assert_eq!(answer.action, LifecycleAction::Kill);
    assert_eq!(instance.state(), State::Stopping);
}

#[test]
fn stop_on_a_stopped_instance_changes_nothing() {
    let mut instance = instance();
    for graceful in vec![true, false] {
        let answer = instance.stop(graceful).unwrap();
        assert_eq!(answer.action, LifecycleAction::Nothing);
        assert!(answer.events.is_empty());
        assert_eq!(instance.state(), State::Stopped);
    }
}

#[test]
fn stop_while_starting_or_stopping_is_refused() {
    let mut instance = instance();
    instance.start(true, true).unwrap();
    assert_eq!(instance.stop(true).unwrap_err().inner, ErrorInner::InvalidInstanceState);
    assert_eq!(instance.state(), State::Starting);
    let mut instance = running(false);
    instance.stop(true).unwrap();
    assert_eq!(instance.stop(false).unwrap_err().inner, ErrorInner::InvalidInstanceState);
    assert_eq!(instance.state(), State::Stopping);
}

#[test]
fn report_that_fits_no_edge_is_refused() {
    let mut instance = instance();
    for report in vec![ProcessEvent::Healthy { endpoint: true }, ProcessEvent::StartFailed, ProcessEvent::Exited] {
        let error = instance.report(report).unwrap_err();
        assert_eq!(error.inner, ErrorInner::InvalidInstanceState);
        assert_eq!(instance.state(), State::Stopped);
    }
    let mut instance = running(true);
    assert!(instance.report(ProcessEvent::Exited).is_err());
    assert_eq!(instance.state(), State::Running);
    assert_eq!(instance.channel(), ChannelState::Ready);
}

#[test]
fn crash_stops_the_instance() {
    let mut instance = running(true);
    let answer = instance.report(ProcessEvent::Crashed).unwrap();
    assert_eq!(answer.action, LifecycleAction::Nothing);
    assert_eq!(entered(&answer.events), vec![State::Stopped]);
    assert_eq!(instance.state(), State::Stopped);
    assert_eq!(instance.channel(), ChannelState::Closed);
}

#[test]
fn crash_asks_for_a_restart_when_the_policy_says_so() {
    let mut instance = MinecraftInstance::restore(record(true));
    instance.start(true, true).unwrap();
    instance.report(ProcessEvent::Healthy { endpoint: false }).unwrap();
    let answer = instance.report(ProcessEvent::Crashed).unwrap();
    assert_eq!(answer.action, LifecycleAction::Relaunch);
    assert_eq!(instance.state(), State::Stopped);
    let answer = instance.start(true, true).unwrap();
    assert_eq!(answer.action, LifecycleAction::Launch);
    assert_eq!(instance.state(), State::Starting);
}

#[test]
fn crash_report_on_a_stopped_instance_restarts_nothing() {
    let mut instance = MinecraftInstance::restore(record(true));
    let answer = instance.report(ProcessEvent::Crashed).unwrap();
    assert_eq!(answer.action, LifecycleAction::Nothing);
    assert!(answer.events.is_empty());
    assert_eq!(instance.state(), State::Stopped);
}

#[test]
fn command_needs_an_open_channel() {
    let instance = instance();
    let error = instance.send_rcon("list").unwrap_err();
    assert_eq!(error.inner, ErrorInner::RconNotOpen);
    assert_eq!(error.detail, "Failed to send rcon command, rcon connection is not initialized");
    let without_endpoint = running(false);
    assert_eq!(without_endpoint.send_rcon("list").unwrap_err().inner, ErrorInner::RconNotOpen);
}

#[test]
fn first_command_connects_and_later_ones_reuse_the_connection() {
    let mut instance = running(true);
    let request = instance.send_rcon("say hello").unwrap();
    assert!(request.connect_first);
    assert_eq!(request.command, "say hello");
    instance.command_finished(true);
    assert_eq!(instance.channel(), ChannelState::Connected);
    let request = instance.send_rcon("list").unwrap();
    assert!(!request.connect_first);
    assert_eq!(request.command, "list");
}

#[test]
fn transport_failure_reconnects_on_the_next_command() {
    let mut instance = running(true);
    instance.send_rcon("list").unwrap();
    instance.command_finished(true);
    instance.send_rcon("list").unwrap();
    instance.command_finished(false);
    assert_eq!(instance.channel(), ChannelState::Ready);
    assert_eq!(instance.state(), State::Running);
    assert!(instance.send_rcon("list").unwrap().connect_first);
}

#[test]
fn channel_is_torn_down_when_the_process_stops() {
    let mut instance = running(true);
    instance.send_rcon("list").unwrap();
    instance.command_finished(true);
    instance.stop(true).unwrap();
    instance.report(ProcessEvent::Exited).unwrap();
    assert_eq!(instance.channel(), ChannelState::Closed);
    instance.command_finished(true);
    assert_eq!(instance.channel(), ChannelState::Closed);
    assert!(instance.send_rcon("list").is_err());
}

#[test]
fn settings_are_changed_in_order() {
    let mut instance = instance();
    let ports = PortManager::new();
    let changes = vec![
        SettingChange::Name("creative".to_string()),
        SettingChange::Description("flat".to_string()),
        SettingChange::Port(25570),
        SettingChange::MinRam(512),
        SettingChange::MaxRam(1024),
        SettingChange::AutoStart(false),
        SettingChange::RestartOnCrash(true),
        SettingChange::BackupPeriod(Some(60)),
        SettingChange::CmdArgs(vec!["-a".to_string(), "-b".to_string()]),
        SettingChange::Name("creative2".to_string()),
        SettingChange::BackupPeriod(None),
    ];
    let instructions = instance.update_settings(&changes, &ports).unwrap();
    assert_eq!(
        instructions,
        vec![BackupInstruction::SetPeriod(Some(60)), BackupInstruction::SetPeriod(None)]
    );
    let config = instance.config();
    assert_eq!(config.name, "creative2");
    assert_eq!(config.description, "flat");
    assert_eq!(config.port, 25570);
    assert_eq!(config.min_ram, 512);
    assert_eq!(config.max_ram, 1024);
    assert!(!config.auto_start);
    assert!(config.restart_on_crash);
    assert_eq!(config.backup_period, None);
    assert_eq!(config.cmd_args, vec!["-a".to_string(), "-b".to_string()]);
    assert_eq!(config.uuid.as_str(), "0a1b2c3d-4e5f");
    assert_eq!(config.version, "1.20.1");
    assert_eq!(instance.state(), State::Stopped);
}

#[test]
fn no_changes_change_nothing() {
    let mut instance = instance();
    let instructions = instance.update_settings(&Vec::new(), &PortManager::new()).unwrap();
    assert!(instructions.is_empty());
    assert_eq!(instance.config().name, "survival");
}

#[test]
fn empty_name_is_rejected_and_nothing_changes() {
    let mut instance = instance();
    let changes = vec![
        SettingChange::Description("new".to_string()),
        SettingChange::Name(String::new()),
        SettingChange::Port(1),
    ];
    let error = instance.update_settings(&changes, &PortManager::new()).unwrap_err();
    assert_eq!(error.inner, ErrorInner::MalformedRequest);
    assert_eq!(error.detail, "name");
    assert_eq!(instance.config().description, "my world");
    assert_eq!(instance.config().name, "survival");
    assert_eq!(instance.config().port, 25565);
}

#[test]
fn name_length_is_bounded() {
    assert_eq!(MAX_NAME_LEN, 100);
    let mut instance = instance();
    let longest = "n".repeat(100);
    instance.update_settings(&vec![SettingChange::Name(longest.clone())], &PortManager::new()).unwrap();
    assert_eq!(instance.config().name, longest);
    let error = instance
        .update_settings(&vec![SettingChange::Name("n".repeat(101))], &PortManager::new())
        .unwrap_err();
    assert_eq!(error.detail, "name");
    assert_eq!(instance.config().name, longest);
}

#[test]
fn port_of_another_instance_is_rejected() {
    let mut instance = instance();
    let mut ports = PortManager::new();
    ports.allocate_if_free(25565);
    ports.allocate_if_free(25566);
    let changes = vec![SettingChange::BackupPeriod(None), SettingChange::Port(25566)];
    let error = instance.update_settings(&changes, &ports).unwrap_err();
    assert_eq!(error.inner, ErrorInner::PortInUse);
    assert_eq!(error.detail, "port");
    assert_eq!(instance.config().port, 25565);
    assert_eq!(instance.config().backup_period, Some(600));
    assert_eq!(first_invalid_change(&changes, 25565, &ports), Some(1));
}

#[test]
fn own_port_and_free_port_are_accepted() {
    let mut instance = instance();
    let mut ports = PortManager::new();
    ports.allocate_if_free(25565);
    instance.update_settings(&vec![SettingChange::Port(25565)], &ports).unwrap();
    assert_eq!(instance.config().port, 25565);
    instance.update_settings(&vec![SettingChange::Port(25567)], &ports).unwrap();
    assert_eq!(instance.config().port, 25567);
    assert_eq!(first_invalid_change(&vec![SettingChange::Port(1)], 25565, &ports), None);
}

#[test]
fn first_invalid_change_names_the_error() {
    let mut instance = instance();
    let mut ports = PortManager::new();
    ports.allocate_if_free(9);
    let changes = vec![SettingChange::Port(9), SettingChange::Name(String::new())];
    let error = instance.update_settings(&changes, &ports).unwrap_err();
    assert_eq!(error.inner, ErrorInner::PortInUse);
    assert_eq!(error.detail, "port");
}

#[test]
fn getters_agree_with_the_projection() {
    let mut instance = running(true);
    instance.set_player_counts(Some(2), Some(20));
    let info = instance.get_instance_info();
    assert_eq!(info.uuid.as_str(), instance.uuid().as_str());
    assert_eq!(info.name, instance.name());
    assert_eq!(info.flavour, instance.flavour());
    assert_eq!(info.game_type, instance.game_type());
    assert_eq!(info.cmd_args, instance.cmd_args());
    assert_eq!(info.description, instance.description());
    assert_eq!(info.port, instance.port());
    assert_eq!(info.min_ram, instance.min_ram());
    assert_eq!(info.max_ram, instance.max_ram());
    assert_eq!(info.creation_time, instance.creation_time());
    assert_eq!(info.path, instance.path());
    assert_eq!(info.auto_start, instance.auto_start());
    assert_eq!(info.restart_on_crash, instance.restart_on_crash());
    assert_eq!(info.backup_period, instance.backup_period());
    assert_eq!(info.state, instance.state());
    assert_eq!(info.player_count, instance.get_player_count());
    assert_eq!(info.max_player_count, instance.get_max_player_count());
    assert_eq!(info.name, "survival");
    assert_eq!(info.flavour, "vanilla");
    assert_eq!(info.min_ram, Some(1024));
    assert_eq!(info.max_ram, Some(2048));
    assert_eq!(info.state, State::Running);
    assert_eq!(info.player_count, Some(2));
    assert_eq!(info.max_player_count, Some(20));
    assert!(same_info(&info, &InstanceInfo::project(instance.config(), State::Running, Some(2), Some(20))));
}

#[test]
fn reloaded_record_gives_the_same_projection() {
    let before = instance();
    let written = before.config().clone();
    let reloaded = MinecraftInstance::restore(written);
    assert!(same_info(&before.get_instance_info(), &reloaded.get_instance_info()));
    assert_eq!(reloaded.get_instance_info().state, State::Stopped);
    assert_eq!(reloaded.get_instance_info().description, "my world");
}

#[test]
fn tick_carries_the_state() {
    let instance = instance();
    assert_eq!(instance.tick(), SchedulerInput::Tick(State::Stopped));
    assert_eq!(running(true).tick(), SchedulerInput::Tick(State::Running));
}

#[test]
fn launch_arguments_hold_memory_bounds_and_binary() {
    let instance = instance();
    assert_eq!(
        instance.launch_arguments(),
        vec![
            "-Xmx2048M".to_string(),
            "-Xms1024M".to_string(),
            "-Dx=y".to_string(),
            "-jar".to_string(),
            "server.jar".to_string(),
            "nogui".to_string(),
        ]
    );
    assert_eq!(lodestone_core::instance::shutdown_command(), "stop");
}

#[test]
fn projections_are_compared_field_for_field() {
    let info = instance().get_instance_info();
    assert!(info.same_as(&info.clone()));
    let mut other = info.clone();
    other.cmd_args.push("-x".to_string());
    assert!(!info.same_as(&other));
    let mut other = info.clone();
    other.state = State::Running;
    assert!(!info.same_as(&other));
    let mut other = info.clone();
    other.player_count = Some(0);
    assert!(!info.same_as(&other));
    let mut other = info.clone();
    other.description = "another".to_string();
    assert!(!info.same_as(&other));
    let mut other = info.clone();
    other.backup_period = None;
    assert!(!info.same_as(&other));
}

#[test]
fn written_and_reloaded_record_restores_the_same_projection() {
    // the record goes through the JSON text of its fields and comes back
    let before = instance();
    let config = before.config();
    let text = serde_json::to_string(&(
        (&config.game_type, config.uuid.as_str(), &config.name, &config.version),
        (&config.description, &config.cmd_args, &config.path, config.port),
        (config.min_ram, config.max_ram, config.creation_time, config.auto_start),
        (config.restart_on_crash, config.backup_period, config.jre_major_version, config.has_started),
    ))
    .unwrap();
    type Row1 = (String, String, String, String);
    type Row2 = (String, Vec<String>, String, u32);
    type Row3 = (u32, u32, i64, bool);
    type Row4 = (bool, Option<u32>, u64, bool);
    let (a, b, c, d): (Row1, Row2, Row3, Row4) = serde_json::from_str(&text).unwrap();
    let reloaded = RestoreConfig {
        game_type: a.0,
        uuid: InstanceUuid::new(a.1).unwrap(),
        name: a.2,
        version: a.3,
        flavour: Flavour::Vanilla,
        description: b.0,
        cmd_args: b.1,
        path: b.2,
        port: b.3,
        min_ram: c.0,
        max_ram: c.1,
        creation_time: c.2,
        auto_start: c.3,
        restart_on_crash: d.0,
        backup_period: d.1,
        jre_major_version: d.2,
        has_started: d.3,
    };
    let restored = MinecraftInstance::restore(reloaded);
    assert!(restored.get_instance_info().same_as(&before.get_instance_info()));
}

#[test]
fn end_of_the_process_is_an_exit_while_stopping() {
    let mut instance = running(true);
    instance.stop(true).unwrap();
    let answer = instance.process_ended().unwrap();
    assert_eq!(answer.action, LifecycleAction::Nothing);
    assert_eq!(entered(&answer.events), vec![State::Stopped]);
    assert_eq!(instance.state(), State::Stopped);
}

#[test]
fn end_of_the_process_is_a_crash_otherwise() {
    let mut instance = MinecraftInstance::restore(record(true));
    instance.start(true, true).unwrap();
    // the process ends while the instance is starting
    let answer = instance.process_ended().unwrap();
    assert_eq!(answer.action, LifecycleAction::Relaunch);
    assert_eq!(instance.state(), State::Stopped);
    instance.start(true, true).unwrap();
    instance.report(ProcessEvent::Healthy { endpoint: true }).unwrap();
    let answer = instance.process_ended().unwrap();
    assert_eq!(answer.action, LifecycleAction::Relaunch);
    assert_eq!(entered(&answer.events), vec![State::Stopped]);
    assert_eq!(instance.channel(), ChannelState::Closed);
    // on a stopped instance it changes nothing
    let answer = instance.process_ended().unwrap();
    assert_eq!(answer.action, LifecycleAction::Nothing);
    assert!(answer.events.is_empty());
}

#[test]
fn deletion_can_begin_on_a_stopped_instance_only() {
    let mut instance = running(true);
    let error = instance.begin_deletion().unwrap_err();
    assert_eq!(error.inner, ErrorInner::InvalidInstanceState);
    assert_eq!(error.detail, "Instance must be stopped before deletion");
    assert!(!instance.is_deleting());
    let mut instance = MinecraftInstance::restore(record(false));
    instance.begin_deletion().unwrap();
    assert!(instance.is_deleting());
    assert_eq!(instance.begin_deletion().unwrap_err().detail, "Instance is being deleted");
    let error = instance.start(true, true).unwrap_err();
    assert_eq!(error.detail, "Instance is being deleted");
    assert_eq!(instance.state(), State::Stopped);
    assert!(!instance.config().has_started);
    instance.cancel_deletion();
    assert!(!instance.is_deleting());
    assert_eq!(instance.start(true, true).unwrap().action, LifecycleAction::Launch);
}
