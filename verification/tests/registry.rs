use lodestone_core::backup::BackupInstruction;
use lodestone_core::config::{Flavour, HandlerGameType, RestoreConfig, SetupConfig};
use lodestone_core::creation::{Completion, SetupRequest};
use lodestone_core::error::{Error, ErrorInner};
use lodestone_core::events::{
    CausedBy, Event, EventInner, ProgressionEndValue, ProgressionEventInner, Snowflake,
};
use lodestone_core::identity::InstanceUuid;
use lodestone_core::instance::{LifecycleAction, MinecraftInstance, ProcessEvent, SettingChange, TInstance};
use lodestone_core::lifecycle::State;
use lodestone_core::listing::sort_by_creation_time;
use lodestone_core::provision::{ProvisionAction, Provisioning, StepOutcome};
use lodestone_core::registry::{DeleteAction, DeleteOutcome, InstanceRegistry};

fn id(text: &str) -> InstanceUuid {
    InstanceUuid::new(text.to_string()).unwrap()
}

fn record(uuid: &str, name: &str, port: u32, creation_time: i64) -> RestoreConfig {
    let setup = SetupConfig {
        game_type: "minecraft".to_string(),
        uuid: id(uuid),
        name: name.to_string(),
        version: "1.20.1".to_string(),
        flavour: Flavour::Vanilla,
        port,
        path: format!("instances/{}", name),
        cmd_args: None,
        description: None,
        min_ram: None,
        max_ram: None,
        auto_start: None,
        restart_on_crash: None,
        timeout_last_left: None,
        timeout_no_activity: None,
        start_on_connection: None,
        backup_period: None,
    };
    RestoreConfig::from_setup(setup, Flavour::Vanilla, 17, creation_time)
}

fn request(name: &str, port: u32) -> SetupRequest {
    SetupRequest {
        name: name.to_string(),
        version: "1.20.1".to_string(),
        port,
        cmd_args: None,
        description: None,
        min_ram: None,
        max_ram: None,
        auto_start: None,
        restart_on_crash: None,
        timeout_last_left: None,
        timeout_no_activity: None,
        start_on_connection: None,
        backup_period: None,
    }
}

fn user() -> CausedBy {
    CausedBy::User { user_id: "u1".to_string(), user_name: "ada".to_string() }
}

fn registry_with_two() -> InstanceRegistry {
    let mut registry = InstanceRegistry::new();
    registry.restore(record("aaaaaaaa-1", "alpha", 25565, 200)).unwrap();
    registry.restore(record("bbbbbbbb-1", "beta", 25566, 100)).unwrap();
    registry
}

fn end_of(event: &Event) -> (bool, String) {
    match &event.event_inner {
        EventInner::ProgressionEvent(e) => match &e.progression_event_inner {
            ProgressionEventInner::ProgressionEnd { success, message, .. } => {
                (*success, message.clone().unwrap())
            }
            _ => panic!("not an end"),
        },
        _ => panic!("not a progression event"),
    }
}

fn is_end(event: &Event) -> bool {
    matches!(
        &event.event_inner,
        EventInner::ProgressionEvent(e)
            if matches!(e.progression_event_inner, ProgressionEventInner::ProgressionEnd { .. })
    )
}

fn finish(run: &mut Provisioning) -> Vec<Event> {
    let mut events = Vec::new();
    let outcomes = vec![
        StepOutcome::LayoutCreated,
        StepOutcome::RuntimeResolved { url: "u".to_string(), major_version: 17, cached: false },
        StepOutcome::Downloaded { step: 1, downloaded: 1, total: Some(2) },
        StepOutcome::Downloaded { step: 1, downloaded: 2, total: Some(2) },
        StepOutcome::DownloadFinished,
        StepOutcome::RuntimeExtracted { entries: 1 },
        StepOutcome::RuntimeInstalled,
        StepOutcome::BinaryResolved { url: "j".to_string(), flavour: Flavour::Vanilla },
        StepOutcome::Downloaded { step: 3, downloaded: 3, total: Some(4) },
        StepOutcome::Downloaded { step: 1, downloaded: 4, total: Some(4) },
        StepOutcome::DownloadFinished,
        StepOutcome::ConfigWritten,
    ];
    for outcome in outcomes {
        events.extend(run.advance(outcome).events);
    }
    events
}

fn create(registry: &mut InstanceRegistry, name: &str, port: u32, candidate: &str) -> Result<Provisioning, Error> {
    registry
        .create_minecraft_instance(
            HandlerGameType::MinecraftJavaVanilla,
            request(name, port),
            &vec![id(candidate)],
            "instances",
            Snowflake(7),
            user(),
            1700000000,
        )
        .map(|started| started.0)
}

fn is_reserved(registry: &mut InstanceRegistry, candidate: &str) -> bool {
    // an identity in use cannot be reserved again; a free one is given back at once
    match registry.reserve(&vec![id(candidate)], 1) {
        Ok(uuid) => {
            registry.abandon(&uuid);
            false
        }
        Err(_) => true,
    }
}

#[test]
fn new_registry_is_empty() {
    let registry = InstanceRegistry::new();
    assert_eq!(registry.len(), 0);
    assert!(registry.get_instance_list().is_empty());
    assert!(registry.is_port_free(25565));
    assert!(!registry.contains(&id("aaaaaaaa-1")));
}

#[test]
fn restored_instances_are_registered_stopped() {
    let registry = registry_with_two();
    assert_eq!(registry.len(), 2);
    assert!(!registry.is_port_free(25565));
    assert!(!registry.is_port_free(25566));
    assert!(registry.is_port_free(25567));
    assert!(registry.contains(&id("aaaaaaaa-1")));
    assert!(registry.contains(&id("bbbbbbbb-1")));
    let info = registry.get_instance_info(&id("bbbbbbbb-1")).unwrap();
    assert_eq!(info.name, "beta");
    assert_eq!(info.state, State::Stopped);
    assert_eq!(registry.instance(&id("aaaaaaaa-1")).unwrap().name(), "alpha");
    assert!(registry.instance(&id("cccccccc-1")).is_none());
}

#[test]
fn unknown_identity_is_not_found() {
    let registry = registry_with_two();
    let error = registry.get_instance_info(&id("cccccccc-1")).unwrap_err();
    assert_eq!(error.inner, ErrorInner::NotFound);
    assert_eq!(error.detail, "Instance not found");
    assert_eq!(error.status_code(), 404);
}

#[test]
fn list_is_sorted_by_creation_time() {
    let mut registry = registry_with_two();
    registry.restore(record("cccccccc-1", "gamma", 25567, 150)).unwrap();
    registry.restore(record("dddddddd-1", "delta", 25568, 100)).unwrap();
    let names: Vec<String> = registry.get_instance_list().into_iter().map(|info| info.name).collect();
    assert_eq!(names, vec!["beta".to_string(), "delta".to_string(), "gamma".to_string(), "alpha".to_string()]);
}

#[test]
fn sort_keeps_the_order_of_equal_times() {
    let infos: Vec<_> = vec![("a", 5), ("b", 1), ("c", 5), ("d", 1), ("e", 3)]
        .into_iter()
        .enumerate()
        .map(|(n, (name, time))| {
            MinecraftInstance::restore(record(&format!("{:08}-x", n), name, n as u32, time)).get_instance_info()
        })
        .collect();
    let sorted: Vec<String> = sort_by_creation_time(&infos).into_iter().map(|info| info.name).collect();
    assert_eq!(sorted, vec!["b", "d", "e", "a", "c"]);
    assert!(sort_by_creation_time(&Vec::new()).is_empty());
}

#[test]
fn register_refuses_a_port_in_use() {
    let mut registry = registry_with_two();
    let error = registry.restore(record("cccccccc-1", "gamma", 25565, 1)).unwrap_err();
    assert_eq!(error.inner, ErrorInner::PortInUse);
    assert_eq!(error.detail, "port");
    assert_eq!(registry.len(), 2);
    assert!(!registry.contains(&id("cccccccc-1")));
}

#[test]
fn register_refuses_a_colliding_identity() {
    let mut registry = registry_with_two();
    let error = registry.restore(record("aaaaaaaa-2", "gamma", 25567, 1)).unwrap_err();
    assert_eq!(error.inner, ErrorInner::InternalError);
    assert_eq!(error.detail, "Instance identity is in use");
    let error = registry.restore(record("aaaaaaaa-1", "gamma", 25567, 1)).unwrap_err();
    assert_eq!(error.detail, "Instance identity is in use");
    assert_eq!(registry.len(), 2);
    assert!(registry.is_port_free(25567));
}

#[test]
fn reserve_skips_prefixes_in_use_and_claims_the_port() {
    let mut registry = registry_with_two();
    let candidates = vec![id("aaaaaaaa-9"), id("bbbbbbbb-9"), id("cccccccc-9")];
    let chosen = registry.reserve(&candidates, 25570).unwrap();
    assert_eq!(chosen.as_str(), "cccccccc-9");
    assert!(!registry.is_port_free(25570));
    // the reservation itself is in use now
    let error = registry.reserve(&candidates, 25571).unwrap_err();
    assert_eq!(error.inner, ErrorInner::InternalError);
    assert_eq!(error.detail, "No free instance identity");
    assert!(registry.is_port_free(25571));
    registry.abandon(&chosen);
    assert!(registry.is_port_free(25570));
    assert_eq!(registry.reserve(&candidates, 25570).unwrap().as_str(), "cccccccc-9");
    assert_eq!(registry.len(), 2);
}

#[test]
fn reserve_refuses_a_port_in_use() {
    let mut registry = registry_with_two();
    let error = registry.reserve(&vec![id("cccccccc-9")], 25565).unwrap_err();
    assert_eq!(error.inner, ErrorInner::PortInUse);
    assert_eq!(error.detail, "port");
    assert!(!is_reserved(&mut registry, "cccccccc-9"));
}

#[test]
fn reserved_instance_must_come_with_its_port() {
    let mut registry = InstanceRegistry::new();
    let chosen = registry.reserve(&vec![id("cccccccc-9")], 25570).unwrap();
    let error = registry.restore(record(chosen.as_str(), "gamma", 25571, 1)).unwrap_err();
    assert_eq!(error.inner, ErrorInner::PortInUse);
    assert_eq!(registry.len(), 0);
    registry.restore(record(chosen.as_str(), "gamma", 25570, 1)).unwrap();
    assert_eq!(registry.len(), 1);
    assert!(!registry.is_port_free(25570));
    assert!(registry.is_port_free(25571));
}

#[test]
fn abandon_gives_up_reservations_only() {
    let mut registry = registry_with_two();
    registry.abandon(&id("zzzzzzzz-1"));
    registry.abandon(&id("aaaaaaaa-1"));
    assert_eq!(registry.len(), 2);
    assert!(registry.contains(&id("aaaaaaaa-1")));
    assert!(!registry.is_port_free(25565));
}

#[test]
fn creating_a_vanilla_instance_reports_progress_and_registers_it() {
    let mut registry = InstanceRegistry::new();
    let candidates = vec![id("0a1b2c3d-4e5f-6789")];
    let (mut run, first) = registry
        .create_minecraft_instance(
            HandlerGameType::MinecraftJavaVanilla,
            request("survival", 25565),
            &candidates,
            "instances",
            Snowflake(7),
            user(),
            1700000000,
        )
        .unwrap();
    assert_eq!(first.action, ProvisionAction::CreateLayout);
    assert_eq!(run.setup().uuid.as_str(), "0a1b2c3d-4e5f-6789");
    assert_eq!(run.setup().path, "instances/survival-0a1b2c3d");
    assert_eq!(run.setup().game_type, "minecraft");
    assert!(matches!(run.setup().flavour, Flavour::Vanilla));
    // the instance is not listed while it is provisioned, but its port is held
    assert!(registry.get_instance_list().is_empty());
    assert!(!registry.is_port_free(25565));
    let mut events = first.events;
    events.extend(finish(&mut run));
    // nothing has announced the end yet
    assert!(events.iter().all(|event| !is_end(event)));
    let Completion { result, events: last } = registry.complete_creation(&run);
    result.unwrap();
    // with the end published, the list holds the instance
    let list = registry.get_instance_list();
    assert_eq!(list.len(), 1);
    events.extend(last);
    // one start that announces ten units
    match &events[0].event_inner {
        EventInner::ProgressionEvent(e) => {
            assert_eq!(e.event_id, Snowflake(7));
            assert!(matches!(
                e.progression_event_inner,
                ProgressionEventInner::ProgressionStart { total: Some(10), .. }
            ));
        }
        _ => panic!("no start"),
    }
    // updates whose progress never falls, and one successful end after them
    let mut progress = 0.0;
    let mut reached = Vec::new();
    let mut ends = 0;
    for event in &events[1..] {
        match &event.event_inner {
            EventInner::ProgressionEvent(e) => {
                assert_eq!(e.event_id, Snowflake(7));
                match &e.progression_event_inner {
                    ProgressionEventInner::ProgressionUpdate { progress: position, .. } => {
                        let units = position.thousandths as f64 / 1000.0;
                        assert!(units >= progress);
                        assert!(units <= 10.0);
                        assert_eq!(ends, 0);
                        progress = units;
                        reached.push(units);
                    }
                    ProgressionEventInner::ProgressionEnd { success, inner, .. } => {
                        assert!(*success);
                        match inner {
                            Some(ProgressionEndValue::InstanceCreation(info)) => {
                                assert!(info.same_as(&list[0]));
                            }
                            _ => panic!("the end carries no instance"),
                        }
                        ends += 1;
                    }
                    ProgressionEventInner::ProgressionStart { .. } => panic!("a second start"),
                }
            }
            _ => panic!("not a progression event"),
        }
    }
    assert_eq!(reached, vec![1.0, 3.0, 5.0, 7.25, 8.0, 9.0]);
    assert_eq!(ends, 1);
    assert_eq!(list[0].name, "survival");
    assert_eq!(list[0].uuid.as_str(), "0a1b2c3d-4e5f-6789");
    assert_eq!(list[0].state, State::Stopped);
    assert_eq!(list[0].port, 25565);
    assert_eq!(list[0].flavour, "vanilla");
    assert_eq!(list[0].creation_time, 1700000000);
    assert!(!registry.is_port_free(25565));
}

#[test]
fn creation_is_refused_for_a_bad_name() {
    let mut registry = InstanceRegistry::new();
    for name in vec![String::new(), "n".repeat(101)] {
        let error = create(&mut registry, &name, 25565, "0a1b2c3d-4e5f").unwrap_err();
        assert_eq!(error.inner, ErrorInner::MalformedRequest);
        assert_eq!(error.detail, "name");
    }
    // nothing was reserved
    assert!(!is_reserved(&mut registry, "0a1b2c3d-4e5f"));
    assert!(registry.is_port_free(25565));
}

#[test]
fn creation_is_refused_for_a_port_in_use() {
    let mut registry = registry_with_two();
    let error = create(&mut registry, "gamma", 25566, "cccccccc-1").unwrap_err();
    assert_eq!(error.inner, ErrorInner::PortInUse);
    assert_eq!(error.detail, "port");
    assert!(!is_reserved(&mut registry, "cccccccc-1"));
}

#[test]
fn second_creation_on_the_same_port_is_refused_at_once() {
    let mut registry = InstanceRegistry::new();
    let mut first = create(&mut registry, "survival", 25565, "0a1b2c3d-4e5f").unwrap();
    let error = create(&mut registry, "creative", 25565, "1b2c3d4e-5f6a").unwrap_err();
    assert_eq!(error.inner, ErrorInner::PortInUse);
    // nor can a restored instance take the port of a creation under way
    assert_eq!(registry.restore(record("bbbbbbbb-1", "beta", 25565, 1)).unwrap_err().inner, ErrorInner::PortInUse);
    finish(&mut first);
    let completion = registry.complete_creation(&first);
    completion.result.unwrap();
    assert_eq!(end_of(&completion.events[0]), (true, "Instance creation success".to_string()));
    assert_eq!(registry.len(), 1);
}

#[test]
fn creation_is_refused_when_every_candidate_collides() {
    let mut registry = registry_with_two();
    let error = registry
        .create_minecraft_instance(
            HandlerGameType::MinecraftForge,
            request("gamma", 25567),
            &vec![id("aaaaaaaa-5"), id("bbbbbbbb-5")],
            "instances",
            Snowflake(1),
            CausedBy::System,
            0,
        )
        .unwrap_err();
    assert_eq!(error.inner, ErrorInner::InternalError);
    assert_eq!(error.detail, "No free instance identity");
    assert_eq!(registry.len(), 2);
    assert!(registry.is_port_free(25567));
}

#[test]
fn created_flavour_follows_the_game_type() {
    let mut registry = InstanceRegistry::new();
    let (run, _) = registry
        .create_minecraft_instance(
            HandlerGameType::MinecraftForge,
            request("modded", 25565),
            &vec![id("0a1b2c3d-4e5f")],
            "/srv/instances",
            Snowflake(1),
            CausedBy::Unknown,
            5,
        )
        .unwrap();
    assert!(matches!(run.setup().flavour, Flavour::Forge { build_version: None }));
    assert_eq!(run.setup().path, "/srv/instances/modded-0a1b2c3d");
}

#[test]
fn failed_creation_frees_identity_and_port_and_ends_in_failure() {
    let mut registry = InstanceRegistry::new();
    let mut run = create(&mut registry, "survival", 25565, "0a1b2c3d-4e5f").unwrap();
    assert!(is_reserved(&mut registry, "0a1b2c3d-4e5f"));
    run.advance(StepOutcome::LayoutCreated);
    let step = run.advance(StepOutcome::Failed { error: Error::new(ErrorInner::FailedToDownload, "offline") });
    assert_eq!(step.action, ProvisionAction::Rollback);
    let completion = registry.complete_creation(&run);
    let error = completion.result.unwrap_err();
    assert_eq!(error.inner, ErrorInner::FailedToDownload);
    assert_eq!(error.detail, "offline");
    assert_eq!(completion.events.len(), 1);
    assert_eq!(end_of(&completion.events[0]), (false, "Instance creation failed: offline".to_string()));
    assert_eq!(registry.len(), 0);
    assert!(registry.get_instance_list().is_empty());
    assert!(registry.is_port_free(25565));
    assert!(!is_reserved(&mut registry, "0a1b2c3d-4e5f"));
}

#[test]
fn unfinished_creation_is_not_completed() {
    let mut registry = InstanceRegistry::new();
    let run = create(&mut registry, "survival", 25565, "0a1b2c3d-4e5f").unwrap();
    let completion = registry.complete_creation(&run);
    assert_eq!(completion.result.unwrap_err().inner, ErrorInner::InvalidInstanceState);
    assert!(completion.events.is_empty());
    assert_eq!(registry.len(), 0);
    // the reservation is kept
    assert!(is_reserved(&mut registry, "0a1b2c3d-4e5f"));
    assert!(!registry.is_port_free(25565));
}

#[test]
fn run_without_a_reservation_can_be_refused_and_ends_in_failure() {
    // a run that did not begin in this registry finds its port taken
    let mut elsewhere = InstanceRegistry::new();
    let mut run = create(&mut elsewhere, "survival", 25565, "0a1b2c3d-4e5f").unwrap();
    finish(&mut run);
    let mut registry = InstanceRegistry::new();
    registry.restore(record("bbbbbbbb-1", "beta", 25565, 1)).unwrap();
    let completion = registry.complete_creation(&run);
    assert_eq!(completion.result.unwrap_err().inner, ErrorInner::PortInUse);
    assert_eq!(end_of(&completion.events[0]), (false, "Instance creation failed: port".to_string()));
    assert_eq!(registry.len(), 1);
}

#[test]
fn delete_on_a_running_instance_is_a_state_error() {
    let mut registry = registry_with_two();
    let uuid = id("aaaaaaaa-1");
    registry.start(&uuid, true, true).unwrap();
    registry.report(&uuid, ProcessEvent::Healthy { endpoint: true }).unwrap();
    let error = registry.delete_instance(&uuid, DeleteOutcome::Requested, Snowflake(3), user()).unwrap_err();
    assert_eq!(error.inner, ErrorInner::InvalidInstanceState);
    assert_eq!(error.detail, "Instance must be stopped before deletion");
    assert_eq!(registry.len(), 2);
    assert!(registry.contains(&uuid));
    assert!(!registry.is_port_free(25565));
    assert_eq!(registry.get_instance_info(&uuid).unwrap().state, State::Running);
    // nor is a report on a deletion taken that nobody asked for
    for outcome in vec![
        DeleteOutcome::ConfigRemoved,
        DeleteOutcome::ConfigNotRemoved,
        DeleteOutcome::DirectoryRemoved,
        DeleteOutcome::DirectoryNotRemoved,
    ] {
        let error = registry.delete_instance(&uuid, outcome, Snowflake(3), user()).unwrap_err();
        assert_eq!(error.inner, ErrorInner::InvalidInstanceState);
        assert_eq!(error.detail, "No deletion of the instance is under way");
        assert_eq!(registry.len(), 2);
        assert!(!registry.is_port_free(25565));
    }
}

#[test]
fn delete_on_starting_and_stopping_instances_is_a_state_error() {
    let mut registry = registry_with_two();
    let uuid = id("aaaaaaaa-1");
    registry.start(&uuid, true, true).unwrap();
    assert!(registry.delete_instance(&uuid, DeleteOutcome::Requested, Snowflake(3), user()).is_err());
    registry.report(&uuid, ProcessEvent::Healthy { endpoint: true }).unwrap();
    registry.stop(&uuid, true).unwrap();
    assert!(registry.delete_instance(&uuid, DeleteOutcome::Requested, Snowflake(3), user()).is_err());
    assert_eq!(registry.len(), 2);
}

#[test]
fn delete_of_an_unknown_instance_is_not_found() {
    let mut registry = registry_with_two();
    for outcome in vec![
        DeleteOutcome::Requested,
        DeleteOutcome::ConfigRemoved,
        DeleteOutcome::ConfigNotRemoved,
        DeleteOutcome::DirectoryRemoved,
        DeleteOutcome::DirectoryNotRemoved,
    ] {
        let error = registry.delete_instance(&id("cccccccc-1"), outcome, Snowflake(3), user()).unwrap_err();
        assert_eq!(error.inner, ErrorInner::NotFound);
        assert_eq!(registry.len(), 2);
    }
}

#[test]
fn instance_stays_stopped_while_it_is_deleted() {
    let mut registry = registry_with_two();
    let uuid = id("aaaaaaaa-1");
    registry.delete_instance(&uuid, DeleteOutcome::Requested, Snowflake(3), user()).unwrap();
    let error = registry.start(&uuid, true, true).unwrap_err();
    assert_eq!(error.inner, ErrorInner::InvalidInstanceState);
    assert_eq!(error.detail, "Instance is being deleted");
    assert_eq!(registry.get_instance_info(&uuid).unwrap().state, State::Stopped);
    // a second request is refused as well
    let error = registry.delete_instance(&uuid, DeleteOutcome::Requested, Snowflake(4), user()).unwrap_err();
    assert_eq!(error.detail, "Instance is being deleted");
    // and the removal of the configuration file is always taken
    let step = registry.delete_instance(&uuid, DeleteOutcome::ConfigRemoved, Snowflake(3), user()).unwrap();
    assert_eq!(step.action, DeleteAction::RemoveDirectory);
    assert!(!registry.contains(&uuid));
}

#[test]
fn delete_removes_the_config_first_and_then_the_instance() {
    let mut registry = registry_with_two();
    let uuid = id("aaaaaaaa-1");
    let step = registry.delete_instance(&uuid, DeleteOutcome::Requested, Snowflake(3), user()).unwrap();
    assert_eq!(step.action, DeleteAction::RemoveConfigFile);
    assert_eq!(step.path, "instances/alpha");
    assert_eq!(step.events.len(), 1);
    match &step.events[0].event_inner {
        EventInner::ProgressionEvent(e) => match &e.progression_event_inner {
            ProgressionEventInner::ProgressionStart { progression_name, producer_id, total, inner } => {
                assert_eq!(e.event_id, Snowflake(3));
                assert_eq!(progression_name, "Deleting instance alpha");
                assert_eq!(producer_id.as_ref().unwrap().as_str(), "aaaaaaaa-1");
                assert_eq!(*total, Some(10));
                assert!(inner.is_none());
            }
            _ => panic!("no start"),
        },
        _ => panic!("not a progression event"),
    }
    // nothing is gone yet
    assert_eq!(registry.len(), 2);
    assert!(!registry.is_port_free(25565));
    let step = registry.delete_instance(&uuid, DeleteOutcome::ConfigRemoved, Snowflake(3), user()).unwrap();
    assert_eq!(step.action, DeleteAction::RemoveDirectory);
    assert_eq!(step.path, "instances/alpha");
    assert!(step.events.is_empty());
    assert_eq!(registry.len(), 1);
    assert!(!registry.contains(&uuid));
    assert!(registry.is_port_free(25565));
    assert!(!registry.is_port_free(25566));
    assert!(registry.contains(&id("bbbbbbbb-1")));
    // the directory is still there, so the prefix is not free yet
    assert!(is_reserved(&mut registry, "aaaaaaaa-2"));
    let step = registry.delete_instance(&uuid, DeleteOutcome::DirectoryRemoved, Snowflake(3), user()).unwrap();
    assert_eq!(step.action, DeleteAction::Nothing);
    assert_eq!(step.path, "instances/alpha");
    assert_eq!(end_of(&step.events[0]), (true, "Deleted instance".to_string()));
    match &step.events[0].event_inner {
        EventInner::ProgressionEvent(e) => match &e.progression_event_inner {
            ProgressionEventInner::ProgressionEnd {
                inner: Some(ProgressionEndValue::InstanceDelete { instance_uuid }),
                ..
            } => assert_eq!(instance_uuid.as_str(), "aaaaaaaa-1"),
            _ => panic!("the end names no instance"),
        },
        _ => panic!("not a progression event"),
    }
    // the deletion is over: a second report finds nothing
    assert!(registry.delete_instance(&uuid, DeleteOutcome::DirectoryRemoved, Snowflake(3), user()).is_err());
    // the port and the prefix can be used again
    registry.restore(record("aaaaaaaa-2", "again", 25565, 1)).unwrap();
}

#[test]
fn delete_keeps_the_instance_when_its_config_stays() {
    let mut registry = registry_with_two();
    let uuid = id("aaaaaaaa-1");
    registry.delete_instance(&uuid, DeleteOutcome::Requested, Snowflake(3), user()).unwrap();
    let step = registry.delete_instance(&uuid, DeleteOutcome::ConfigNotRemoved, Snowflake(3), user()).unwrap();
    assert_eq!(step.action, DeleteAction::Nothing);
    assert_eq!(
        end_of(&step.events[0]),
        (false, "Failed to delete .lodestone_config. Instance not deleted".to_string())
    );
    assert_eq!(registry.len(), 2);
    assert!(!registry.is_port_free(25565));
    // the instance can start again, and be deleted again
    registry.start(&uuid, true, true).unwrap();
    registry.report(&uuid, ProcessEvent::StartFailed).unwrap();
    registry.delete_instance(&uuid, DeleteOutcome::Requested, Snowflake(5), user()).unwrap();
}

#[test]
fn delete_reports_a_directory_that_could_not_be_removed() {
    let mut registry = registry_with_two();
    let uuid = id("aaaaaaaa-1");
    registry.delete_instance(&uuid, DeleteOutcome::Requested, Snowflake(3), user()).unwrap();
    registry.delete_instance(&uuid, DeleteOutcome::ConfigRemoved, Snowflake(3), user()).unwrap();
    let step = registry.delete_instance(&uuid, DeleteOutcome::DirectoryNotRemoved, Snowflake(3), user()).unwrap();
    assert_eq!(
        end_of(&step.events[0]),
        (false, "Could not delete some or all of instance's files".to_string())
    );
    // the instance is gone all the same
    assert_eq!(registry.len(), 1);
    assert!(registry.is_port_free(25565));
}

#[test]
fn lifecycle_calls_reach_the_instance() {
    let mut registry = registry_with_two();
    let uuid = id("bbbbbbbb-1");
    assert_eq!(registry.start(&uuid, true, true).unwrap().action, LifecycleAction::Launch);
    assert_eq!(registry.get_instance_info(&uuid).unwrap().state, State::Starting);
    registry.report(&uuid, ProcessEvent::Healthy { endpoint: true }).unwrap();
    assert!(registry.send_command(&uuid, "list").unwrap().connect_first);
    registry.command_finished(&uuid, true);
    assert!(!registry.send_command(&uuid, "list").unwrap().connect_first);
    assert_eq!(registry.stop(&uuid, true).unwrap().action, LifecycleAction::StopGracefully);
    registry.process_ended(&uuid).unwrap();
    assert_eq!(registry.get_instance_info(&uuid).unwrap().state, State::Stopped);
    // the other instance was not touched
    assert_eq!(registry.get_instance_info(&id("aaaaaaaa-1")).unwrap().state, State::Stopped);
    assert!(!registry.instance(&id("aaaaaaaa-1")).unwrap().config().has_started);
    assert_eq!(registry.len(), 2);
    assert!(!registry.is_port_free(25565));
    assert!(!registry.is_port_free(25566));
}

#[test]
fn lifecycle_calls_on_an_unknown_instance_are_not_found() {
    let mut registry = registry_with_two();
    let uuid = id("cccccccc-1");
    assert_eq!(registry.start(&uuid, true, true).unwrap_err().inner, ErrorInner::NotFound);
    assert_eq!(registry.stop(&uuid, true).unwrap_err().inner, ErrorInner::NotFound);
    assert_eq!(registry.report(&uuid, ProcessEvent::Crashed).unwrap_err().inner, ErrorInner::NotFound);
    assert_eq!(registry.process_ended(&uuid).unwrap_err().inner, ErrorInner::NotFound);
    assert_eq!(registry.send_command(&uuid, "list").unwrap_err().inner, ErrorInner::NotFound);
    assert_eq!(registry.update_settings(&uuid, &Vec::new()).unwrap_err().inner, ErrorInner::NotFound);
    registry.command_finished(&uuid, true);
    assert_eq!(registry.len(), 2);
    // a reservation is no instance
    let reserved = registry.reserve(&vec![id("cccccccc-1")], 9).unwrap();
    assert_eq!(registry.start(&reserved, true, true).unwrap_err().inner, ErrorInner::NotFound);
    assert!(!registry.contains(&reserved));
}

#[test]
fn settings_move_the_port_in_the_table() {
    let mut registry = registry_with_two();
    let uuid = id("aaaaaaaa-1");
    let changes = vec![SettingChange::Port(25570), SettingChange::BackupPeriod(Some(30))];
    let instructions = registry.update_settings(&uuid, &changes).unwrap();
    assert_eq!(instructions, vec![BackupInstruction::SetPeriod(Some(30))]);
    assert!(registry.is_port_free(25565));
    assert!(!registry.is_port_free(25570));
    assert!(!registry.is_port_free(25566));
    assert_eq!(registry.get_instance_info(&uuid).unwrap().port, 25570);
    assert_eq!(registry.get_instance_info(&uuid).unwrap().backup_period, Some(30));
}

#[test]
fn settings_cannot_take_a_port_that_is_held() {
    let mut registry = registry_with_two();
    registry.reserve(&vec![id("cccccccc-1")], 25570).unwrap();
    let uuid = id("aaaaaaaa-1");
    for port in vec![25566, 25570] {
        let changes = vec![SettingChange::Name("renamed".to_string()), SettingChange::Port(port)];
        let error = registry.update_settings(&uuid, &changes).unwrap_err();
        assert_eq!(error.inner, ErrorInner::PortInUse);
        assert_eq!(error.detail, "port");
        let info = registry.get_instance_info(&uuid).unwrap();
        assert_eq!(info.name, "alpha");
        assert_eq!(info.port, 25565);
        assert!(!registry.is_port_free(25565));
        assert!(!registry.is_port_free(port));
    }
}

#[test]
fn settings_accept_the_own_port() {
    let mut registry = registry_with_two();
    let uuid = id("aaaaaaaa-1");
    registry.update_settings(&uuid, &vec![SettingChange::Port(25565)]).unwrap();
    assert!(!registry.is_port_free(25565));
    assert_eq!(registry.get_instance_info(&uuid).unwrap().port, 25565);
}
