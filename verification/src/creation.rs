//! How an instance comes into the registry.
//!
//! A creation request is checked, an identity and the port are reserved
//! for it and its provisioning begins, all in one call that returns at
//! once. When the provisioning is over, its run is handed back: a run that
//! is done gives the registry a new instance, a run that failed gives
//! identity and port free. Only then is the end of the progression
//! published, so that a successful end finds the instance in the list.

use vstd::prelude::*;
use vstd::string::*;
use crate::config::{opt_text, FlavourKind, FlavourView, HandlerGameType, RestoreConfig, SetupConfig, SetupConfigView};
use crate::error::{Error, ErrorInner, ErrorView};
use crate::events::{event_views, CausedBy, Event, EventView, ProgressionEndValue, ProgressionEndValueView, Snowflake};
use crate::identity::{id_texts, is_first_free, InstanceUuid};
use crate::info::projection;
use crate::instance::{not_provisioned_error, MinecraftInstance, MinecraftInstanceView, TInstance, MAX_NAME_LEN};
use crate::layout::{instance_directory, instance_directory_name};
use crate::lifecycle::State;
use crate::listing::{by_creation, lemma_by_creation_is_sorted};
use crate::provision::{failure_message, ProvisionAction, ProvisionStep, Provisioning, ProvisioningView, Step};
use crate::registry::{lemma_infos_hold_registered, lemma_operations_keep_wf, lemma_register_keeps_wf, lemma_reserved_instance_is_accepted, DeleteOutcome, InstanceRegistry, RegistryView, SlotView};
use crate::text::texts;

verus! {

/// What a user asks for when an instance is created: the setup without
/// what the host adds to it.
#[derive(Debug)]
pub struct SetupRequest {
    pub name: String,
    pub version: String,
    pub port: u32,
    pub cmd_args: Option<Vec<String>>,
    pub description: Option<String>,
    pub min_ram: Option<u32>,
    pub max_ram: Option<u32>,
    pub auto_start: Option<bool>,
    pub restart_on_crash: Option<bool>,
    pub timeout_last_left: Option<u32>,
    pub timeout_no_activity: Option<u32>,
    pub start_on_connection: Option<bool>,
    pub backup_period: Option<u32>,
}

/// A request as a mathematical value.
pub struct SetupRequestView {
    pub name: Seq<char>,
    pub version: Seq<char>,
    pub port: u32,
    pub cmd_args: Option<Seq<Seq<char>>>,
    pub description: Option<Seq<char>>,
    pub min_ram: Option<u32>,
    pub max_ram: Option<u32>,
    pub auto_start: Option<bool>,
    pub restart_on_crash: Option<bool>,
    pub timeout_last_left: Option<u32>,
    pub timeout_no_activity: Option<u32>,
    pub start_on_connection: Option<bool>,
    pub backup_period: Option<u32>,
}

impl View for SetupRequest {
    type V = SetupRequestView;

    open spec fn view(&self) -> SetupRequestView {
        SetupRequestView {
            name: self.name@,
            version: self.version@,
            port: self.port,
            cmd_args: match self.cmd_args {
                Some(args) => Some(texts(args@)),
                None => None,
            },
            description: opt_text(self.description),
            min_ram: self.min_ram,
            max_ram: self.max_ram,
            auto_start: self.auto_start,
            restart_on_crash: self.restart_on_crash,
            timeout_last_left: self.timeout_last_left,
            timeout_no_activity: self.timeout_no_activity,
            start_on_connection: self.start_on_connection,
            backup_period: self.backup_period,
        }
    }
}

/// The flavour that a kind of instance stands for, with no build resolved.
pub open spec fn requested_flavour(game_type: HandlerGameType) -> FlavourView {
    match game_type {
        HandlerGameType::MinecraftJavaVanilla => FlavourView::Vanilla,
        HandlerGameType::MinecraftFabric => FlavourView::Fabric { loader_version: None, installer_version: None },
        HandlerGameType::MinecraftForge => FlavourView::Forge { build_version: None },
        HandlerGameType::MinecraftPaper => FlavourView::Paper { build_version: None },
    }
}

/// The setup that is made of a request: the identity is the reserved one,
/// and the directory lies under `instances_path` and is named after the
/// instance and the prefix of its identity.
pub open spec fn setup_of(
    request: SetupRequestView,
    game_type: HandlerGameType,
    uuid: Seq<char>,
    instances_path: Seq<char>,
) -> SetupConfigView {
    SetupConfigView {
        game_type: "minecraft"@,
        uuid,
        name: request.name,
        version: request.version,
        flavour: requested_flavour(game_type),
        port: request.port,
        path: instances_path + "/"@ + instance_directory(request.name, uuid),
        cmd_args: request.cmd_args,
        description: request.description,
        min_ram: request.min_ram,
        max_ram: request.max_ram,
        auto_start: request.auto_start,
        restart_on_crash: request.restart_on_crash,
        timeout_last_left: request.timeout_last_left,
        timeout_no_activity: request.timeout_no_activity,
        start_on_connection: request.start_on_connection,
        backup_period: request.backup_period,
    }
}

/// The error for a name that is empty or too long.
pub open spec fn bad_name_error() -> ErrorView {
    ErrorView { inner: ErrorInner::MalformedRequest, detail: "name"@ }
}

/// The error with which a creation request is turned down: for a name
/// that does not have one to a hundred characters, for a port that is
/// held, and for candidates that all collide, in this order.
pub open spec fn creation_error(
    registry: RegistryView,
    request: SetupRequestView,
    candidates: Seq<Seq<char>>,
) -> Option<ErrorView> {
    if !(1 <= request.name.len() <= MAX_NAME_LEN) {
        Some(bad_name_error())
    } else {
        registry.reserve_error(candidates, request.port)
    }
}

/// The instance that a run of provisioning has made.
pub open spec fn provisioned(run: ProvisioningView) -> MinecraftInstanceView {
    MinecraftInstanceView::restored(run.restore_config())
}

/// The error with which a run that was handed back is answered, if it
/// did not lead to a registered instance: the error of the registry for a
/// run that is done, the error of the run if it failed, and a refusal for
/// a run that is still under way.
pub open spec fn completion_error(registry: RegistryView, run: ProvisioningView) -> Option<ErrorView> {
    if run.step == ProvisionStep::Done {
        registry.register_error(provisioned(run))
    } else if run.step == ProvisionStep::Failed && run.failure is Some {
        run.failure
    } else {
        Some(not_provisioned_error())
    }
}

/// The registry after a run of provisioning was handed back. A run that
/// is done registers its instance if the registry accepts it; a run that
/// is done and not accepted, and a run that failed, give the reservation
/// free; a run that is still under way changes nothing.
pub open spec fn after_completion(registry: RegistryView, run: ProvisioningView) -> RegistryView {
    if run.step == ProvisionStep::Done && registry.register_error(provisioned(run)) is None {
        registry.after_register(provisioned(run))
    } else if run.step == ProvisionStep::Done || run.step == ProvisionStep::Failed {
        registry.after_abandon(run.setup.uuid)
    } else {
        registry
    }
}

/// The events with which a run that was handed back is answered: the end
/// of its progression if the run is over, successful exactly if the
/// instance was registered, and nothing for a run that is under way.
pub open spec fn completion_events(registry: RegistryView, run: ProvisioningView) -> Seq<EventView> {
    if run.step.is_terminal() {
        seq![
            match completion_error(registry, run) {
                None => EventView::end(
                    run.event_id,
                    true,
                    Some("Instance creation success"@),
                    Some(
                        ProgressionEndValueView::InstanceCreation(
                            projection(run.restore_config(), State::Stopped, None, None),
                        ),
                    ),
                    run.caused_by,
                ),
                Some(error) => EventView::end(
                    run.event_id,
                    false,
                    Some(failure_message(error.detail)),
                    None,
                    run.caused_by,
                ),
            },
        ]
    } else {
        Seq::empty()
    }
}

/// The answer to a run that was handed back.
#[derive(Debug)]
pub struct Completion {
    /// Whether the instance was registered, and if not, why.
    pub result: Result<(), Error>,
    /// The events to publish, in order.
    pub events: Vec<Event>,
}

/// A run that is over is answered with exactly one event, the end of its
/// progression, which carries the number of the run. The end is
/// successful exactly if the registry holds the instance afterwards:
/// stopped, with the record of the run, and present in the list of
/// instances.
pub proof fn lemma_success_means_registered(registry: RegistryView, run: ProvisioningView)
    requires
        registry.wf(),
        run.step.is_terminal(),
    ensures
        after_completion(registry, run).wf(),
        completion_events(registry, run).len() == 1,
        completion_events(registry, run)[0].is_end(),
        completion_events(registry, run)[0].progression_id() == Some(run.event_id),
        completion_events(registry, run)[0].event_inner->ProgressionEvent_progression_event_inner->ProgressionEnd_success
            == completion_error(registry, run) is None,
        completion_error(registry, run) is None ==> {
            &&& after_completion(registry, run).knows(run.setup.uuid)
            &&& after_completion(registry, run).instance(run.setup.uuid) == provisioned(run)
            &&& provisioned(run).state == State::Stopped
            &&& by_creation(after_completion(registry, run).infos()).contains(provisioned(run).info())
        },
{
    broadcast use vstd::seq_lib::group_to_multiset_ensures;

    let instance = provisioned(run);
    lemma_operations_keep_wf(registry, run.setup.uuid, DeleteOutcome::Requested, Seq::empty());
    lemma_register_keeps_wf(registry, instance);
    if completion_error(registry, run) is None {
        let after = after_completion(registry, run);
        let k = after.position(run.setup.uuid);
        assert(after.has_slot(run.setup.uuid, k));
        lemma_infos_hold_registered(after.slots, k);
        lemma_by_creation_is_sorted(after.infos());
        assert(after.infos().to_multiset().count(instance.info()) > 0);
        assert(by_creation(after.infos()).to_multiset().count(instance.info()) > 0);
    }
}

/// A run that is done and whose identity and port are still reserved is
/// never refused: what a creation was promised when it began is there
/// when it is done.
pub proof fn lemma_reserved_run_is_accepted(registry: RegistryView, run: ProvisioningView)
    requires
        registry.wf(),
        run.step == ProvisionStep::Done,
        registry.slot(run.setup.uuid) == Some(SlotView::Reserved { uuid: run.setup.uuid, port: run.setup.port }),
    ensures
        completion_error(registry, run) is None,
{
    lemma_reserved_instance_is_accepted(registry, provisioned(run));
}

impl InstanceRegistry {
    /// Takes a request for a new instance of the given kind.
    ///
    /// If the request is in order, the first of `candidates` whose prefix
    /// is free becomes the identity of the instance, identity and port are
    /// reserved for it, and the provisioning of the instance begins: the
    /// answer holds the run and its first step, whose events open the
    /// progression. The instance joins the registry when the finished run
    /// is handed to `complete_creation`. A request that is turned down
    /// changes nothing.
    pub fn create_minecraft_instance(
        &mut self,
        game_type: HandlerGameType,
        request: SetupRequest,
        candidates: &Vec<InstanceUuid>,
        instances_path: &str,
        event_id: Snowflake,
        caused_by: CausedBy,
        creation_time: i64,
    ) -> (result: Result<(Provisioning, Step), Error>)
        ensures
            final(self)@.wf(),
            match result {
                Ok(started) => {
                    &&& creation_error(old(self)@, request@, id_texts(candidates@)) is None
                    &&& exists|k: int|
                        {
                            &&& #[trigger] is_first_free(old(self)@.identities(), id_texts(candidates@), k)
                            &&& final(self)@ == old(self)@.pushed(
                                SlotView::Reserved { uuid: candidates@[k]@, port: request@.port },
                            )
                            &&& started.0@ == ProvisioningView::initial(
                                setup_of(request@, game_type, candidates@[k]@, instances_path@),
                                event_id,
                                caused_by@,
                                creation_time,
                            )
                        }
                    &&& final(self)@.slot(started.0@.setup.uuid) == Some(
                        SlotView::Reserved { uuid: started.0@.setup.uuid, port: started.0@.setup.port },
                    )
                    &&& started.1.action == ProvisionAction::CreateLayout
                    &&& event_views(started.1.events@) == started.0@.initial_events()
                },
                Err(e) => {
                    &&& creation_error(old(self)@, request@, id_texts(candidates@)) == Some(e@)
                    &&& final(self)@ == old(self)@
                },
            },
    {
        proof {
            use_type_invariant(&*self);
        }
        let len = request.name.as_str().unicode_len();
        if len < 1 || len > MAX_NAME_LEN {
            return Err(Error::new(ErrorInner::MalformedRequest, "name"));
        }
        let uuid = match self.reserve(candidates, request.port) {
            Ok(uuid) => uuid,
            Err(e) => {
                return Err(e);
            },
        };
        let flavour = match game_type {
            HandlerGameType::MinecraftJavaVanilla => FlavourKind::Vanilla,
            HandlerGameType::MinecraftFabric => FlavourKind::Fabric,
            HandlerGameType::MinecraftForge => FlavourKind::Forge,
            HandlerGameType::MinecraftPaper => FlavourKind::Paper,
        }.unresolved();
        let mut path = String::from_str(instances_path);
        path.append("/");
        path.append(instance_directory_name(request.name.as_str(), &uuid).as_str());
        let setup = SetupConfig {
            game_type: String::from_str("minecraft"),
            uuid,
            name: request.name,
            version: request.version,
            flavour,
            port: request.port,
            path,
            cmd_args: request.cmd_args,
            description: request.description,
            min_ram: request.min_ram,
            max_ram: request.max_ram,
            auto_start: request.auto_start,
            restart_on_crash: request.restart_on_crash,
            timeout_last_left: request.timeout_last_left,
            timeout_no_activity: request.timeout_no_activity,
            start_on_connection: request.start_on_connection,
            backup_period: request.backup_period,
        };
        let started = Provisioning::begin(setup, event_id, caused_by, creation_time);
        Ok(started)
    }

    /// Takes back the run of a creation and publishes how it ended.
    ///
    /// A run that is done gives the registry the manager of its instance,
    /// stopped, in the place of its reservation, and is answered with the
    /// successful end of its progression. If the registry cannot accept
    /// the instance, or if the run has failed, the reservation is given
    /// up, and the end of the progression is a failed one that says why.
    /// A run that is still under way is refused, changes nothing and
    /// publishes nothing.
    pub fn complete_creation(&mut self, run: &Provisioning) -> (completion: Completion)
        ensures
            final(self)@.wf(),
            final(self)@ == after_completion(old(self)@, run@),
            match completion.result {
                Ok(_) => completion_error(old(self)@, run@) is None && final(self)@.slot(run@.setup.uuid) == Some(
                    SlotView::Registered(provisioned(run@)),
                ),
                Err(e) => completion_error(old(self)@, run@) == Some(e@),
            },
            event_views(completion.events@) == completion_events(old(self)@, run@),
    {
        proof {
            use_type_invariant(&*self);
        }
        let outcome: Result<(), Error> = match run.step() {
            ProvisionStep::Done => {
                match MinecraftInstance::new(run) {
                    Ok(instance) => {
                        let info = instance.get_instance_info();
                        match self.register(instance) {
                            Ok(_) => {
                                let mut events: Vec<Event> = Vec::new();
                                events.push(
                                    Event::progression_end(
                                        run.event_id(),
                                        true,
                                        Some(String::from_str("Instance creation success")),
                                        Some(ProgressionEndValue::InstanceCreation(info)),
                                        run.caused_by().clone(),
                                    ),
                                );
                                return Completion { result: Ok(()), events };
                            },
                            Err(e) => Err(e),
                        }
                    },
                    Err(e) => Err(e),
                }
            },
            ProvisionStep::Failed => {
                match run.failure() {
                    Some(e) => Err(e),
                    None => Err(Error::new(ErrorInner::InvalidInstanceState, "The instance is not provisioned")),
                }
            },
            _ => {
                return Completion {
                    result: Err(Error::new(ErrorInner::InvalidInstanceState, "The instance is not provisioned")),
                    events: Vec::new(),
                };
            },
        };
        self.abandon(&run.setup().uuid);
        let mut events: Vec<Event> = Vec::new();
        match &outcome {
            Err(e) => {
                let mut message = String::from_str("Instance creation failed: ");
                message.append(e.detail.as_str());
                events.push(
                    Event::progression_end(run.event_id(), false, Some(message), None, run.caused_by().clone()),
                );
            },
            Ok(_) => {},
        }
        Completion { result: outcome, events }
    }

    /// Registers the instance with the record `config`, as it is done for
    /// every record that is found on disk when the host starts. The
    /// instance is stopped; see `register` for when it is refused.
    pub fn restore(&mut self, config: RestoreConfig) -> (result: Result<(), Error>)
        ensures
            final(self)@.wf(),
            final(self)@ == old(self)@.after_register(MinecraftInstanceView::restored(config@)),
            match result {
                Ok(_) => {
                    &&& old(self)@.register_error(MinecraftInstanceView::restored(config@)) is None
                    &&& final(self)@.slot(config@.uuid) == Some(
                        SlotView::Registered(MinecraftInstanceView::restored(config@)),
                    )
                },
                Err(e) => old(self)@.register_error(MinecraftInstanceView::restored(config@)) == Some(e@),
            },
    {
        self.register(MinecraftInstance::restore(config))
    }
}

} // verus!
