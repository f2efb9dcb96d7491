//! The registry of the instances of a host.
//!
//! The registry holds one slot for every identity that is in use: for an
//! instance that is being created, for a registered instance, and for an
//! instance whose directory is being removed. It keeps the table of ports
//! in step with the slots: a port is claimed exactly while a slot holds
//! it, and no two identities share a prefix.

use vstd::prelude::*;
use vstd::string::*;
use crate::backup::BackupInstruction;
use crate::error::{Error, ErrorInner, ErrorView};
use crate::events::{event_views, CausedBy, CausedByView, Event, EventView, ProgressionEndValue, ProgressionEndValueView, Snowflake};
use crate::identity::{distinct_prefixes, id_texts, is_first_free, prefix_in_use, prefix_of, prefix_taken, select_identity, InstanceUuid};
use crate::info::{InstanceInfo, InstanceInfoView};
use crate::instance::{all_valid, apply_changes, change_views, no_deletion_error, CommandRequest, MinecraftInstance, MinecraftInstanceView, ProcessEvent, SettingChange, SettingChangeView, TInstance, Transition};
use crate::listing::{by_creation, info_views, sort_by_creation_time};
use crate::port::PortManager;
use crate::provision::TOTAL_PROGRESS;

verus! {

/// The error for an identity that no registered instance has.
pub open spec fn not_found_error() -> ErrorView {
    ErrorView { inner: ErrorInner::NotFound, detail: "Instance not found"@ }
}

/// The error for an instance whose port is held.
pub open spec fn port_in_use_error() -> ErrorView {
    ErrorView { inner: ErrorInner::PortInUse, detail: "port"@ }
}

/// The error for an instance whose identity collides with another.
pub open spec fn identity_in_use_error() -> ErrorView {
    ErrorView { inner: ErrorInner::InternalError, detail: "Instance identity is in use"@ }
}

/// The error for a request for which every candidate identity collided.
pub open spec fn no_identity_error() -> ErrorView {
    ErrorView { inner: ErrorInner::InternalError, detail: "No free instance identity"@ }
}

/// Whether every candidate collides with an identity in use.
pub open spec fn all_taken(existing: Seq<Seq<char>>, candidates: Seq<Seq<char>>) -> bool {
    forall|k: int| 0 <= k < candidates.len() ==> prefix_taken(existing, #[trigger] candidates[k])
}

/// The name of the deletion of an instance.
pub open spec fn deletion_name(instance_name: Seq<char>) -> Seq<char> {
    "Deleting instance "@ + instance_name
}

/// How far the deletion of an instance has come.
#[derive(Debug, Clone, Copy, PartialEq, Eq, Structural)]
pub enum DeleteOutcome {
    /// The deletion was asked for.
    Requested,
    /// The configuration file of the instance was removed.
    ConfigRemoved,
    /// The configuration file of the instance could not be removed.
    ConfigNotRemoved,
    /// The directory of the instance was removed.
    DirectoryRemoved,
    /// The directory of the instance could not be removed in full.
    DirectoryNotRemoved,
}

/// What is to be done next for a deletion.
#[derive(Debug, Clone, Copy, PartialEq, Eq, Structural)]
pub enum DeleteAction {
    /// Remove the configuration file in the directory of the instance.
    RemoveConfigFile,
    /// Remove what is left of the directory of the instance.
    RemoveDirectory,
    /// Nothing: the deletion is over.
    Nothing,
}

/// The answer to a step of a deletion.
#[derive(Debug)]
pub struct DeleteStep {
    pub action: DeleteAction,
    /// The directory of the instance, where the action needs it.
    pub path: String,
    pub events: Vec<Event>,
}

/// What the registry holds for one identity, as a mathematical value.
pub enum SlotView {
    /// The identity and the port of an instance that is being created.
    Reserved { uuid: Seq<char>, port: u32 },
    /// A registered instance.
    Registered(MinecraftInstanceView),
    /// The identity of an instance that has left the registry and whose
    /// directory is being removed.
    Removing { uuid: Seq<char>, path: Seq<char> },
}

impl SlotView {
    /// The identity of the slot.
    pub open spec fn uuid(self) -> Seq<char> {
        match self {
            SlotView::Reserved { uuid, .. } => uuid,
            SlotView::Registered(instance) => instance.config.uuid,
            SlotView::Removing { uuid, .. } => uuid,
        }
    }

    /// The port that the slot holds, if it holds one.
    pub open spec fn port(self) -> Option<u32> {
        match self {
            SlotView::Reserved { port, .. } => Some(port),
            SlotView::Registered(instance) => Some(instance.config.port),
            SlotView::Removing { .. } => None,
        }
    }
}

/// `ports` without `port`, if there is one.
pub open spec fn without(ports: Set<u32>, port: Option<u32>) -> Set<u32> {
    match port {
        Some(p) => ports.remove(p),
        None => ports,
    }
}

/// `ports` and `port`, if there is one.
pub open spec fn with(ports: Set<u32>, port: Option<u32>) -> Set<u32> {
    match port {
        Some(p) => ports.insert(p),
        None => ports,
    }
}

/// The projections of the registered instances among `slots`, in order.
pub open spec fn infos_of(slots: Seq<SlotView>) -> Seq<InstanceInfoView>
    decreases slots.len(),
{
    if slots.len() == 0 {
        Seq::empty()
    } else {
        let before = infos_of(slots.drop_last());
        match slots.last() {
            SlotView::Registered(instance) => before.push(instance.info()),
            _ => before,
        }
    }
}

/// A registry as a mathematical value.
pub struct RegistryView {
    /// The slots, in the order in which their identities came into use.
    pub slots: Seq<SlotView>,
    /// The claimed ports.
    pub ports: Set<u32>,
}

impl RegistryView {
    /// The identities that are in use.
    pub open spec fn identities(self) -> Seq<Seq<char>> {
        Seq::new(self.slots.len(), |i: int| self.slots[i].uuid())
    }

    /// Whether the slot at position `k` has the identity `uuid`.
    pub open spec fn has_slot(self, uuid: Seq<char>, k: int) -> bool {
        0 <= k < self.slots.len() && self.slots[k].uuid() == uuid
    }

    /// Whether the identity `uuid` is in use.
    pub open spec fn has(self, uuid: Seq<char>) -> bool {
        exists|k: int| self.has_slot(uuid, k)
    }

    /// The position of the slot with the identity `uuid`.
    pub open spec fn position(self, uuid: Seq<char>) -> int {
        choose|k: int| self.has_slot(uuid, k)
    }

    /// The slot with the identity `uuid`, if the identity is in use.
    pub open spec fn slot(self, uuid: Seq<char>) -> Option<SlotView> {
        if self.has(uuid) {
            Some(self.slots[self.position(uuid)])
        } else {
            None
        }
    }

    /// Whether an instance with the identity `uuid` is registered.
    pub open spec fn knows(self, uuid: Seq<char>) -> bool {
        self.slot(uuid) matches Some(SlotView::Registered(_))
    }

    /// The registered instance with the identity `uuid`.
    pub open spec fn instance(self, uuid: Seq<char>) -> MinecraftInstanceView {
        self.slot(uuid)->Some_0->Registered_0
    }

    /// Whether a slot holds `port`.
    pub open spec fn holds_port(self, port: u32) -> bool {
        exists|k: int| 0 <= k < self.slots.len() && (#[trigger] self.slots[k]).port() == Some(port)
    }

    /// What holds of every registry: no two identities in use share a
    /// prefix, no two slots hold the same port, and a port is claimed
    /// exactly if a slot holds it.
    pub open spec fn wf(self) -> bool {
        &&& distinct_prefixes(self.identities())
        &&& forall|i: int, j: int|
            0 <= i < j < self.slots.len() && (#[trigger] self.slots[i]).port() is Some ==> self.slots[i].port() != (
            #[trigger] self.slots[j]).port()
        &&& forall|port: u32| self.ports.contains(port) <==> self.holds_port(port)
    }

    /// The registry with `slot` behind its slots.
    pub open spec fn pushed(self, slot: SlotView) -> RegistryView {
        RegistryView { slots: self.slots.push(slot), ports: with(self.ports, slot.port()) }
    }

    /// The registry without the slot at position `k`.
    pub open spec fn removed(self, k: int) -> RegistryView {
        RegistryView { slots: self.slots.remove(k), ports: without(self.ports, self.slots[k].port()) }
    }

    /// The registry with `slot` in the place of the slot at position `k`.
    pub open spec fn replaced(self, k: int, slot: SlotView) -> RegistryView {
        RegistryView {
            slots: self.slots.update(k, slot),
            ports: with(without(self.ports, self.slots[k].port()), slot.port()),
        }
    }

    /// The registry with `instance` in the place of the instance `uuid`.
    pub open spec fn with_instance(self, uuid: Seq<char>, instance: MinecraftInstanceView) -> RegistryView {
        self.replaced(self.position(uuid), SlotView::Registered(instance))
    }

    /// The projections of the registered instances, in the order in which
    /// their identities came into use.
    pub open spec fn infos(self) -> Seq<InstanceInfoView> {
        infos_of(self.slots)
    }

    /// The error with which a reservation for `port` is refused: for a
    /// port that is held, and for candidates that all collide.
    pub open spec fn reserve_error(self, candidates: Seq<Seq<char>>, port: u32) -> Option<ErrorView> {
        if self.ports.contains(port) {
            Some(port_in_use_error())
        } else if all_taken(self.identities(), candidates) {
            Some(no_identity_error())
        } else {
            None
        }
    }

    /// The registry after the reservation of `uuid` was given up.
    pub open spec fn after_abandon(self, uuid: Seq<char>) -> RegistryView {
        if self.slot(uuid) matches Some(SlotView::Reserved { .. }) {
            self.removed(self.position(uuid))
        } else {
            self
        }
    }

    /// The error with which `instance` is refused. An instance whose
    /// identity is reserved has to come with the port of its reservation.
    /// Any other instance has to have an identity that collides with none
    /// in use and a port that nobody holds.
    pub open spec fn register_error(self, instance: MinecraftInstanceView) -> Option<ErrorView> {
        match self.slot(instance.config.uuid) {
            Some(SlotView::Reserved { port, .. }) => if port == instance.config.port {
                None
            } else {
                Some(port_in_use_error())
            },
            Some(_) => Some(identity_in_use_error()),
            None => if prefix_taken(self.identities(), instance.config.uuid) {
                Some(identity_in_use_error())
            } else if self.ports.contains(instance.config.port) {
                Some(port_in_use_error())
            } else {
                None
            },
        }
    }

    /// The registry after `instance` was offered for registration: an
    /// instance that is accepted takes the slot of its reservation, or a
    /// new slot behind the others.
    pub open spec fn after_register(self, instance: MinecraftInstanceView) -> RegistryView {
        if self.register_error(instance) is Some {
            self
        } else if self.has(instance.config.uuid) {
            self.replaced(self.position(instance.config.uuid), SlotView::Registered(instance))
        } else {
            self.pushed(SlotView::Registered(instance))
        }
    }

    /// The error with which a step of the deletion of `uuid` is refused.
    ///
    /// A deletion can be asked for of a registered instance that is
    /// stopped and not being deleted already. What became of the
    /// configuration file can be reported of a registered instance whose
    /// deletion is under way, and what became of the directory of an
    /// instance whose configuration file is gone.
    pub open spec fn delete_error(self, uuid: Seq<char>, outcome: DeleteOutcome) -> Option<ErrorView> {
        match outcome {
            DeleteOutcome::Requested => if !self.knows(uuid) {
                Some(not_found_error())
            } else {
                self.instance(uuid).deletion_error()
            },
            DeleteOutcome::ConfigRemoved | DeleteOutcome::ConfigNotRemoved => if !self.knows(uuid) {
                Some(not_found_error())
            } else if !self.instance(uuid).deleting {
                Some(no_deletion_error())
            } else {
                None
            },
            _ => match self.slot(uuid) {
                Some(SlotView::Removing { .. }) => None,
                Some(_) => Some(no_deletion_error()),
                None => Some(not_found_error()),
            },
        }
    }

    /// The registry after a step of the deletion of `uuid`.
    ///
    /// The request marks the instance, which from then on refuses to
    /// start. With its configuration file gone the instance leaves the
    /// registry and its port is free, whatever state it is in and whatever
    /// becomes of its directory; only its identity stays in use until the
    /// directory was dealt with. If the file could not be removed, the
    /// mark is taken off and the instance stays.
    pub open spec fn after_delete(self, uuid: Seq<char>, outcome: DeleteOutcome) -> RegistryView {
        if self.delete_error(uuid, outcome) is Some {
            self
        } else {
            let k = self.position(uuid);
            match outcome {
                DeleteOutcome::Requested => self.replaced(
                    k,
                    SlotView::Registered(MinecraftInstanceView { deleting: true, ..self.instance(uuid) }),
                ),
                DeleteOutcome::ConfigRemoved => self.replaced(
                    k,
                    SlotView::Removing { uuid, path: self.instance(uuid).config.path },
                ),
                DeleteOutcome::ConfigNotRemoved => self.replaced(
                    k,
                    SlotView::Registered(MinecraftInstanceView { deleting: false, ..self.instance(uuid) }),
                ),
                _ => self.removed(k),
            }
        }
    }

    /// What the registry holds for `uuid` after a step of its deletion.
    pub open spec fn slot_after_delete(self, uuid: Seq<char>, outcome: DeleteOutcome) -> Option<SlotView> {
        if self.delete_error(uuid, outcome) is Some {
            self.slot(uuid)
        } else {
            match outcome {
                DeleteOutcome::Requested => Some(
                    SlotView::Registered(MinecraftInstanceView { deleting: true, ..self.instance(uuid) }),
                ),
                DeleteOutcome::ConfigRemoved => Some(
                    SlotView::Removing { uuid, path: self.instance(uuid).config.path },
                ),
                DeleteOutcome::ConfigNotRemoved => Some(
                    SlotView::Registered(MinecraftInstanceView { deleting: false, ..self.instance(uuid) }),
                ),
                _ => None,
            }
        }
    }

    /// What a step of a deletion asks for.
    pub open spec fn delete_action(outcome: DeleteOutcome) -> DeleteAction {
        match outcome {
            DeleteOutcome::Requested => DeleteAction::RemoveConfigFile,
            DeleteOutcome::ConfigRemoved => DeleteAction::RemoveDirectory,
            _ => DeleteAction::Nothing,
        }
    }

    /// The directory that a step of the deletion of `uuid` is about.
    pub open spec fn delete_path(self, uuid: Seq<char>, outcome: DeleteOutcome) -> Seq<char> {
        match self.slot(uuid) {
            Some(SlotView::Registered(instance)) => instance.config.path,
            Some(SlotView::Removing { path, .. }) => path,
            _ => Seq::empty(),
        }
    }

    /// The events of a step of the deletion of `uuid`.
    pub open spec fn delete_events(
        self,
        uuid: Seq<char>,
        outcome: DeleteOutcome,
        event_id: Snowflake,
        caused_by: CausedByView,
    ) -> Seq<EventView> {
        match outcome {
            DeleteOutcome::Requested => seq![
                EventView::start(
                    event_id,
                    deletion_name(self.instance(uuid).config.name),
                    Some(uuid),
                    Some(TOTAL_PROGRESS),
                    None,
                    caused_by,
                ),
            ],
            DeleteOutcome::ConfigRemoved => Seq::empty(),
            DeleteOutcome::ConfigNotRemoved => seq![
                EventView::end(
                    event_id,
                    false,
                    Some("Failed to delete .lodestone_config. Instance not deleted"@),
                    None,
                    caused_by,
                ),
            ],
            DeleteOutcome::DirectoryRemoved => seq![
                EventView::end(
                    event_id,
                    true,
                    Some("Deleted instance"@),
                    Some(ProgressionEndValueView::InstanceDelete { instance_uuid: uuid }),
                    caused_by,
                ),
            ],
            DeleteOutcome::DirectoryNotRemoved => seq![
                EventView::end(
                    event_id,
                    false,
                    Some("Could not delete some or all of instance's files"@),
                    None,
                    caused_by,
                ),
            ],
        }
    }

    /// The registry after the instance `uuid` was asked to change its
    /// settings: the changes are made if all are valid, and the table of
    /// ports follows the port of the instance.
    pub open spec fn after_settings(self, uuid: Seq<char>, changes: Seq<SettingChangeView>) -> RegistryView {
        if !self.knows(uuid) {
            self
        } else {
            self.with_instance(uuid, self.instance(uuid).after_settings(changes, self.ports))
        }
    }
}

/// Identities with distinct prefixes are distinct, so an identity stands
/// for one slot at most.
pub proof fn lemma_position_is_unique(registry: RegistryView, uuid: Seq<char>, k: int)
    requires
        registry.wf(),
        registry.has_slot(uuid, k),
    ensures
        registry.has(uuid),
        registry.position(uuid) == k,
        registry.slot(uuid) == Some(registry.slots[k]),
{
    let other = registry.position(uuid);
    assert(registry.has_slot(uuid, other));
    if other != k {
        let ids = registry.identities();
        assert(ids[k] == uuid && ids[other] == uuid);
        assert(prefix_of(ids[k]) == prefix_of(ids[other]));
    }
}

/// A new slot keeps the registry well formed if its identity collides with
/// none in use and nobody holds its port.
pub proof fn lemma_push_keeps_wf(registry: RegistryView, slot: SlotView)
    requires
        registry.wf(),
        !prefix_taken(registry.identities(), slot.uuid()),
        slot.port() matches Some(p) ==> !registry.ports.contains(p),
    ensures
        registry.pushed(slot).wf(),
        registry.pushed(slot).has_slot(slot.uuid(), registry.slots.len() as int),
{
    let after = registry.pushed(slot);
    let n = registry.slots.len() as int;
    let ids = registry.identities();
    let new_ids = after.identities();
    assert(new_ids =~= ids.push(slot.uuid()));
    crate::identity::lemma_accepted_identity_keeps_prefixes_distinct(ids, slot.uuid());
    assert forall|i: int, j: int|
        0 <= i < j < after.slots.len() && (#[trigger] after.slots[i]).port() is Some implies after.slots[i].port() != (
        #[trigger] after.slots[j]).port() by {
        assert(after.slots[i] == registry.slots[i]);
        if j < n {
            assert(after.slots[j] == registry.slots[j]);
        } else {
            assert(registry.holds_port(registry.slots[i].port()->Some_0));
        }
    }
    assert forall|p: u32| after.ports.contains(p) <==> after.holds_port(p) by {
        if after.holds_port(p) {
            let k = choose|k: int| 0 <= k < after.slots.len() && (#[trigger] after.slots[k]).port() == Some(p);
            if k < n {
                assert(registry.slots[k].port() == Some(p));
            }
        }
        if registry.holds_port(p) {
            let k = choose|k: int| 0 <= k < registry.slots.len() && (#[trigger] registry.slots[k]).port() == Some(p);
            assert(after.slots[k].port() == Some(p));
        }
        if slot.port() == Some(p) {
            assert(after.slots[n].port() == Some(p));
        }
    }
}

/// Taking a slot away keeps the registry well formed: its identity and
/// its port are free again, and every other slot keeps what it holds.
pub proof fn lemma_remove_keeps_wf(registry: RegistryView, k: int)
    requires
        registry.wf(),
        0 <= k < registry.slots.len(),
    ensures
        registry.removed(k).wf(),
        !registry.removed(k).has(registry.slots[k].uuid()),
        registry.slots[k].port() matches Some(p) ==> !registry.removed(k).ports.contains(p),
{
    let after = registry.removed(k);
    let ids = registry.identities();
    let rest = after.identities();
    assert forall|i: int| 0 <= i < after.slots.len() implies #[trigger] after.slots[i] == registry.slots[if i < k {
        i
    } else {
        i + 1
    }] by {}
    assert forall|i: int, j: int| 0 <= i < rest.len() && 0 <= j < rest.len() && i != j implies prefix_of(
        #[trigger] rest[i],
    ) != prefix_of(#[trigger] rest[j]) by {
        let a = if i < k {
            i
        } else {
            i + 1
        };
        let b = if j < k {
            j
        } else {
            j + 1
        };
        assert(rest[i] == ids[a] && rest[j] == ids[b]);
    }
    assert forall|i: int, j: int|
        0 <= i < j < after.slots.len() && (#[trigger] after.slots[i]).port() is Some implies after.slots[i].port() != (
        #[trigger] after.slots[j]).port() by {
        let a = if i < k {
            i
        } else {
            i + 1
        };
        let b = if j < k {
            j
        } else {
            j + 1
        };
        assert(after.slots[i] == registry.slots[a] && after.slots[j] == registry.slots[b]);
    }
    assert forall|p: u32| after.ports.contains(p) <==> after.holds_port(p) by {
        if after.holds_port(p) {
            let i = choose|i: int| 0 <= i < after.slots.len() && (#[trigger] after.slots[i]).port() == Some(p);
            let a = if i < k {
                i
            } else {
                i + 1
            };
            assert(registry.slots[a].port() == Some(p));
            assert(registry.slots[k].port() != Some(p)) by {
                if a < k {
                    assert(registry.slots[a].port() != registry.slots[k].port());
                } else {
                    assert(registry.slots[k].port() is Some ==> registry.slots[k].port() != registry.slots[a].port());
                }
            }
        }
        if registry.holds_port(p) && registry.slots[k].port() != Some(p) {
            let a = choose|a: int| 0 <= a < registry.slots.len() && (#[trigger] registry.slots[a]).port() == Some(p);
            let i = if a < k {
                a
            } else {
                a - 1
            };
            assert(after.slots[i] == registry.slots[a]);
        }
    }
    if after.has(registry.slots[k].uuid()) {
        let i = choose|i: int| after.has_slot(registry.slots[k].uuid(), i);
        let a = if i < k {
            i
        } else {
            i + 1
        };
        assert(ids[a] == ids[k]);
        assert(prefix_of(ids[a]) == prefix_of(ids[k]));
    }
}

/// Putting a slot in the place of another keeps the registry well formed
/// if the identity stays and the port stays, goes, or moves to one that
/// nobody holds.
pub proof fn lemma_replace_keeps_wf(registry: RegistryView, k: int, slot: SlotView)
    requires
        registry.wf(),
        0 <= k < registry.slots.len(),
        slot.uuid() == registry.slots[k].uuid(),
        slot.port() matches Some(p) ==> registry.slots[k].port() == Some(p) || !registry.ports.contains(p),
    ensures
        registry.replaced(k, slot).wf(),
        registry.replaced(k, slot).identities() == registry.identities(),
        registry.replaced(k, slot).has_slot(slot.uuid(), k),
        slot.port() == registry.slots[k].port() ==> registry.replaced(k, slot).ports == registry.ports,
{
    let after = registry.replaced(k, slot);
    assert(after.identities() =~= registry.identities());
    assert forall|i: int| 0 <= i < after.slots.len() && i != k implies #[trigger] after.slots[i]
        == registry.slots[i] by {}
    assert forall|i: int| 0 <= i < registry.slots.len() && (#[trigger] registry.slots[i]).port() is Some
        implies registry.ports.contains(registry.slots[i].port()->Some_0) by {
        assert(registry.holds_port(registry.slots[i].port()->Some_0));
    }
    assert forall|i: int, j: int|
        0 <= i < j < after.slots.len() && (#[trigger] after.slots[i]).port() is Some implies after.slots[i].port() != (
        #[trigger] after.slots[j]).port() by {
        if i != k && j != k {
            assert(registry.slots[i].port() != registry.slots[j].port());
        } else if i == k {
            if after.slots[j].port() is Some {
                assert(registry.slots[j].port() is Some);
                if k < j {
                    assert(registry.slots[k].port() is Some ==> registry.slots[k].port() != registry.slots[j].port());
                }
            }
        } else {
            assert(registry.slots[i].port() != registry.slots[k].port());
        }
    }
    assert forall|p: u32| after.ports.contains(p) <==> after.holds_port(p) by {
        if after.holds_port(p) {
            let i = choose|i: int| 0 <= i < after.slots.len() && (#[trigger] after.slots[i]).port() == Some(p);
            if i != k {
                assert(registry.slots[i].port() == Some(p));
                if i < k {
                    assert(registry.slots[i].port() != registry.slots[k].port());
                } else {
                    assert(registry.slots[k].port() is Some ==> registry.slots[k].port() != registry.slots[i].port());
                }
            }
        }
        if slot.port() == Some(p) {
            assert(after.slots[k].port() == Some(p));
        } else if registry.holds_port(p) && registry.slots[k].port() != Some(p) {
            let i = choose|i: int| 0 <= i < registry.slots.len() && (#[trigger] registry.slots[i]).port() == Some(p);
            assert(after.slots[i].port() == Some(p));
        }
    }
    if slot.port() == registry.slots[k].port() {
        assert(after.ports =~= registry.ports) by {
            if slot.port() is Some {
                assert(registry.holds_port(slot.port()->Some_0));
            }
        }
    }
}

/// The projection of every registered instance is among the projections
/// of the registry.
pub proof fn lemma_infos_hold_registered(slots: Seq<SlotView>, k: int)
    requires
        0 <= k < slots.len(),
        slots[k] is Registered,
    ensures
        infos_of(slots).contains(slots[k]->Registered_0.info()),
    decreases slots.len(),
{
    let info = slots[k]->Registered_0.info();
    if k < slots.len() - 1 {
        lemma_infos_hold_registered(slots.drop_last(), k);
        let before = infos_of(slots.drop_last());
        let i = choose|i: int| 0 <= i < before.len() && before[i] == info;
        if slots.last() is Registered {
            assert(infos_of(slots)[i] == info);
        }
    } else {
        let after = infos_of(slots);
        assert(after[after.len() - 1] == info);
    }
}

/// Valid changes leave the identity of an instance alone and move its port
/// to none that another instance holds.
pub proof fn lemma_changes_keep_identity(
    config: crate::config::RestoreConfigView,
    changes: Seq<SettingChangeView>,
    taken: Set<u32>,
)
    requires
        all_valid(changes, config.port, taken),
    ensures
        apply_changes(config, changes).uuid == config.uuid,
        apply_changes(config, changes).path == config.path,
        apply_changes(config, changes).creation_time == config.creation_time,
        apply_changes(config, changes).port == config.port || !taken.contains(apply_changes(config, changes).port),
    decreases changes.len(),
{
    if changes.len() > 0 {
        let front = changes.drop_last();
        assert forall|i: int| 0 <= i < front.len() implies (#[trigger] front[i]).is_valid(config.port, taken) by {
            assert(front[i] == changes[i]);
        }
        lemma_changes_keep_identity(config, front, taken);
        assert(changes.last() == changes[changes.len() - 1]);
    }
}

/// What is done for an identity keeps the registry well formed: a
/// reservation that is given up, every step of a deletion, and a change
/// of settings.
pub proof fn lemma_operations_keep_wf(
    registry: RegistryView,
    uuid: Seq<char>,
    outcome: DeleteOutcome,
    changes: Seq<SettingChangeView>,
)
    requires
        registry.wf(),
    ensures
        registry.after_abandon(uuid).wf(),
        registry.slot(uuid) matches Some(SlotView::Reserved { .. }) ==> !registry.after_abandon(uuid).has(uuid),
        registry.after_delete(uuid, outcome).wf(),
        registry.after_delete(uuid, outcome).slot(uuid) == registry.slot_after_delete(uuid, outcome),
        registry.after_settings(uuid, changes).wf(),
        registry.knows(uuid) ==> registry.after_settings(uuid, changes).slot(uuid) == Some(
            SlotView::Registered(registry.instance(uuid).after_settings(changes, registry.ports)),
        ),
{
    if registry.has(uuid) {
        let k = registry.position(uuid);
        assert(registry.has_slot(uuid, k));
        lemma_remove_keeps_wf(registry, k);
        if registry.knows(uuid) {
            let held = registry.instance(uuid);
            let marked = SlotView::Registered(MinecraftInstanceView { deleting: true, ..held });
            let unmarked = SlotView::Registered(MinecraftInstanceView { deleting: false, ..held });
            let leaving = SlotView::Removing { uuid, path: held.config.path };
            lemma_replace_keeps_wf(registry, k, marked);
            lemma_position_is_unique(registry.replaced(k, marked), uuid, k);
            lemma_replace_keeps_wf(registry, k, unmarked);
            lemma_position_is_unique(registry.replaced(k, unmarked), uuid, k);
            lemma_replace_keeps_wf(registry, k, leaving);
            lemma_position_is_unique(registry.replaced(k, leaving), uuid, k);
            let changed = SlotView::Registered(held.after_settings(changes, registry.ports));
            if all_valid(changes, held.config.port, registry.ports) {
                lemma_changes_keep_identity(held.config, changes, registry.ports);
            }
            lemma_replace_keeps_wf(registry, k, changed);
            lemma_position_is_unique(registry.replaced(k, changed), uuid, k);
        }
    }
}

/// Registration keeps the registry well formed, and an instance that is
/// accepted is registered afterwards. So does whatever a registered
/// instance does with its process: a manager that takes the place of
/// another with the same identity and port disturbs neither the
/// identities nor the table of ports.
pub proof fn lemma_register_keeps_wf(registry: RegistryView, instance: MinecraftInstanceView)
    requires
        registry.wf(),
    ensures
        registry.after_register(instance).wf(),
        registry.register_error(instance) is None ==> registry.after_register(instance).knows(instance.config.uuid)
            && registry.after_register(instance).instance(instance.config.uuid) == instance,
        registry.knows(instance.config.uuid) && instance.config.port == registry.instance(
            instance.config.uuid,
        ).config.port ==> {
            &&& registry.with_instance(instance.config.uuid, instance).wf()
            &&& registry.with_instance(instance.config.uuid, instance).ports == registry.ports
            &&& registry.with_instance(instance.config.uuid, instance).slot(instance.config.uuid) == Some(
                SlotView::Registered(instance),
            )
        },
{
    let id = instance.config.uuid;
    if registry.has(id) {
        let k = registry.position(id);
        assert(registry.has_slot(id, k));
        if registry.register_error(instance) is None || registry.knows(id) && instance.config.port
            == registry.instance(id).config.port {
            lemma_replace_keeps_wf(registry, k, SlotView::Registered(instance));
            lemma_position_is_unique(registry.replaced(k, SlotView::Registered(instance)), id, k);
        }
    } else if registry.register_error(instance) is None {
        lemma_push_keeps_wf(registry, SlotView::Registered(instance));
        lemma_position_is_unique(registry.after_register(instance), id, registry.slots.len() as int);
    }
}

/// An instance whose identity and port are reserved is never refused:
/// what was promised to a creation when it began is still there when it
/// is done.
pub proof fn lemma_reserved_instance_is_accepted(registry: RegistryView, instance: MinecraftInstanceView)
    requires
        registry.wf(),
        registry.slot(instance.config.uuid) == Some(
            SlotView::Reserved { uuid: instance.config.uuid, port: instance.config.port },
        ),
    ensures
        registry.register_error(instance) is None,
        registry.after_register(instance).knows(instance.config.uuid),
        registry.after_register(instance).ports == registry.ports,
{
    let k = registry.position(instance.config.uuid);
    assert(registry.has_slot(instance.config.uuid, k));
    lemma_replace_keeps_wf(registry, k, SlotView::Registered(instance));
    lemma_position_is_unique(registry.after_register(instance), instance.config.uuid, k);
}

enum Slot {
    Reserved { uuid: InstanceUuid, port: u32 },
    Registered(MinecraftInstance),
    Removing { uuid: InstanceUuid, path: String },
}

impl View for Slot {
    type V = SlotView;

    closed spec fn view(&self) -> SlotView {
        match *self {
            Slot::Reserved { uuid, port } => SlotView::Reserved { uuid: uuid@, port },
            Slot::Registered(instance) => SlotView::Registered(instance@),
            Slot::Removing { uuid, path } => SlotView::Removing { uuid: uuid@, path: path@ },
        }
    }
}

struct Shelves {
    slots: Vec<Slot>,
    ports: PortManager,
}

impl View for Shelves {
    type V = RegistryView;

    closed spec fn view(&self) -> RegistryView {
        RegistryView { slots: Seq::new(self.slots@.len(), |i: int| self.slots@[i]@), ports: self.ports@ }
    }
}

impl Shelves {
    fn empty() -> (shelves: Shelves)
        ensures
            shelves@ == (RegistryView { slots: Seq::empty(), ports: Set::empty() }),
            shelves@.wf(),
    {
        let shelves = Shelves { slots: Vec::new(), ports: PortManager::new() };
        assert(shelves@.slots =~= Seq::<SlotView>::empty());
        assert(shelves@.identities() =~= Seq::<Seq<char>>::empty());
        shelves
    }

    fn exchange(&mut self, k: usize, slot: Slot) -> (previous: Slot)
        requires
            k < old(self).slots.len(),
        ensures
            previous@ == old(self)@.slots[k as int],
            final(self).slots.len() == old(self).slots.len(),
            final(self)@ == (RegistryView { slots: old(self)@.slots.update(k as int, slot@), ports: old(self)@.ports }),
    {
        let mut held = slot;
        std::mem::swap(&mut self.slots[k], &mut held);
        assert(self@.slots =~= old(self)@.slots.update(k as int, slot@));
        held
    }
}

fn single_event(event: Event) -> (events: Vec<Event>)
    ensures
        event_views(events@) == seq![event@],
{
    let mut events: Vec<Event> = Vec::new();
    events.push(event);
    events
}

fn not_found() -> (error: Error)
    ensures
        error@ == not_found_error(),
{
    Error::new(ErrorInner::NotFound, "Instance not found")
}

fn no_deletion() -> (error: Error)
    ensures
        error@ == no_deletion_error(),
{
    Error::new(ErrorInner::InvalidInstanceState, "No deletion of the instance is under way")
}

/// The registry of the instances of a host.
pub struct InstanceRegistry {
    shelves: Shelves,
}

impl View for InstanceRegistry {
    type V = RegistryView;

    closed spec fn view(&self) -> RegistryView {
        self.shelves@
    }
}

impl InstanceRegistry {
    /// What holds of every registry that a program can get hold of: it is
    /// well formed.
    #[verifier::type_invariant]
    pub open spec fn inv(self) -> bool {
        self@.wf()
    }

    /// A registry without slots or claimed ports.
    pub fn new() -> (registry: InstanceRegistry)
        ensures
            registry@ == (RegistryView { slots: Seq::empty(), ports: Set::empty() }),
            registry@.wf(),
    {
        InstanceRegistry { shelves: Shelves::empty() }
    }

    fn take_shelves(&mut self) -> (shelves: Shelves)
        ensures
            shelves@ == old(self)@,
            shelves.slots@ == old(self).shelves.slots@,
            shelves@.wf(),
            final(self)@.wf(),
    {
        proof {
            use_type_invariant(&*self);
        }
        let mut shelves = Shelves::empty();
        std::mem::swap(&mut self.shelves, &mut shelves);
        shelves
    }

    /// How many instances are registered.
    pub fn len(&self) -> (count: usize)
        ensures
            count == self@.infos().len(),
            self@.wf(),
    {
        proof {
            use_type_invariant(self);
        }
        let mut count: usize = 0;
        let mut i: usize = 0;
        assert(self@.slots.take(0) =~= Seq::<SlotView>::empty());
        while i < self.shelves.slots.len()
            invariant
                i <= self.shelves.slots.len(),
                count <= i,
                count == infos_of(self@.slots.take(i as int)).len(),
            decreases self.shelves.slots.len() - i,
        {
            proof {
                assert(self@.slots.take(i + 1).drop_last() =~= self@.slots.take(i as int));
            }
            match &self.shelves.slots[i] {
                Slot::Registered(_) => {
                    count = count + 1;
                },
                _ => {},
            }
            i = i + 1;
        }
        assert(self@.slots.take(self.shelves.slots.len() as int) =~= self@.slots);
        count
    }

    /// Whether nobody holds `port`.
    pub fn is_port_free(&self, port: u32) -> (free: bool)
        ensures
            free == !self@.ports.contains(port),
            free == !self@.holds_port(port),
    {
        proof {
            use_type_invariant(self);
        }
        self.shelves.ports.is_free(port)
    }

    fn find(&self, uuid: &InstanceUuid) -> (found: Option<usize>)
        ensures
            self@.wf(),
            match found {
                Some(k) => k < self.shelves.slots.len() && self@.has_slot(uuid@, k as int) && self@.position(uuid@) == k
                    && self@.slot(uuid@) == Some(self@.slots[k as int]),
                None => !self@.has(uuid@) && self@.slot(uuid@) is None,
            },
    {
        proof {
            use_type_invariant(self);
        }
        let mut i: usize = 0;
        while i < self.shelves.slots.len()
            invariant
                i <= self.shelves.slots.len(),
                self@.wf(),
                forall|j: int| 0 <= j < i ==> !self@.has_slot(uuid@, j),
            decreases self.shelves.slots.len() - i,
        {
            let same = match &self.shelves.slots[i] {
                Slot::Reserved { uuid: held, .. } => held.same_as(uuid),
                Slot::Registered(instance) => instance.config().uuid.same_as(uuid),
                Slot::Removing { uuid: held, .. } => held.same_as(uuid),
            };
            if same {
                proof {
                    lemma_position_is_unique(self@, uuid@, i as int);
                }
                return Some(i);
            }
            i = i + 1;
        }
        None
    }

    /// Whether an instance with the identity `uuid` is registered.
    pub fn contains(&self, uuid: &InstanceUuid) -> (known: bool)
        ensures
            known == self@.knows(uuid@),
    {
        self.instance(uuid).is_some()
    }

    /// The manager of the instance with the identity `uuid`.
    pub fn instance(&self, uuid: &InstanceUuid) -> (found: Option<&MinecraftInstance>)
        ensures
            match found {
                Some(instance) => self@.knows(uuid@) && instance@ == self@.instance(uuid@),
                None => !self@.knows(uuid@),
            },
    {
        match self.find(uuid) {
            Some(k) => match &self.shelves.slots[k] {
                Slot::Registered(instance) => Some(instance),
                _ => None,
            },
            None => None,
        }
    }

    fn all_identities(&self) -> (ids: Vec<InstanceUuid>)
        ensures
            id_texts(ids@) == self@.identities(),
    {
        let mut ids: Vec<InstanceUuid> = Vec::new();
        let mut i: usize = 0;
        while i < self.shelves.slots.len()
            invariant
                i <= self.shelves.slots.len(),
                ids.len() == i,
                forall|j: int| 0 <= j < i ==> ids@[j]@ == self@.slots[j].uuid(),
            decreases self.shelves.slots.len() - i,
        {
            let id = match &self.shelves.slots[i] {
                Slot::Reserved { uuid, .. } => uuid.clone(),
                Slot::Registered(instance) => instance.config().uuid.clone(),
                Slot::Removing { uuid, .. } => uuid.clone(),
            };
            ids.push(id);
            i = i + 1;
        }
        assert(id_texts(ids@) =~= self@.identities());
        ids
    }

    /// Reserves an identity and `port` for an instance that is to be
    /// created.
    ///
    /// The identity is the first of `candidates` whose prefix no identity
    /// in use has. Identity and port stay reserved until the instance is
    /// registered or the reservation is given up. A port that is held and
    /// candidates that all collide are refused, and nothing is reserved.
    pub fn reserve(&mut self, candidates: &Vec<InstanceUuid>, port: u32) -> (result: Result<InstanceUuid, Error>)
        ensures
            final(self)@.wf(),
            match result {
                Ok(id) => {
                    &&& old(self)@.reserve_error(id_texts(candidates@), port) is None
                    &&& !prefix_taken(old(self)@.identities(), id@)
                    &&& exists|k: int|
                        #[trigger] is_first_free(old(self)@.identities(), id_texts(candidates@), k) && id@
                            == candidates@[k]@
                    &&& final(self)@ == old(self)@.pushed(SlotView::Reserved { uuid: id@, port })
                    &&& final(self)@.slot(id@) == Some(SlotView::Reserved { uuid: id@, port })
                },
                Err(e) => {
                    &&& old(self)@.reserve_error(id_texts(candidates@), port) == Some(e@)
                    &&& final(self)@ == old(self)@
                },
            },
    {
        proof {
            use_type_invariant(&*self);
        }
        if !self.shelves.ports.is_free(port) {
            return Err(Error::new(ErrorInner::PortInUse, "port"));
        }
        let existing = self.all_identities();
        match select_identity(&existing, candidates) {
            Some(id) => {
                proof {
                    lemma_push_keeps_wf(self@, SlotView::Reserved { uuid: id@, port });
                    lemma_position_is_unique(
                        self@.pushed(SlotView::Reserved { uuid: id@, port }),
                        id@,
                        self@.slots.len() as int,
                    );
                    let k = choose|k: int|
                        #[trigger] is_first_free(id_texts(existing@), id_texts(candidates@), k) && id@
                            == candidates@[k]@;
                    assert(!prefix_taken(self@.identities(), id_texts(candidates@)[k]));
                }
                let mut shelves = self.take_shelves();
                shelves.slots.push(Slot::Reserved { uuid: id.clone(), port });
                shelves.ports.allocate_if_free(port);
                assert(shelves@.slots =~= old(self)@.slots.push(SlotView::Reserved { uuid: id@, port }));
                self.shelves = shelves;
                Ok(id)
            },
            None => Err(Error::new(ErrorInner::InternalError, "No free instance identity")),
        }
    }

    /// Gives up the reservation of `uuid`, if there is one: its identity
    /// and its port are free again.
    pub fn abandon(&mut self, uuid: &InstanceUuid)
        ensures
            final(self)@ == old(self)@.after_abandon(uuid@),
            final(self)@.wf(),
            old(self)@.slot(uuid@) matches Some(SlotView::Reserved { .. }) ==> final(self)@.slot(uuid@) is None,
    {
        proof {
            use_type_invariant(&*self);
            lemma_operations_keep_wf(self@, uuid@, DeleteOutcome::Requested, Seq::empty());
        }
        match self.find(uuid) {
            Some(k) => {
                let port = match &self.shelves.slots[k] {
                    Slot::Reserved { port, .. } => *port,
                    _ => {
                        return ;
                    },
                };
                proof {
                    lemma_remove_keeps_wf(self@, k as int);
                }
                let mut shelves = self.take_shelves();
                shelves.slots.remove(k);
                shelves.ports.release(port);
                assert(shelves@.slots =~= old(self)@.slots.remove(k as int));
                self.shelves = shelves;
            },
            None => {},
        }
    }

    /// Registers a provisioned or restored instance.
    ///
    /// An instance whose identity is reserved takes the place of its
    /// reservation, provided that it comes with the reserved port. Any
    /// other instance joins the registry behind what is there, provided
    /// that its identity collides with none in use and nobody holds its
    /// port, which is claimed. An instance that is refused changes
    /// nothing.
    pub fn register(&mut self, instance: MinecraftInstance) -> (result: Result<(), Error>)
        ensures
            final(self)@ == old(self)@.after_register(instance@),
            final(self)@.wf(),
            match result {
                Ok(_) => old(self)@.register_error(instance@) is None && final(self)@.slot(instance@.config.uuid)
                    == Some(SlotView::Registered(instance@)),
                Err(e) => old(self)@.register_error(instance@) == Some(e@),
            },
    {
        proof {
            use_type_invariant(&*self);
            lemma_register_keeps_wf(self@, instance@);
        }
        let uuid = instance.config().uuid.clone();
        let port = instance.config().port;
        match self.find(&uuid) {
            Some(k) => {
                let reserved = match &self.shelves.slots[k] {
                    Slot::Reserved { port: held, .. } => Some(*held),
                    _ => None,
                };
                match reserved {
                    Some(held) => {
                        if held != port {
                            return Err(Error::new(ErrorInner::PortInUse, "port"));
                        }
                        proof {
                            lemma_replace_keeps_wf(self@, k as int, SlotView::Registered(instance@));
                        }
                        let mut shelves = self.take_shelves();
                        let _ = shelves.exchange(k, Slot::Registered(instance));
                        self.shelves = shelves;
                        Ok(())
                    },
                    None => Err(Error::new(ErrorInner::InternalError, "Instance identity is in use")),
                }
            },
            None => {
                let existing = self.all_identities();
                if prefix_in_use(&existing, &uuid) {
                    return Err(Error::new(ErrorInner::InternalError, "Instance identity is in use"));
                }
                if !self.shelves.ports.is_free(port) {
                    return Err(Error::new(ErrorInner::PortInUse, "port"));
                }
                let mut shelves = self.take_shelves();
                shelves.slots.push(Slot::Registered(instance));
                shelves.ports.allocate_if_free(port);
                assert(shelves@.slots =~= old(self)@.slots.push(SlotView::Registered(instance@)));
                self.shelves = shelves;
                Ok(())
            },
        }
    }

    /// Moves the deletion of the instance `uuid` on by one step.
    ///
    /// A deletion is asked for, then the configuration file is removed,
    /// then the rest of the directory; each outcome is reported here, and
    /// the registry remembers how far a deletion has come. Asking marks
    /// the instance, which has to be stopped and stays so. The removal of
    /// the configuration file is the point of no return: with it the
    /// instance leaves the registry and its port is free, whatever
    /// becomes of the rest of the directory. A step that does not fit how
    /// far the deletion has come is refused and changes nothing.
    pub fn delete_instance(
        &mut self,
        uuid: &InstanceUuid,
        outcome: DeleteOutcome,
        event_id: Snowflake,
        caused_by: CausedBy,
    ) -> (result: Result<DeleteStep, Error>)
        ensures
            final(self)@ == old(self)@.after_delete(uuid@, outcome),
            final(self)@.wf(),
            final(self)@.slot(uuid@) == old(self)@.slot_after_delete(uuid@, outcome),
            match result {
                Ok(step) => {
                    &&& old(self)@.delete_error(uuid@, outcome) is None
                    &&& step.action == RegistryView::delete_action(outcome)
                    &&& step.path@ == old(self)@.delete_path(uuid@, outcome)
                    &&& event_views(step.events@) == old(self)@.delete_events(uuid@, outcome, event_id, caused_by@)
                },
                Err(e) => old(self)@.delete_error(uuid@, outcome) == Some(e@),
            },
    {
        proof {
            use_type_invariant(&*self);
            lemma_operations_keep_wf(self@, uuid@, outcome, Seq::empty());
        }
        let k = match self.find(uuid) {
            Some(k) => k,
            None => {
                return Err(not_found());
            },
        };
        let mut shelves = self.take_shelves();
        let held = shelves.exchange(k, Slot::Removing { uuid: uuid.clone(), path: String::new() });
        match held {
            Slot::Registered(mut instance) => {
                let path = instance.config().path.clone();
                let port = instance.config().port;
                match outcome {
                    DeleteOutcome::Requested => {
                        let mut name = String::from_str("Deleting instance ");
                        name.append(instance.config().name.as_str());
                        let marked = instance.begin_deletion();
                        proof {
                            lemma_replace_keeps_wf(old(self)@, k as int, SlotView::Registered(instance@));
                        }
                        let _ = shelves.exchange(k, Slot::Registered(instance));
                        assert(shelves@.slots =~= old(self)@.after_delete(uuid@, outcome).slots);
                        self.shelves = shelves;
                        match marked {
                            Ok(_) => {
                                let events = single_event(
                                    Event::progression_start(
                                        event_id,
                                        name,
                                        Some(uuid.clone()),
                                        Some(TOTAL_PROGRESS),
                                        None,
                                        caused_by,
                                    ),
                                );
                                Ok(DeleteStep { action: DeleteAction::RemoveConfigFile, path, events })
                            },
                            Err(e) => Err(e),
                        }
                    },
                    DeleteOutcome::ConfigRemoved => {
                        if !instance.is_deleting() {
                            let _ = shelves.exchange(k, Slot::Registered(instance));
                            assert(shelves@.slots =~= old(self)@.slots);
                            self.shelves = shelves;
                            return Err(no_deletion());
                        }
                        let _ = shelves.exchange(k, Slot::Removing { uuid: uuid.clone(), path: path.clone() });
                        shelves.ports.release(port);
                        assert(shelves@.slots =~= old(self)@.after_delete(uuid@, outcome).slots);
                        self.shelves = shelves;
                        Ok(DeleteStep { action: DeleteAction::RemoveDirectory, path, events: Vec::new() })
                    },
                    DeleteOutcome::ConfigNotRemoved => {
                        if !instance.is_deleting() {
                            let _ = shelves.exchange(k, Slot::Registered(instance));
                            assert(shelves@.slots =~= old(self)@.slots);
                            self.shelves = shelves;
                            return Err(no_deletion());
                        }
                        instance.cancel_deletion();
                        proof {
                            lemma_replace_keeps_wf(old(self)@, k as int, SlotView::Registered(instance@));
                        }
                        let _ = shelves.exchange(k, Slot::Registered(instance));
                        assert(shelves@.slots =~= old(self)@.after_delete(uuid@, outcome).slots);
                        self.shelves = shelves;
                        let events = single_event(
                            Event::progression_end(
                                event_id,
                                false,
                                Some(String::from_str("Failed to delete .lodestone_config. Instance not deleted")),
                                None,
                                caused_by,
                            ),
                        );
                        Ok(DeleteStep { action: DeleteAction::Nothing, path, events })
                    },
                    _ => {
                        let _ = shelves.exchange(k, Slot::Registered(instance));
                        assert(shelves@.slots =~= old(self)@.slots);
                        self.shelves = shelves;
                        Err(no_deletion())
                    },
                }
            },
            Slot::Removing { uuid: held_uuid, path } => {
                match outcome {
                    DeleteOutcome::DirectoryRemoved => {
                        let ghost held_slots = shelves@.slots;
                        shelves.slots.remove(k);
                        assert(shelves@.slots =~= held_slots.remove(k as int));
                        assert(held_slots.remove(k as int) =~= old(self)@.slots.remove(k as int));
                        self.shelves = shelves;
                        let events = single_event(
                            Event::progression_end(
                                event_id,
                                true,
                                Some(String::from_str("Deleted instance")),
                                Some(ProgressionEndValue::InstanceDelete { instance_uuid: held_uuid }),
                                caused_by,
                            ),
                        );
                        Ok(DeleteStep { action: DeleteAction::Nothing, path, events })
                    },
                    DeleteOutcome::DirectoryNotRemoved => {
                        let ghost held_slots = shelves@.slots;
                        shelves.slots.remove(k);
                        assert(shelves@.slots =~= held_slots.remove(k as int));
                        assert(held_slots.remove(k as int) =~= old(self)@.slots.remove(k as int));
                        self.shelves = shelves;
                        let events = single_event(
                            Event::progression_end(
                                event_id,
                                false,
                                Some(String::from_str("Could not delete some or all of instance's files")),
                                None,
                                caused_by,
                            ),
                        );
                        Ok(DeleteStep { action: DeleteAction::Nothing, path, events })
                    },
                    _ => {
                        let _ = shelves.exchange(k, Slot::Removing { uuid: held_uuid, path });
                        assert(shelves@.slots =~= old(self)@.slots);
                        self.shelves = shelves;
                        Err(not_found())
                    },
                }
            },
            Slot::Reserved { uuid: held_uuid, port } => {
                let _ = shelves.exchange(k, Slot::Reserved { uuid: held_uuid, port });
                assert(shelves@.slots =~= old(self)@.slots);
                self.shelves = shelves;
                match outcome {
                    DeleteOutcome::DirectoryRemoved => Err(no_deletion()),
                    DeleteOutcome::DirectoryNotRemoved => Err(no_deletion()),
                    _ => Err(not_found()),
                }
            },
        }
    }

    /// The projection of the instance with the identity `uuid`.
    pub fn get_instance_info(&self, uuid: &InstanceUuid) -> (result: Result<InstanceInfo, Error>)
        ensures
            match result {
                Ok(info) => self@.knows(uuid@) && info@ == self@.instance(uuid@).info(),
                Err(e) => !self@.knows(uuid@) && e@ == not_found_error(),
            },
    {
        match self.instance(uuid) {
            Some(instance) => Ok(instance.get_instance_info()),
            None => Err(not_found()),
        }
    }

    /// The projections of all registered instances, by ascending creation
    /// time. Instances of the same creation time come in the order in
    /// which their identities came into use.
    pub fn get_instance_list(&self) -> (list: Vec<InstanceInfo>)
        ensures
            info_views(list@) == by_creation(self@.infos()),
            list.len() == self@.infos().len(),
    {
        let mut infos: Vec<InstanceInfo> = Vec::new();
        let mut i: usize = 0;
        assert(self@.slots.take(0) =~= Seq::<SlotView>::empty());
        while i < self.shelves.slots.len()
            invariant
                i <= self.shelves.slots.len(),
                info_views(infos@) == infos_of(self@.slots.take(i as int)),
            decreases self.shelves.slots.len() - i,
        {
            proof {
                assert(self@.slots.take(i + 1).drop_last() =~= self@.slots.take(i as int));
            }
            let ghost before = info_views(infos@);
            match &self.shelves.slots[i] {
                Slot::Registered(instance) => {
                    let info = instance.get_instance_info();
                    infos.push(info);
                    assert(info_views(infos@) =~= before.push(info@));
                },
                _ => {},
            }
            i = i + 1;
        }
        assert(self@.slots.take(self.shelves.slots.len() as int) =~= self@.slots);
        sort_by_creation_time(&infos)
    }

    /// Asks the instance `uuid` to start; see `MinecraftInstance::start`.
    /// An identity that is not registered is refused and changes nothing.
    pub fn start(&mut self, uuid: &InstanceUuid, runtime_found: bool, binary_found: bool) -> (result: Result<
        Transition,
        Error,
    >)
        ensures
            final(self)@.wf(),
            !old(self)@.knows(uuid@) ==> final(self)@ == old(self)@ && result is Err && result->Err_0@
                == not_found_error(),
            old(self)@.knows(uuid@) ==> {
                &&& final(self)@ == old(self)@.with_instance(
                    uuid@,
                    old(self)@.instance(uuid@).after_start(runtime_found, binary_found),
                )
                &&& old(self)@.instance(uuid@).start_answer(runtime_found, binary_found, result)
                &&& final(self)@.slot(uuid@) == Some(SlotView::Registered(old(self)@.instance(uuid@).after_start(runtime_found, binary_found)))
            },
    {
        let (k, mut shelves, mut instance) = match self.take_instance(uuid) {
            Some(taken) => taken,
            None => {
                return Err(not_found());
            },
        };
        let result = instance.start(runtime_found, binary_found);
        self.put_instance(shelves, k, instance, Ghost(old(self)@));
        result
    }

    /// Asks the instance `uuid` to stop; see `MinecraftInstance::stop`.
    /// An identity that is not registered is refused and changes nothing.
    pub fn stop(&mut self, uuid: &InstanceUuid, graceful: bool) -> (result: Result<Transition, Error>)
        ensures
            final(self)@.wf(),
            !old(self)@.knows(uuid@) ==> final(self)@ == old(self)@ && result is Err && result->Err_0@
                == not_found_error(),
            old(self)@.knows(uuid@) ==> {
                &&& final(self)@ == old(self)@.with_instance(uuid@, old(self)@.instance(uuid@).after_stop())
                &&& old(self)@.instance(uuid@).stop_answer(graceful, result)
                &&& final(self)@.slot(uuid@) == Some(SlotView::Registered(old(self)@.instance(uuid@).after_stop()))
            },
    {
        let (k, mut shelves, mut instance) = match self.take_instance(uuid) {
            Some(taken) => taken,
            None => {
                return Err(not_found());
            },
        };
        let result = instance.stop(graceful);
        self.put_instance(shelves, k, instance, Ghost(old(self)@));
        result
    }

    /// Passes a report of its process to the instance `uuid`; see
    /// `MinecraftInstance::report`. An identity that is not registered is
    /// refused and changes nothing.
    pub fn report(&mut self, uuid: &InstanceUuid, report: ProcessEvent) -> (result: Result<Transition, Error>)
        ensures
            final(self)@.wf(),
            !old(self)@.knows(uuid@) ==> final(self)@ == old(self)@ && result is Err && result->Err_0@
                == not_found_error(),
            old(self)@.knows(uuid@) ==> {
                &&& final(self)@ == old(self)@.with_instance(uuid@, old(self)@.instance(uuid@).after_report(report))
                &&& old(self)@.instance(uuid@).report_answer(report, result)
                &&& final(self)@.slot(uuid@) == Some(SlotView::Registered(old(self)@.instance(uuid@).after_report(report)))
            },
    {
        let (k, mut shelves, mut instance) = match self.take_instance(uuid) {
            Some(taken) => taken,
            None => {
                return Err(not_found());
            },
        };
        let result = instance.report(report);
        self.put_instance(shelves, k, instance, Ghost(old(self)@));
        result
    }

    /// Tells the instance `uuid` that its process has ended; see
    /// `MinecraftInstance::process_ended`, which decides whether that was
    /// the awaited exit or a crash. An identity that is not registered is
    /// refused and changes nothing.
    pub fn process_ended(&mut self, uuid: &InstanceUuid) -> (result: Result<Transition, Error>)
        ensures
            final(self)@.wf(),
            !old(self)@.knows(uuid@) ==> final(self)@ == old(self)@ && result is Err && result->Err_0@
                == not_found_error(),
            old(self)@.knows(uuid@) ==> {
                let instance = old(self)@.instance(uuid@);
                &&& final(self)@ == old(self)@.with_instance(uuid@, instance.after_report(instance.ended_report()))
                &&& instance.report_answer(instance.ended_report(), result)
                &&& result is Ok
                &&& final(self)@.slot(uuid@) == Some(
                    SlotView::Registered(instance.after_report(instance.ended_report())),
                )
            },
    {
        let (k, mut shelves, mut instance) = match self.take_instance(uuid) {
            Some(taken) => taken,
            None => {
                return Err(not_found());
            },
        };
        let result = instance.process_ended();
        self.put_instance(shelves, k, instance, Ghost(old(self)@));
        result
    }

    /// Clears a command for the command channel of the instance `uuid`;
    /// see `MinecraftInstance::send_rcon`.
    pub fn send_command(&self, uuid: &InstanceUuid, text: &str) -> (result: Result<CommandRequest, Error>)
        ensures
            !self@.knows(uuid@) ==> result is Err && result->Err_0@ == not_found_error(),
            self@.knows(uuid@) ==> self@.instance(uuid@).command_answer(text@, result),
    {
        match self.instance(uuid) {
            None => Err(not_found()),
            Some(instance) => instance.send_rcon(text),
        }
    }

    /// Records what came of a command of the instance `uuid`; see
    /// `MinecraftInstance::command_finished`. Nothing changes if the
    /// identity is not registered.
    pub fn command_finished(&mut self, uuid: &InstanceUuid, delivered: bool)
        ensures
            final(self)@.wf(),
            !old(self)@.knows(uuid@) ==> final(self)@ == old(self)@,
            old(self)@.knows(uuid@) ==> final(self)@ == old(self)@.with_instance(
                uuid@,
                old(self)@.instance(uuid@).after_command(delivered),
            ) && final(self)@.slot(uuid@) == Some(
                SlotView::Registered(old(self)@.instance(uuid@).after_command(delivered)),
            ),
    {
        let (k, mut shelves, mut instance) = match self.take_instance(uuid) {
            Some(taken) => taken,
            None => {
                return ;
            },
        };
        instance.command_finished(delivered);
        self.put_instance(shelves, k, instance, Ghost(old(self)@));
    }

    /// Changes the settings of the instance `uuid`; see
    /// `MinecraftInstance::update_settings`. The changes are checked
    /// against the ports that are held, and the table of ports follows
    /// the instance to its new port. An identity that is not registered is
    /// refused and changes nothing.
    pub fn update_settings(&mut self, uuid: &InstanceUuid, changes: &Vec<SettingChange>) -> (result: Result<
        Vec<BackupInstruction>,
        Error,
    >)
        ensures
            final(self)@.wf(),
            final(self)@ == old(self)@.after_settings(uuid@, change_views(changes@)),
            old(self)@.knows(uuid@) ==> final(self)@.slot(uuid@) == Some(
                SlotView::Registered(old(self)@.instance(uuid@).after_settings(change_views(changes@), old(self)@.ports)),
            ),
            !old(self)@.knows(uuid@) ==> result is Err && result->Err_0@ == not_found_error(),
            old(self)@.knows(uuid@) ==> old(self)@.instance(uuid@).settings_answer(
                change_views(changes@),
                old(self)@.ports,
                result,
            ),
    {
        proof {
            use_type_invariant(&*self);
            lemma_operations_keep_wf(self@, uuid@, DeleteOutcome::Requested, change_views(changes@));
        }
        let (k, mut shelves, mut instance) = match self.take_instance(uuid) {
            Some(taken) => taken,
            None => {
                return Err(not_found());
            },
        };
        let old_port = instance.config().port;
        let result = instance.update_settings(changes, &shelves.ports);
        let new_port = instance.config().port;
        shelves.ports.release(old_port);
        shelves.ports.allocate_if_free(new_port);
        let _ = shelves.exchange(k, Slot::Registered(instance));
        proof {
            let want = old(self)@.after_settings(uuid@, change_views(changes@));
            assert(shelves@.slots =~= want.slots);
            assert(shelves@.ports =~= want.ports);
        }
        self.shelves = shelves;
        result
    }

    fn take_instance(&mut self, uuid: &InstanceUuid) -> (taken: Option<(usize, Shelves, MinecraftInstance)>)
        ensures
            final(self)@.wf(),
            match taken {
                Some((k, shelves, instance)) => {
                    &&& old(self)@.wf()
                    &&& old(self)@.knows(uuid@)
                    &&& old(self)@.position(uuid@) == k
                    &&& instance@ == old(self)@.instance(uuid@)
                    &&& k < shelves.slots.len()
                    &&& shelves@.ports == old(self)@.ports
                    &&& shelves@.slots == old(self)@.slots.update(
                        k as int,
                        SlotView::Removing { uuid: uuid@, path: Seq::empty() },
                    )
                },
                None => !old(self)@.knows(uuid@) && final(self)@ == old(self)@,
            },
    {
        let k = match self.find(uuid) {
            Some(k) => k,
            None => {
                return None;
            },
        };
        match &self.shelves.slots[k] {
            Slot::Registered(_) => {},
            _ => {
                return None;
            },
        }
        let mut shelves = self.take_shelves();
        let held = shelves.exchange(k, Slot::Removing { uuid: uuid.clone(), path: String::new() });
        match held {
            Slot::Registered(instance) => Some((k, shelves, instance)),
            other => {
                let _ = shelves.exchange(k, other);
                assert(shelves@.slots =~= old(self)@.slots);
                self.shelves = shelves;
                None
            },
        }
    }

    fn put_instance(&mut self, shelves: Shelves, k: usize, instance: MinecraftInstance, Ghost(before): Ghost<RegistryView>)
        requires
            before.wf(),
            k < shelves.slots.len(),
            shelves@.ports == before.ports,
            shelves@.slots.len() == before.slots.len(),
            shelves@.slots.update(k as int, before.slots[k as int]) =~= before.slots,
            before.slots[k as int] matches SlotView::Registered(held) && held.config.uuid == instance@.config.uuid
                && held.config.port == instance@.config.port,
        ensures
            final(self)@ == before.replaced(k as int, SlotView::Registered(instance@)),
            final(self)@.wf(),
            final(self)@.slot(instance@.config.uuid) == Some(SlotView::Registered(instance@)),
    {
        proof {
            lemma_replace_keeps_wf(before, k as int, SlotView::Registered(instance@));
            lemma_position_is_unique(
                before.replaced(k as int, SlotView::Registered(instance@)),
                instance@.config.uuid,
                k as int,
            );
        }
        let mut shelves = shelves;
        let _ = shelves.exchange(k, Slot::Registered(instance));
        assert(shelves@.slots =~= before.slots.update(k as int, SlotView::Registered(instance@)));
        self.shelves = shelves;
    }
}

} // verus!
