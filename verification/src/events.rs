//! The notifications that the manager hands to the event bus.
//!
//! Events are plain values. The functions of this crate return them in the
//! order in which they are to be published; publishing is up to the caller.

use vstd::prelude::*;
use vstd::string::*;
use crate::config::opt_text;
use crate::identity::InstanceUuid;
use crate::info::{InstanceInfo, InstanceInfoView};
use crate::lifecycle::State;

verus! {

/// The number by which the events of one operation are told from those of
/// another.
#[derive(Debug, Clone, Copy, PartialEq, Eq, Structural)]
pub struct Snowflake(pub i64);

/// Who set off what an event reports.
#[derive(Debug)]
pub enum CausedBy {
    User { user_id: String, user_name: String },
    System,
    Unknown,
}

/// A cause as a mathematical value.
pub enum CausedByView {
    User { user_id: Seq<char>, user_name: Seq<char> },
    System,
    Unknown,
}

impl View for CausedBy {
    type V = CausedByView;

    open spec fn view(&self) -> CausedByView {
        match *self {
            CausedBy::User { user_id, user_name } => CausedByView::User {
                user_id: user_id@,
                user_name: user_name@,
            },
            CausedBy::System => CausedByView::System,
            CausedBy::Unknown => CausedByView::Unknown,
        }
    }
}

impl Clone for CausedBy {
    fn clone(&self) -> (copy: CausedBy)
        ensures
            copy@ == self@,
    {
        match self {
            CausedBy::User { user_id, user_name } => CausedBy::User {
                user_id: user_id.clone(),
                user_name: user_name.clone(),
            },
            CausedBy::System => CausedBy::System,
            CausedBy::Unknown => CausedBy::Unknown,
        }
    }
}

/// The thousandths that make up one unit of progress.
pub const THOUSANDTHS: u32 = 1000;

/// How far a progression has come: the units reached so far, counted in
/// thousandths of a unit.
#[derive(Debug, Clone, Copy, PartialEq, Eq, Structural)]
pub struct Progress {
    pub thousandths: u32,
}

impl Progress {
    /// The progress of `units` whole units.
    pub open spec fn units(units: u32) -> Progress {
        Progress { thousandths: (units * THOUSANDTHS) as u32 }
    }
}

/// What a start event tells about the operation that begins.
#[derive(Debug)]
pub enum ProgressionStartValue {
    InstanceCreation {
        instance_uuid: InstanceUuid,
        instance_name: String,
        port: u32,
        flavour: String,
        game_type: String,
    },
}

/// A start payload as a mathematical value.
pub enum ProgressionStartValueView {
    InstanceCreation {
        instance_uuid: Seq<char>,
        instance_name: Seq<char>,
        port: u32,
        flavour: Seq<char>,
        game_type: Seq<char>,
    },
}

impl View for ProgressionStartValue {
    type V = ProgressionStartValueView;

    open spec fn view(&self) -> ProgressionStartValueView {
        match *self {
            ProgressionStartValue::InstanceCreation {
                instance_uuid,
                instance_name,
                port,
                flavour,
                game_type,
            } => ProgressionStartValueView::InstanceCreation {
                instance_uuid: instance_uuid@,
                instance_name: instance_name@,
                port,
                flavour: flavour@,
                game_type: game_type@,
            },
        }
    }
}

/// What an end event tells about the operation that is over.
#[derive(Debug)]
pub enum ProgressionEndValue {
    InstanceCreation(InstanceInfo),
    InstanceDelete { instance_uuid: InstanceUuid },
}

/// An end payload as a mathematical value.
pub enum ProgressionEndValueView {
    InstanceCreation(InstanceInfoView),
    InstanceDelete { instance_uuid: Seq<char> },
}

impl View for ProgressionEndValue {
    type V = ProgressionEndValueView;

    open spec fn view(&self) -> ProgressionEndValueView {
        match *self {
            ProgressionEndValue::InstanceCreation(info) => ProgressionEndValueView::InstanceCreation(info@),
            ProgressionEndValue::InstanceDelete { instance_uuid } => ProgressionEndValueView::InstanceDelete {
                instance_uuid: instance_uuid@,
            },
        }
    }
}

/// The phase of a long-running operation that an event reports.
#[derive(Debug)]
#[allow(inconsistent_fields)]
pub enum ProgressionEventInner {
    ProgressionStart {
        progression_name: String,
        producer_id: Option<InstanceUuid>,
        total: Option<u32>,
        inner: Option<ProgressionStartValue>,
    },
    ProgressionUpdate { progress: Progress, progress_message: String },
    ProgressionEnd { success: bool, message: Option<String>, inner: Option<ProgressionEndValue> },
}

/// A phase as a mathematical value.
#[allow(inconsistent_fields)]
pub enum ProgressionEventInnerView {
    ProgressionStart {
        progression_name: Seq<char>,
        producer_id: Option<Seq<char>>,
        total: Option<u32>,
        inner: Option<ProgressionStartValueView>,
    },
    ProgressionUpdate { progress: Progress, progress_message: Seq<char> },
    ProgressionEnd { success: bool, message: Option<Seq<char>>, inner: Option<ProgressionEndValueView> },
}

impl View for ProgressionEventInner {
    type V = ProgressionEventInnerView;

    open spec fn view(&self) -> ProgressionEventInnerView {
        match *self {
            ProgressionEventInner::ProgressionStart {
                progression_name,
                producer_id,
                total,
                inner,
            } => ProgressionEventInnerView::ProgressionStart {
                progression_name: progression_name@,
                producer_id: match producer_id {
                    Some(id) => Some(id@),
                    None => None,
                },
                total,
                inner: match inner {
                    Some(v) => Some(v@),
                    None => None,
                },
            },
            ProgressionEventInner::ProgressionUpdate {
                progress,
                progress_message,
            } => ProgressionEventInnerView::ProgressionUpdate { progress, progress_message: progress_message@ },
            ProgressionEventInner::ProgressionEnd {
                success,
                message,
                inner,
            } => ProgressionEventInnerView::ProgressionEnd {
                success,
                message: opt_text(message),
                inner: match inner {
                    Some(v) => Some(v@),
                    None => None,
                },
            },
        }
    }
}

/// One report on a long-running operation.
#[derive(Debug)]
pub struct ProgressionEvent {
    pub event_id: Snowflake,
    pub progression_event_inner: ProgressionEventInner,
}

/// What happened to an instance.
#[derive(Debug, Clone, Copy, PartialEq, Eq, Structural)]
pub enum InstanceEventInner {
    StateTransition { to: State },
}

/// One report on an instance.
#[derive(Debug)]
pub struct InstanceEvent {
    pub instance_uuid: InstanceUuid,
    pub instance_name: String,
    pub instance_event_inner: InstanceEventInner,
}

/// The body of an event.
#[derive(Debug)]
pub enum EventInner {
    InstanceEvent(InstanceEvent),
    ProgressionEvent(ProgressionEvent),
}

/// A body as a mathematical value.
pub enum EventInnerView {
    InstanceEvent { instance_uuid: Seq<char>, instance_name: Seq<char>, instance_event_inner: InstanceEventInner },
    ProgressionEvent { event_id: Snowflake, progression_event_inner: ProgressionEventInnerView },
}

impl View for EventInner {
    type V = EventInnerView;

    open spec fn view(&self) -> EventInnerView {
        match *self {
            EventInner::InstanceEvent(e) => EventInnerView::InstanceEvent {
                instance_uuid: e.instance_uuid@,
                instance_name: e.instance_name@,
                instance_event_inner: e.instance_event_inner,
            },
            EventInner::ProgressionEvent(e) => EventInnerView::ProgressionEvent {
                event_id: e.event_id,
                progression_event_inner: e.progression_event_inner@,
            },
        }
    }
}

/// A notification for the event bus.
#[derive(Debug)]
pub struct Event {
    pub event_inner: EventInner,
    pub details: String,
    pub caused_by: CausedBy,
}

/// An event as a mathematical value.
pub struct EventView {
    pub event_inner: EventInnerView,
    pub details: Seq<char>,
    pub caused_by: CausedByView,
}

impl View for Event {
    type V = EventView;

    open spec fn view(&self) -> EventView {
        EventView { event_inner: self.event_inner@, details: self.details@, caused_by: self.caused_by@ }
    }
}

/// The events of `events` as mathematical values, in order.
pub open spec fn event_views(events: Seq<Event>) -> Seq<EventView> {
    Seq::new(events.len(), |i: int| events[i]@)
}

impl EventView {
    /// The event that opens a progression.
    pub open spec fn start(
        event_id: Snowflake,
        progression_name: Seq<char>,
        producer_id: Option<Seq<char>>,
        total: Option<u32>,
        inner: Option<ProgressionStartValueView>,
        caused_by: CausedByView,
    ) -> EventView {
        EventView {
            event_inner: EventInnerView::ProgressionEvent {
                event_id,
                progression_event_inner: ProgressionEventInnerView::ProgressionStart {
                    progression_name,
                    producer_id,
                    total,
                    inner,
                },
            },
            details: Seq::empty(),
            caused_by,
        }
    }

    /// The event that moves a progression on. Its cause is unknown.
    pub open spec fn update(event_id: Snowflake, progress: Progress, progress_message: Seq<char>) -> EventView {
        EventView {
            event_inner: EventInnerView::ProgressionEvent {
                event_id,
                progression_event_inner: ProgressionEventInnerView::ProgressionUpdate {
                    progress,
                    progress_message,
                },
            },
            details: Seq::empty(),
            caused_by: CausedByView::Unknown,
        }
    }

    /// The event that closes a progression.
    pub open spec fn end(
        event_id: Snowflake,
        success: bool,
        message: Option<Seq<char>>,
        inner: Option<ProgressionEndValueView>,
        caused_by: CausedByView,
    ) -> EventView {
        EventView {
            event_inner: EventInnerView::ProgressionEvent {
                event_id,
                progression_event_inner: ProgressionEventInnerView::ProgressionEnd { success, message, inner },
            },
            details: Seq::empty(),
            caused_by,
        }
    }

    /// The event that reports the new state of an instance.
    pub open spec fn state_transition(instance_uuid: Seq<char>, instance_name: Seq<char>, to: State) -> EventView {
        EventView {
            event_inner: EventInnerView::InstanceEvent {
                instance_uuid,
                instance_name,
                instance_event_inner: InstanceEventInner::StateTransition { to },
            },
            details: Seq::empty(),
            caused_by: CausedByView::Unknown,
        }
    }

    /// The progression that the event belongs to, if it reports on one.
    pub open spec fn progression_id(self) -> Option<Snowflake> {
        match self.event_inner {
            EventInnerView::ProgressionEvent { event_id, .. } => Some(event_id),
            _ => None,
        }
    }

    /// Whether the event closes a progression.
    pub open spec fn is_end(self) -> bool {
        self.event_inner matches EventInnerView::ProgressionEvent { progression_event_inner, .. }
            && progression_event_inner is ProgressionEnd
    }

    /// The progress that the event reports, if it is an update.
    pub open spec fn progress(self) -> Option<Progress> {
        match self.event_inner {
            EventInnerView::ProgressionEvent {
                progression_event_inner: ProgressionEventInnerView::ProgressionUpdate { progress, .. },
                ..
            } => Some(progress),
            _ => None,
        }
    }

    /// Whether the event opens a progression.
    pub open spec fn is_start(self) -> bool {
        self.event_inner matches EventInnerView::ProgressionEvent { progression_event_inner, .. }
            && progression_event_inner is ProgressionStart
    }
}

impl Event {
    /// Makes the event that opens a progression.
    pub fn progression_start(
        event_id: Snowflake,
        progression_name: String,
        producer_id: Option<InstanceUuid>,
        total: Option<u32>,
        inner: Option<ProgressionStartValue>,
        caused_by: CausedBy,
    ) -> (event: Event)
        ensures
            event@ == EventView::start(
                event_id,
                progression_name@,
                match producer_id {
                    Some(id) => Some(id@),
                    None => None,
                },
                total,
                match inner {
                    Some(v) => Some(v@),
                    None => None,
                },
                caused_by@,
            ),
    {
        Event {
            event_inner: EventInner::ProgressionEvent(
                ProgressionEvent {
                    event_id,
                    progression_event_inner: ProgressionEventInner::ProgressionStart {
                        progression_name,
                        producer_id,
                        total,
                        inner,
                    },
                },
            ),
            details: String::new(),
            caused_by,
        }
    }

    /// Makes the event that moves a progression on.
    pub fn progression_update(event_id: Snowflake, progress: Progress, progress_message: String) -> (event: Event)
        ensures
            event@ == EventView::update(event_id, progress, progress_message@),
    {
        Event {
            event_inner: EventInner::ProgressionEvent(
                ProgressionEvent {
                    event_id,
                    progression_event_inner: ProgressionEventInner::ProgressionUpdate {
                        progress,
                        progress_message,
                    },
                },
            ),
            details: String::new(),
            caused_by: CausedBy::Unknown,
        }
    }

    /// Makes the event that closes a progression.
    pub fn progression_end(
        event_id: Snowflake,
        success: bool,
        message: Option<String>,
        inner: Option<ProgressionEndValue>,
        caused_by: CausedBy,
    ) -> (event: Event)
        ensures
            event@ == EventView::end(
                event_id,
                success,
                opt_text(message),
                match inner {
                    Some(v) => Some(v@),
                    None => None,
                },
                caused_by@,
            ),
    {
        Event {
            event_inner: EventInner::ProgressionEvent(
                ProgressionEvent {
                    event_id,
                    progression_event_inner: ProgressionEventInner::ProgressionEnd { success, message, inner },
                },
            ),
            details: String::new(),
            caused_by,
        }
    }

    /// Makes the event that reports the new state of an instance.
    pub fn state_transition(instance_uuid: InstanceUuid, instance_name: String, to: State) -> (event: Event)
        ensures
            event@ == EventView::state_transition(instance_uuid@, instance_name@, to),
    {
        Event {
            event_inner: EventInner::InstanceEvent(
                InstanceEvent {
                    instance_uuid,
                    instance_name,
                    instance_event_inner: InstanceEventInner::StateTransition { to },
                },
            ),
            details: String::new(),
            caused_by: CausedBy::Unknown,
        }
    }
}

} // verus!
