//! Changes to entities, the events that carry them, and the bus on which
//! events are published.

use crate::ids::SubgraphDeploymentId;
use vstd::prelude::*;

verus! {

/// What happened to an entity.
#[derive(Debug, Clone, Copy, PartialEq, Eq, Hash, Structural)]
pub enum EntityChangeOperation {
    /// The entity was created or overwritten.
    Written,
    /// The entity was removed.
    Removed,
}

/// One change to one entity.
#[derive(Debug, PartialEq, Eq, Hash)]
pub struct EntityChange {
    pub subgraph_id: SubgraphDeploymentId,
    pub entity_type: String,
    pub entity_id: String,
    pub operation: EntityChangeOperation,
}

/// The mathematical value of a change.
pub struct EntityChangeView {
    pub subgraph_id: Seq<char>,
    pub entity_type: Seq<char>,
    pub entity_id: Seq<char>,
    pub operation: EntityChangeOperation,
}

impl View for EntityChange {
    type V = EntityChangeView;

    open spec fn view(&self) -> EntityChangeView {
        EntityChangeView {
            subgraph_id: self.subgraph_id@,
            entity_type: self.entity_type@,
            entity_id: self.entity_id@,
            operation: self.operation,
        }
    }
}

impl Clone for EntityChange {
    fn clone(&self) -> (r: Self)
        ensures
            r@ == self@,
    {
        EntityChange {
            subgraph_id: self.subgraph_id.clone(),
            entity_type: self.entity_type.clone(),
            entity_id: self.entity_id.clone(),
            operation: self.operation,
        }
    }
}

/// The values of a list of changes, in order.
pub open spec fn changes_view(changes: Seq<EntityChange>) -> Seq<EntityChangeView> {
    changes.map_values(|c: EntityChange| c@)
}

/// A copy of a list of changes.
pub fn clone_changes(changes: &Vec<EntityChange>) -> (r: Vec<EntityChange>)
    ensures
        changes_view(r@) == changes_view(changes@),
{
    let mut out: Vec<EntityChange> = Vec::new();
    let mut i: usize = 0;
    while i < changes.len()
        invariant
            i <= changes.len(),
            out@.len() == i,
            forall|j: int| 0 <= j < i ==> (#[trigger] out@[j])@ == changes@[j]@,
        decreases changes.len() - i,
    {
        out.push(changes[i].clone());
        i = i + 1;
    }
    out
}

/// Moves the changes of `more` to the end of `changes`.
pub fn append_changes(changes: &mut Vec<EntityChange>, more: Vec<EntityChange>)
    ensures
        changes_view(final(changes)@) == changes_view(old(changes)@) + changes_view(more@),
{
    let mut more = more;
    changes.append(&mut more);
}

/// The ordered changes that one operation of the store produced. An event
/// is published whole or not at all.
#[derive(Debug, PartialEq, Eq)]
pub struct StoreEvent {
    pub changes: Vec<EntityChange>,
}

impl View for StoreEvent {
    type V = Seq<EntityChangeView>;

    open spec fn view(&self) -> Seq<EntityChangeView> {
        changes_view(self.changes@)
    }
}

impl Clone for StoreEvent {
    fn clone(&self) -> (r: Self)
        ensures
            r@ == self@,
    {
        StoreEvent { changes: clone_changes(&self.changes) }
    }
}

impl StoreEvent {
    /// The event that carries `changes`.
    pub fn new(changes: Vec<EntityChange>) -> (r: StoreEvent)
        ensures
            r@ == changes_view(changes@),
    {
        StoreEvent { changes }
    }

    /// Adds `changes` at the end of the event.
    pub fn extend(&mut self, changes: Vec<EntityChange>)
        ensures
            final(self)@ == old(self)@ + changes_view(changes@),
    {
        append_changes(&mut self.changes, changes);
    }
}

/// The values of a list of events, in order.
pub open spec fn events_view(events: Seq<StoreEvent>) -> Seq<Seq<EntityChangeView>> {
    events.map_values(|e: StoreEvent| e@)
}

/// A copy of a list of events.
pub fn clone_events(events: &Vec<StoreEvent>) -> (r: Vec<StoreEvent>)
    ensures
        events_view(r@) == events_view(events@),
{
    let mut out: Vec<StoreEvent> = Vec::new();
    let mut i: usize = 0;
    while i < events.len()
        invariant
            i <= events.len(),
            out@.len() == i,
            forall|j: int| 0 <= j < i ==> (#[trigger] out@[j])@ == events@[j]@,
        decreases events.len() - i,
    {
        out.push(events[i].clone());
        i = i + 1;
    }
    out
}

/// The recorder that a bus is built with: it either ignores what is
/// published or keeps a log of it for inspection.
#[derive(Debug, PartialEq, Eq)]
pub enum EventTap {
    /// Nothing is recorded.
    Disabled,
    /// Every published event is appended to the log.
    Capturing(Vec<StoreEvent>),
}

impl EventTap {
    /// The log of the recorder; `None` where nothing is recorded.
    pub open spec fn log(&self) -> Option<Seq<Seq<EntityChangeView>>> {
        match self {
            EventTap::Disabled => None,
            EventTap::Capturing(log) => Some(events_view(log@)),
        }
    }
}

/// The mathematical value of a bus.
pub struct BusView {
    /// The events handed to the notification channel, oldest first.
    pub channel: Seq<Seq<EntityChangeView>>,
    /// The log of the recorder, if it records.
    pub tap: Option<Seq<Seq<EntityChangeView>>>,
}

impl BusView {
    /// The bus after `event` was published.
    pub open spec fn published(self, event: Seq<EntityChangeView>) -> BusView {
        BusView {
            channel: self.channel.push(event),
            tap: match self.tap {
                Some(log) => Some(log.push(event)),
                None => None,
            },
        }
    }
}

/// The bus on which the store publishes its events. What is published goes
/// to the notification channel of the primary shard; a recorder may keep a
/// copy of it.
#[derive(Debug, PartialEq, Eq)]
pub struct ChangeEventBus {
    channel: Vec<StoreEvent>,
    tap: EventTap,
}

impl View for ChangeEventBus {
    type V = BusView;

    closed spec fn view(&self) -> BusView {
        BusView { channel: events_view(self.channel@), tap: self.tap.log() }
    }
}

impl ChangeEventBus {
    /// A bus with an empty channel and the given recorder.
    pub fn new(tap: EventTap) -> (r: ChangeEventBus)
        ensures
            r@ == (BusView { channel: Seq::empty(), tap: tap.log() }),
    {
        let bus = ChangeEventBus { channel: Vec::new(), tap };
        assert(events_view(bus.channel@) =~= Seq::empty());
        bus
    }

    /// Hands `event` to the notification channel and, where the recorder
    /// records, appends it to the log.
    pub fn publish(&mut self, event: &StoreEvent)
        ensures
            final(self)@ == old(self)@.published(event@),
    {
        self.channel.push(event.clone());
        assert(events_view(self.channel@) =~= events_view(old(self).channel@).push(event@));
        match &mut self.tap {
            EventTap::Disabled => {},
            EventTap::Capturing(log) => {
                let ghost before = log@;
                log.push(event.clone());
                assert(events_view(log@) =~= events_view(before).push(event@));
            },
        }
    }

    /// Whether the recorder keeps a log.
    pub fn is_tapped(&self) -> (r: bool)
        ensures
            r == self@.tap is Some,
    {
        match &self.tap {
            EventTap::Disabled => false,
            EventTap::Capturing(_) => true,
        }
    }

    /// A copy of the recorder's log; empty where nothing is recorded.
    pub fn tapped(&self) -> (r: Vec<StoreEvent>)
        ensures
            events_view(r@) == match self@.tap {
                Some(log) => log,
                None => Seq::empty(),
            },
    {
        match &self.tap {
            EventTap::Disabled => {
                Vec::new()
            },
            EventTap::Capturing(log) => clone_events(log),
        }
    }

    /// Empties the recorder's log; the channel is left as it is.
    pub fn clear_tap(&mut self)
        ensures
            final(self)@.channel == old(self)@.channel,
            final(self)@.tap == match old(self)@.tap {
                Some(_) => Some(Seq::<Seq<EntityChangeView>>::empty()),
                None => None,
            },
    {
        match &mut self.tap {
            EventTap::Disabled => {},
            EventTap::Capturing(log) => {
                log.clear();
            },
        }
    }

    /// Takes the events out of the channel, oldest first, for the transport
    /// to deliver. The recorder's log is left as it is.
    pub fn drain(&mut self) -> (r: Vec<StoreEvent>)
        ensures
            events_view(r@) == old(self)@.channel,
            final(self)@.channel == Seq::<Seq<EntityChangeView>>::empty(),
            final(self)@.tap == old(self)@.tap,
    {
        let mut out: Vec<StoreEvent> = Vec::new();
        std::mem::swap(&mut self.channel, &mut out);
        out
    }
}

} // verus!
