//! What the component service writes: the component row and the outbox row
//! of its creation event.
use vstd::prelude::*;
use crate::component_dto::{component_json, ComponentDTO, ComponentView};
use crate::events::{component_created, ComponentCreatedEvent, DomainEvent, DomainEventView};
use crate::json::EncodeError;

verus! {

/// The values of one outbox row to insert.
#[derive(Debug)]
pub struct OutboxEntry {
    pub aggregate_type: String,
    pub aggregate_id: String,
    pub event_type: String,
    pub view_id: String,
    pub payload: Option<String>,
}

/// The abstract value of an [`OutboxEntry`].
pub struct OutboxEntryView {
    pub aggregate_type: Seq<char>,
    pub aggregate_id: Seq<char>,
    pub event_type: Seq<char>,
    pub view_id: Seq<char>,
    pub payload: Option<Seq<char>>,
}

impl View for OutboxEntry {
    type V = OutboxEntryView;

    open spec fn view(&self) -> OutboxEntryView {
        OutboxEntryView {
            aggregate_type: self.aggregate_type@,
            aggregate_id: self.aggregate_id@,
            event_type: self.event_type@,
            view_id: self.view_id@,
            payload: self.payload.deep_view(),
        }
    }
}

/// The outbox row of `event`: the aggregate and view are the caller's, the
/// event type and payload the event's.
pub open spec fn entry_of(
    aggregate_type: Seq<char>,
    aggregate_id: Seq<char>,
    view_id: Seq<char>,
    event: DomainEventView,
) -> OutboxEntryView {
    OutboxEntryView {
        aggregate_type,
        aggregate_id,
        event_type: event.event_type,
        view_id,
        payload: event.payload,
    }
}

/// The values of the outbox row that records `event`.
pub fn outbox_entry(aggregate_type: &str, aggregate_id: &str, view_id: &str, event: DomainEvent) -> (r: OutboxEntry)
    ensures
        r@ == entry_of(aggregate_type@, aggregate_id@, view_id@, event@),
{
    let event_type = event.event_type().clone();
    let payload = match event.payload() {
        Some(p) => Some(p.clone()),
        None => None,
    };
    OutboxEntry {
        aggregate_type: aggregate_type.to_owned(),
        aggregate_id: aggregate_id.to_owned(),
        event_type,
        view_id: view_id.to_owned(),
        payload,
    }
}

/// Writes components and their creation events for one view.
#[derive(Debug)]
pub struct ComponentRepository {
    view_name: String,
}

impl ComponentRepository {
    /// A repository that records events for the view `view_name`.
    pub fn new(view_name: &str) -> (r: ComponentRepository)
        ensures
            r.view_name_view() == view_name@,
    {
        ComponentRepository { view_name: view_name.to_owned() }
    }

    /// The view the repository records events for.
    pub closed spec fn view_name_view(&self) -> Seq<char> {
        self.view_name@
    }

    /// The view the repository records events for.
    pub fn view_name(&self) -> (r: &String)
        ensures
            r@ == self.view_name_view(),
    {
        &self.view_name
    }

    /// The outbox row written beside `component`: aggregate type
    /// `component`, the component's id, the repository's view.
    pub fn outbox_entry_for(&self, component: &ComponentDTO, event: ComponentCreatedEvent) -> (r: OutboxEntry)
        ensures
            r@ == entry_of("component"@, component@.id, self.view_name_view(), event@),
    {
        outbox_entry("component", component.id().as_str(), self.view_name.as_str(), event.to_event())
    }
}

/// Creates components for one view.
#[derive(Debug)]
pub struct ComponentService {
    view_id: String,
}

impl ComponentService {
    /// A service that addresses its events to the view `view_id`.
    pub fn new(view_id: &str) -> (r: ComponentService)
        ensures
            r.view_id_view() == view_id@,
    {
        ComponentService { view_id: view_id.to_owned() }
    }

    /// The view the service addresses its events to.
    pub closed spec fn view_id_view(&self) -> Seq<char> {
        self.view_id@
    }

    /// The component to create, without description, and its creation
    /// event. It always succeeds.
    pub fn prepare_component(&self, id: &str, name: &str) -> (r: Result<(ComponentDTO, ComponentCreatedEvent), EncodeError>)
        ensures
            r matches Ok((c, e)) && c@.id == id@ && c@.name == name@ && c@.description is None
                && e@ == component_created(c@, self.view_id_view()),
    {
        let component = ComponentDTO::new(id, name, None);
        let event = ComponentCreatedEvent::new(component.duplicate(), self.view_id.as_str())?;
        Ok((component, event))
    }
}

/// The outbox row of any event keeps that event's type and payload and
/// takes its aggregate and view from the caller; so events that differ in
/// type, or in payload, give rows that differ in the same way.
pub proof fn lemma_entry_keeps_event(
    aggregate_type: Seq<char>,
    aggregate_id: Seq<char>,
    view_id: Seq<char>,
    e1: DomainEventView,
    e2: DomainEventView,
)
    ensures
        entry_of(aggregate_type, aggregate_id, view_id, e1).event_type == e1.event_type,
        entry_of(aggregate_type, aggregate_id, view_id, e1).payload == e1.payload,
        entry_of(aggregate_type, aggregate_id, view_id, e1).aggregate_type == aggregate_type,
        entry_of(aggregate_type, aggregate_id, view_id, e1).aggregate_id == aggregate_id,
        entry_of(aggregate_type, aggregate_id, view_id, e1).view_id == view_id,
        e1.event_type != e2.event_type ==> entry_of(aggregate_type, aggregate_id, view_id, e1).event_type
            != entry_of(aggregate_type, aggregate_id, view_id, e2).event_type,
        e1.payload != e2.payload ==> entry_of(aggregate_type, aggregate_id, view_id, e1).payload
            != entry_of(aggregate_type, aggregate_id, view_id, e2).payload,
{
}

/// The outbox row recorded for a newly created component names the
/// component as a `component` aggregate, says `created`, and carries the
/// component's JSON as payload.
pub proof fn lemma_created_entry_describes_component(c: ComponentView, view_id: Seq<char>, view_name: Seq<char>)
    ensures
        ({
            let entry = entry_of("component"@, c.id, view_name, component_created(c, view_id));
            &&& entry.aggregate_type == "component"@
            &&& entry.aggregate_id == c.id
            &&& entry.event_type == "created"@
            &&& entry.view_id == view_name
            &&& entry.payload == Some(component_json(c))
        }),
{
}

} // verus!
