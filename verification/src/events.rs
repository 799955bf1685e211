//! Domain events as they are written to the outbox.
use vstd::prelude::*;
use crate::component_dto::{component_from_json, component_json, lemma_component_json_round_trip, ComponentDTO};
use crate::json::EncodeError;

verus! {

/// A domain event: what happened, to which aggregate, for which view, with
/// an optional JSON payload text.
#[derive(Debug)]
pub struct DomainEvent {
    event_type: String,
    aggregate_type: String,
    aggregate_id: String,
    view_id: String,
    payload: Option<String>,
}

/// The abstract value of a [`DomainEvent`].
pub struct DomainEventView {
    pub event_type: Seq<char>,
    pub aggregate_type: Seq<char>,
    pub aggregate_id: Seq<char>,
    pub view_id: Seq<char>,
    pub payload: Option<Seq<char>>,
}

impl View for DomainEvent {
    type V = DomainEventView;

    closed spec fn view(&self) -> DomainEventView {
        DomainEventView {
            event_type: self.event_type@,
            aggregate_type: self.aggregate_type@,
            aggregate_id: self.aggregate_id@,
            view_id: self.view_id@,
            payload: self.payload.deep_view(),
        }
    }
}

impl DomainEvent {
    /// An event with every text field empty and no payload.
    pub fn default() -> (r: DomainEvent)
        ensures
            r@.event_type == Seq::<char>::empty(),
            r@.aggregate_type == Seq::<char>::empty(),
            r@.aggregate_id == Seq::<char>::empty(),
            r@.view_id == Seq::<char>::empty(),
            r@.payload is None,
    {
        DomainEvent {
            event_type: String::new(),
            aggregate_type: String::new(),
            aggregate_id: String::new(),
            view_id: String::new(),
            payload: None,
        }
    }

    /// The same event with its event type replaced.
    pub fn with_event_type(self, event_type: &str) -> (r: DomainEvent)
        ensures
            r@ == (DomainEventView { event_type: event_type@, ..self@ }),
    {
        let mut e = self;
        e.event_type = event_type.to_owned();
        e
    }

    /// The same event with its aggregate type replaced.
    pub fn with_aggregate_type(self, aggregate_type: &str) -> (r: DomainEvent)
        ensures
            r@ == (DomainEventView { aggregate_type: aggregate_type@, ..self@ }),
    {
        let mut e = self;
        e.aggregate_type = aggregate_type.to_owned();
        e
    }

    /// The same event with its aggregate identifier replaced.
    pub fn with_aggregate_id(self, id: &str) -> (r: DomainEvent)
        ensures
            r@ == (DomainEventView { aggregate_id: id@, ..self@ }),
    {
        let mut e = self;
        e.aggregate_id = id.to_owned();
        e
    }

    /// The same event with its view identifier replaced.
    pub fn with_view_id(self, id: &str) -> (r: DomainEvent)
        ensures
            r@ == (DomainEventView { view_id: id@, ..self@ }),
    {
        let mut e = self;
        e.view_id = id.to_owned();
        e
    }

    /// The same event carrying the given JSON payload text.
    pub fn with_payload(self, payload_json: String) -> (r: DomainEvent)
        ensures
            r@ == (DomainEventView { payload: Some(payload_json@), ..self@ }),
    {
        let mut e = self;
        e.payload = Some(payload_json);
        e
    }

    /// The kind of event, such as `created`.
    pub fn event_type(&self) -> (r: &String)
        ensures
            r@ == self@.event_type,
    {
        &self.event_type
    }

    /// The kind of aggregate the event is about, such as `component`.
    pub fn aggregate_type(&self) -> (r: &String)
        ensures
            r@ == self@.aggregate_type,
    {
        &self.aggregate_type
    }

    /// The identifier of the aggregate the event is about.
    pub fn aggregate_id(&self) -> (r: &String)
        ensures
            r@ == self@.aggregate_id,
    {
        &self.aggregate_id
    }

    /// The view the event is addressed to.
    pub fn view_id(&self) -> (r: &String)
        ensures
            r@ == self@.view_id,
    {
        &self.view_id
    }

    /// The JSON payload text, if any.
    pub fn payload(&self) -> (r: &Option<String>)
        ensures
            r.deep_view() == self@.payload,
    {
        &self.payload
    }
}

/// The event that records the creation of a component.
#[derive(Debug)]
pub struct ComponentCreatedEvent {
    inner: DomainEvent,
}

impl View for ComponentCreatedEvent {
    type V = DomainEventView;

    closed spec fn view(&self) -> DomainEventView {
        self.inner@
    }
}

/// The domain event that records the creation of component `c` for view
/// `view_id`.
pub open spec fn component_created(c: crate::component_dto::ComponentView, view_id: Seq<char>) -> DomainEventView {
    DomainEventView {
        event_type: "created"@,
        aggregate_type: "component"@,
        aggregate_id: c.id,
        view_id: view_id,
        payload: Some(component_json(c)),
    }
}

/// A component's creation event says `created` about a `component`
/// aggregate whose id is the component's, for the given view; components
/// with different ids give events about different aggregates.
pub proof fn lemma_created_event_names_component(
    c: crate::component_dto::ComponentView,
    d: crate::component_dto::ComponentView,
    view_id: Seq<char>,
)
    ensures
        component_created(c, view_id).event_type == "created"@,
        component_created(c, view_id).aggregate_type == "component"@,
        component_created(c, view_id).aggregate_id == c.id,
        component_created(c, view_id).view_id == view_id,
        c.id != d.id ==> component_created(c, view_id).aggregate_id != component_created(d, view_id).aggregate_id,
{
}

/// The payload of a component's creation event reads back as that
/// component.
pub proof fn lemma_created_payload_reads_back(c: crate::component_dto::ComponentView, view_id: Seq<char>)
    ensures
        component_created(c, view_id).payload matches Some(p) && component_from_json(p) == Some(c),
{
    lemma_component_json_round_trip(c);
}

impl ComponentCreatedEvent {
    /// The creation event of `component`, addressed to `view_id`, with the
    /// component's JSON text as payload. It always succeeds.
    pub fn new(component: ComponentDTO, view_id: &str) -> (r: Result<ComponentCreatedEvent, EncodeError>)
        ensures
            r matches Ok(e) && e@ == component_created(component@, view_id@),
    {
        let payload = component.to_json()?;
        let inner = DomainEvent::default()
            .with_event_type("created")
            .with_aggregate_type("component")
            .with_aggregate_id(component.id().as_str())
            .with_view_id(view_id)
            .with_payload(payload);
        Ok(ComponentCreatedEvent { inner })
    }

    /// The domain event itself.
    pub fn to_event(self) -> (r: DomainEvent)
        ensures
            r@ == self@,
    {
        self.inner
    }
}

} // verus!
