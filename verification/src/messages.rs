//! Messages that carry a header naming the message, its aggregate and its
//! view, with the component they concern.
use vstd::prelude::*;
use crate::component_dto::ComponentView;

verus! {

/// The abstract value of a [`MessageHeader`].
pub struct MessageHeaderView {
    pub msg_id: Seq<char>,
    pub msg_type: Seq<char>,
    pub aggregate_id: Seq<char>,
    pub view_id: Seq<char>,
}

/// A message that exposes the fields of its header.
pub trait Message {
    /// The header the message carries.
    spec fn header_view(&self) -> MessageHeaderView;

    /// The message identifier.
    fn msg_id(&self) -> (r: String)
        ensures
            r@ == self.header_view().msg_id,
    ;

    /// The message type.
    fn msg_type(&self) -> (r: String)
        ensures
            r@ == self.header_view().msg_type,
    ;

    /// The identifier of the aggregate the message is about.
    fn aggregate_id(&self) -> (r: String)
        ensures
            r@ == self.header_view().aggregate_id,
    ;

    /// The view the message is addressed to.
    fn view_id(&self) -> (r: String)
        ensures
            r@ == self.header_view().view_id,
    ;
}

/// The header of a message.
#[derive(Debug, Clone)]
pub struct MessageHeader {
    msg_id: String,
    msg_type: String,
    aggregate_id: String,
    view_id: String,
}

impl View for MessageHeader {
    type V = MessageHeaderView;

    closed spec fn view(&self) -> MessageHeaderView {
        MessageHeaderView {
            msg_id: self.msg_id@,
            msg_type: self.msg_type@,
            aggregate_id: self.aggregate_id@,
            view_id: self.view_id@,
        }
    }
}

impl MessageHeader {
    /// Builds a header from borrowed text.
    pub fn new(msg_id: &str, msg_type: &str, aggregate_id: &str, view_id: &str) -> (r: MessageHeader)
        ensures
            r@ == (MessageHeaderView {
                msg_id: msg_id@,
                msg_type: msg_type@,
                aggregate_id: aggregate_id@,
                view_id: view_id@,
            }),
    {
        MessageHeader {
            msg_id: msg_id.to_owned(),
            msg_type: msg_type.to_owned(),
            aggregate_id: aggregate_id.to_owned(),
            view_id: view_id.to_owned(),
        }
    }

    /// The header's `msg_id`.
    pub fn msg_id(&self) -> (r: &String)
        ensures
            r@ == self@.msg_id,
    {
        &self.msg_id
    }

    /// The header's `msg_type`.
    pub fn msg_type(&self) -> (r: &String)
        ensures
            r@ == self@.msg_type,
    {
        &self.msg_type
    }

    /// The header's `aggregate_id`.
    pub fn aggregate_id(&self) -> (r: &String)
        ensures
            r@ == self@.aggregate_id,
    {
        &self.aggregate_id
    }

    /// The header's `view_id`.
    pub fn view_id(&self) -> (r: &String)
        ensures
            r@ == self@.view_id,
    {
        &self.view_id
    }
}

/// A component as carried inside a message.
#[derive(Debug, Clone)]
pub struct ComponentDTO {
    id: String,
    name: String,
    description: Option<String>,
}

impl View for ComponentDTO {
    type V = ComponentView;

    closed spec fn view(&self) -> ComponentView {
        ComponentView { id: self.id@, name: self.name@, description: self.description.deep_view() }
    }
}

impl ComponentDTO {
    /// Builds a component from borrowed text.
    pub fn new(id: &str, name: &str, description: Option<&str>) -> (r: ComponentDTO)
        ensures
            r@.id == id@,
            r@.name == name@,
            r@.description == description.deep_view(),
    {
        let description = match description {
            Some(d) => Some(d.to_owned()),
            None => None,
        };
        ComponentDTO { id: id.to_owned(), name: name.to_owned(), description }
    }

    /// The component's identifier.
    pub fn id(&self) -> (r: &String)
        ensures
            r@ == self@.id,
    {
        &self.id
    }

    /// The component's name.
    pub fn name(&self) -> (r: &String)
        ensures
            r@ == self@.name,
    {
        &self.name
    }

    /// The component's optional description.
    pub fn description(&self) -> (r: &Option<String>)
        ensures
            r.deep_view() == self@.description,
    {
        &self.description
    }
}

/// The message announcing that a component was created.
#[derive(Debug, Clone)]
pub struct ComponentCreatedMessage {
    header: MessageHeader,
    component: ComponentDTO,
}

impl ComponentCreatedMessage {
    /// Pairs a header with the created component.
    pub fn new(header: MessageHeader, component: ComponentDTO) -> (r: ComponentCreatedMessage)
        ensures
            r.header_view() == header@,
            r.component_view() == component@,
    {
        ComponentCreatedMessage { header, component }
    }

    /// The component the message carries.
    pub closed spec fn component_view(&self) -> ComponentView {
        self.component@
    }

    /// The header of the message.
    pub fn header(&self) -> (r: &MessageHeader)
        ensures
            r@ == self.header_view(),
    {
        &self.header
    }

    /// The component the message carries.
    pub fn component(&self) -> (r: &ComponentDTO)
        ensures
            r@ == self.component_view(),
    {
        &self.component
    }
}

impl Message for ComponentCreatedMessage {
    closed spec fn header_view(&self) -> MessageHeaderView {
        self.header@
    }

    fn msg_id(&self) -> (r: String) {
        self.header.msg_id().clone()
    }

    fn msg_type(&self) -> (r: String) {
        self.header.msg_type().clone()
    }

    fn aggregate_id(&self) -> (r: String) {
        self.header.aggregate_id().clone()
    }

    fn view_id(&self) -> (r: String) {
        self.header.view_id().clone()
    }
}

/// The message announcing that a component was deleted.
#[derive(Debug, Clone)]
pub struct ComponentDeletedMessage {
    header: MessageHeader,
}

impl ComponentDeletedMessage {
    /// Wraps a header.
    pub fn new(header: MessageHeader) -> (r: ComponentDeletedMessage)
        ensures
            r.header_view() == header@,
    {
        ComponentDeletedMessage { header }
    }

    /// The header of the message.
    pub fn header(&self) -> (r: &MessageHeader)
        ensures
            r@ == self.header_view(),
    {
        &self.header
    }
}

impl Message for ComponentDeletedMessage {
    closed spec fn header_view(&self) -> MessageHeaderView {
        self.header@
    }

    fn msg_id(&self) -> (r: String) {
        self.header.msg_id().clone()
    }

    fn msg_type(&self) -> (r: String) {
        self.header.msg_type().clone()
    }

    fn aggregate_id(&self) -> (r: String) {
        self.header.aggregate_id().clone()
    }

    fn view_id(&self) -> (r: String) {
        self.header.view_id().clone()
    }
}

} // verus!
