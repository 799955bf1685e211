//! The component data transfer object and its JSON payload text.
use vstd::prelude::*;
use crate::json::{
    json_optional_string, json_read_optional_string, json_read_string, json_string_literal,
    lemma_json_optional_string_round_trip, lemma_json_string_round_trip, lemma_strip_prefix,
    optional_string_literal, string_literal, strip_prefix, EncodeError,
};

verus! {

/// A component as it travels between services.
#[derive(Debug, Clone)]
pub struct ComponentDTO {
    id: String,
    name: String,
    description: Option<String>,
}

/// The abstract value of a [`ComponentDTO`].
pub struct ComponentView {
    pub id: Seq<char>,
    pub name: Seq<char>,
    pub description: Option<Seq<char>>,
}

impl View for ComponentDTO {
    type V = ComponentView;

    closed spec fn view(&self) -> ComponentView {
        ComponentView { id: self.id@, name: self.name@, description: self.description.deep_view() }
    }
}

/// The JSON object text of a component: its members `description`, `id`
/// and `name` in sorted order, as serde_json writes an object value when its
/// `preserve_order` feature is off, as it is in this crate's build; the
/// description `null` when absent.
pub open spec fn component_json(c: ComponentView) -> Seq<char> {
    "{\"description\":"@ + json_optional_string(c.description) + ",\"id\":"@ + json_string_literal(c.id)
        + ",\"name\":"@ + json_string_literal(c.name) + "}"@
}

/// Reads the JSON object text of a component back, in the exact form
/// [`component_json`] writes it: these members in this order, no spaces.
pub open spec fn component_from_json(t: Seq<char>) -> Option<ComponentView> {
    match strip_prefix(t, "{\"description\":"@) {
        None => None,
        Some(t1) => match json_read_optional_string(t1) {
            None => None,
            Some((description, t2)) => match strip_prefix(t2, ",\"id\":"@) {
                None => None,
                Some(t3) => match json_read_string(t3) {
                    None => None,
                    Some((id, t4)) => match strip_prefix(t4, ",\"name\":"@) {
                        None => None,
                        Some(t5) => match json_read_string(t5) {
                            None => None,
                            Some((name, t6)) => if t6 == "}"@ {
                                Some(ComponentView { id, name, description })
                            } else {
                                None
                            },
                        },
                    },
                },
            },
        },
    }
}

/// Reading a component's JSON text gives the component back.
pub proof fn lemma_component_json_round_trip(c: ComponentView)
    ensures
        component_from_json(component_json(c)) == Some(c),
{
    let p1 = "{\"description\":"@;
    let p2 = ",\"id\":"@;
    let p3 = ",\"name\":"@;
    let close = "}"@;
    let d = json_optional_string(c.description);
    let i = json_string_literal(c.id);
    let n = json_string_literal(c.name);
    let r3 = n + close;
    let r2 = p3 + r3;
    let r1 = i + r2;
    let r0 = p2 + r1;
    let t1 = d + r0;
    assert(component_json(c) =~= p1 + t1);
    lemma_strip_prefix(p1, t1);
    lemma_json_optional_string_round_trip(c.description, r0);
    lemma_strip_prefix(p2, r1);
    lemma_json_string_round_trip(c.id, r2);
    lemma_strip_prefix(p3, r3);
    lemma_json_string_round_trip(c.name, close);
}

impl ComponentDTO {
    /// Builds a component from borrowed text.
    pub fn new(id: &str, name: &str, description: Option<&str>) -> (r: ComponentDTO)
        ensures
            r@.id == id@,
            r@.name == name@,
            r@.description == description.deep_view(),
    {
        let description = match description {
            Some(d) => Some(d.to_owned()),
            None => None,
        };
        ComponentDTO { id: id.to_owned(), name: name.to_owned(), description }
    }

    /// The component's identifier.
    pub fn id(&self) -> (r: &String)
        ensures
            r@ == self@.id,
    {
        &self.id
    }

    /// The component's name.
    pub fn name(&self) -> (r: &String)
        ensures
            r@ == self@.name,
    {
        &self.name
    }

    /// The component's optional description.
    pub fn description(&self) -> (r: &Option<String>)
        ensures
            r.deep_view() == self@.description,
    {
        &self.description
    }

    /// A copy of the component with equal fields.
    pub fn duplicate(&self) -> (r: ComponentDTO)
        ensures
            r@ == self@,
    {
        let description = match &self.description {
            Some(d) => Some(d.clone()),
            None => None,
        };
        ComponentDTO { id: self.id.clone(), name: self.name.clone(), description }
    }

    /// The JSON object text of this component (see [`component_json`]).
    pub fn to_json(&self) -> (r: Result<String, EncodeError>)
        ensures
            r matches Ok(t) && t@ == component_json(self@),
    {
        let description = match &self.description {
            Some(d) => optional_string_literal(Some(d.as_str()))?,
            None => optional_string_literal(None)?,
        };
        let id = string_literal(self.id.as_str())?;
        let name = string_literal(self.name.as_str())?;
        let mut out = String::from_str("{\"description\":");
        out.append(description.as_str());
        out.append(",\"id\":");
        out.append(id.as_str());
        out.append(",\"name\":");
        out.append(name.as_str());
        out.append("}");
        Ok(out)
    }
}

} // verus!
