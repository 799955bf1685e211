//! The demonstration view service: its settings, the subjects it follows,
//! what it reports of each received event, and its consumer loop.
use vstd::prelude::*;
use crate::env::{env_lookup, lemma_lookup_after_set, EnvSnapshot};
use crate::json::{json_document, json_str_member, string_member};
use crate::db_config::{setting_or, setting_or_default};
use crate::relay_config::ConfigError;

verus! {

/// Settings of the view service.
#[derive(Debug)]
pub struct Config {
    nats_url: String,
    subject_prefix: String,
    stream_name: String,
    consumer_name: String,
}

/// The abstract value of a [`Config`].
pub struct ViewConfigView {
    pub nats_url: Seq<char>,
    pub subject_prefix: Seq<char>,
    pub stream_name: Seq<char>,
    pub consumer_name: Seq<char>,
}

impl View for Config {
    type V = ViewConfigView;

    closed spec fn view(&self) -> ViewConfigView {
        ViewConfigView {
            nats_url: self.nats_url@,
            subject_prefix: self.subject_prefix@,
            stream_name: self.stream_name@,
            consumer_name: self.consumer_name@,
        }
    }
}

/// The settings an environment gives the view service, each variable
/// falling back to its default.
pub open spec fn view_config_from(env: Seq<(Seq<char>, Seq<char>)>) -> ViewConfigView {
    ViewConfigView {
        nats_url: setting_or(env, "NATS_URL"@, "nats://127.0.0.1:4222"@),
        subject_prefix: setting_or(env, "OUTBOX_SUBJECT_PREFIX"@, "events"@),
        stream_name: setting_or(env, "DUMMY_VIEW_STREAM"@, "PROCESS_EVENTS"@),
        consumer_name: setting_or(env, "DUMMY_VIEW_CONSUMER"@, "DUMMY_VIEW_SERVICE"@),
    }
}

/// Each view-service setting is the value the environment gives its
/// variable, and its default only when the variable is unset; setting a
/// variable is seen by the setting that reads it.
pub proof fn lemma_view_settings_follow_env(env: Seq<(Seq<char>, Seq<char>)>, v: Seq<char>)
    ensures
        ({
            let c = view_config_from(env);
            &&& (env_lookup(env, "NATS_URL"@) matches Some(x) ==> c.nats_url == x)
            &&& (env_lookup(env, "NATS_URL"@) is None ==> c.nats_url == "nats://127.0.0.1:4222"@)
            &&& (env_lookup(env, "OUTBOX_SUBJECT_PREFIX"@) matches Some(x) ==> c.subject_prefix == x)
            &&& (env_lookup(env, "OUTBOX_SUBJECT_PREFIX"@) is None ==> c.subject_prefix == "events"@)
            &&& (env_lookup(env, "DUMMY_VIEW_STREAM"@) matches Some(x) ==> c.stream_name == x)
            &&& (env_lookup(env, "DUMMY_VIEW_STREAM"@) is None ==> c.stream_name == "PROCESS_EVENTS"@)
            &&& (env_lookup(env, "DUMMY_VIEW_CONSUMER"@) matches Some(x) ==> c.consumer_name == x)
            &&& (env_lookup(env, "DUMMY_VIEW_CONSUMER"@) is None ==> c.consumer_name == "DUMMY_VIEW_SERVICE"@)
        }),
        view_config_from(env.push(("NATS_URL"@, v))).nats_url == v,
        view_config_from(env.push(("OUTBOX_SUBJECT_PREFIX"@, v))).subject_prefix == v,
        view_config_from(env.push(("DUMMY_VIEW_STREAM"@, v))).stream_name == v,
        view_config_from(env.push(("DUMMY_VIEW_CONSUMER"@, v))).consumer_name == v,
{
    lemma_lookup_after_set(env, "NATS_URL"@, v, "NATS_URL"@);
    lemma_lookup_after_set(env, "OUTBOX_SUBJECT_PREFIX"@, v, "OUTBOX_SUBJECT_PREFIX"@);
    lemma_lookup_after_set(env, "DUMMY_VIEW_STREAM"@, v, "DUMMY_VIEW_STREAM"@);
    lemma_lookup_after_set(env, "DUMMY_VIEW_CONSUMER"@, v, "DUMMY_VIEW_CONSUMER"@);
}

/// The subjects the service follows: everything below the prefix.
pub open spec fn subject_filter_text(prefix: Seq<char>) -> Seq<char> {
    prefix + ".>"@
}

impl Config {
    /// Reads the settings. Every variable is optional: `NATS_URL` defaults
    /// to `nats://127.0.0.1:4222`, `OUTBOX_SUBJECT_PREFIX` to `events`,
    /// `DUMMY_VIEW_STREAM` to `PROCESS_EVENTS` and `DUMMY_VIEW_CONSUMER` to
    /// `DUMMY_VIEW_SERVICE`, so reading always succeeds.
    pub fn from_env(env: &EnvSnapshot) -> (r: Result<Config, ConfigError>)
        ensures
            r matches Ok(c) && c@ == view_config_from(env@),
    {
        Ok(Config {
            nats_url: setting_or_default(env, "NATS_URL", "nats://127.0.0.1:4222"),
            subject_prefix: setting_or_default(env, "OUTBOX_SUBJECT_PREFIX", "events"),
            stream_name: setting_or_default(env, "DUMMY_VIEW_STREAM", "PROCESS_EVENTS"),
            consumer_name: setting_or_default(env, "DUMMY_VIEW_CONSUMER", "DUMMY_VIEW_SERVICE"),
        })
    }

    /// The URL of the NATS server.
    pub fn nats_url(&self) -> (r: &String)
        ensures
            r@ == self@.nats_url,
    {
        &self.nats_url
    }

    /// The name of the stream the service reads.
    pub fn stream_name(&self) -> (r: &String)
        ensures
            r@ == self@.stream_name,
    {
        &self.stream_name
    }

    /// The name of the durable consumer.
    pub fn consumer_name(&self) -> (r: &String)
        ensures
            r@ == self@.consumer_name,
    {
        &self.consumer_name
    }

    /// The subject filter of the stream: `prefix.>`.
    pub fn subject_filter(&self) -> (r: String)
        ensures
            r@ == subject_filter_text(self@.subject_prefix),
    {
        let mut s = self.subject_prefix.clone();
        s.append(".>");
        s
    }
}

/// A label, or its placeholder when absent.
pub open spec fn label_or(label: Option<Seq<char>>, placeholder: Seq<char>) -> Seq<char> {
    match label {
        Some(l) => l,
        None => placeholder,
    }
}

/// What the service reports of a received event.
#[derive(Debug, PartialEq, Eq)]
pub struct ReceivedSummary {
    pub id: String,
    pub event_type: String,
}

/// The summary of received fields, with `<no-id>` and `<no-event-type>`
/// standing for absent ones.
pub fn received_summary(id: Option<String>, event_type: Option<String>) -> (r: ReceivedSummary)
    ensures
        r.id@ == label_or(id.deep_view(), "<no-id>"@),
        r.event_type@ == label_or(event_type.deep_view(), "<no-event-type>"@),
{
    let id = match id {
        Some(i) => i,
        None => "<no-id>".to_owned(),
    };
    let event_type = match event_type {
        Some(t) => t,
        None => "<no-event-type>".to_owned(),
    };
    ReceivedSummary { id, event_type }
}

/// The summary of a received payload: none when it is no JSON document,
/// else its string members `id` and `event_type`, or their placeholders.
pub fn summarize_payload(payload: &[u8]) -> (r: Option<ReceivedSummary>)
    ensures
        r is Some == json_document(payload@),
        r matches Some(s) ==> s.id@ == label_or(json_str_member(payload@, "id"@), "<no-id>"@)
            && s.event_type@ == label_or(json_str_member(payload@, "event_type"@), "<no-event-type>"@),
{
    let id = match string_member(payload, "id") {
        Some(m) => m,
        None => {
            return None;
        },
    };
    let event_type = match string_member(payload, "event_type") {
        Some(m) => m,
        None => {
            return None;
        },
    };
    Some(received_summary(id, event_type))
}

/// What the consumer loop sees next.
#[derive(Debug)]
pub enum ConsumerEvent {
    /// The operator asked the service to stop.
    Shutdown,
    /// A message arrived.
    Received,
    /// Receiving failed; holds the error.
    ReceiveFailed(String),
    /// The message stream ended.
    StreamClosed,
}

/// What the consumer loop does next.
#[derive(Debug, PartialEq, Eq)]
pub enum ConsumerAction {
    /// Leave the loop.
    Stop,
    /// Report the message and acknowledge it.
    ReportAndAck,
    /// Report the error and go on.
    Continue,
}

/// The action a consumer event calls for.
pub open spec fn consumer_action_for(e: ConsumerEvent) -> ConsumerAction {
    match e {
        ConsumerEvent::Shutdown => ConsumerAction::Stop,
        ConsumerEvent::Received => ConsumerAction::ReportAndAck,
        ConsumerEvent::ReceiveFailed(_) => ConsumerAction::Continue,
        ConsumerEvent::StreamClosed => ConsumerAction::Stop,
    }
}

/// The consumer loop's response to an event.
pub fn consumer_step(event: &ConsumerEvent) -> (r: ConsumerAction)
    ensures
        r == consumer_action_for(*event),
{
    match event {
        ConsumerEvent::Shutdown => ConsumerAction::Stop,
        ConsumerEvent::Received => ConsumerAction::ReportAndAck,
        ConsumerEvent::ReceiveFailed(_) => ConsumerAction::Continue,
        ConsumerEvent::StreamClosed => ConsumerAction::Stop,
    }
}

} // verus!
