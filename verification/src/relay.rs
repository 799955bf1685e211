//! The decisions of the outbox relay: where each pending row is published,
//! the envelope it is published in, how the row is settled afterwards, and
//! what the relay does on each wake-up.
use vstd::prelude::*;
use crate::json::{
    json_read_string, json_string_literal, lemma_json_string_round_trip, lemma_strip_prefix,
    string_literal, strip_prefix, EncodeError,
};

verus! {

/// A pending outbox row as read from the database; the payload is JSON text.
#[derive(Debug)]
pub struct OutboxRow {
    pub id: String,
    pub aggregate_type: String,
    pub aggregate_id: String,
    pub event_type: String,
    pub view_id: String,
    pub payload: Option<String>,
}

/// The abstract value of an [`OutboxRow`].
pub struct OutboxRowView {
    pub id: Seq<char>,
    pub aggregate_type: Seq<char>,
    pub aggregate_id: Seq<char>,
    pub event_type: Seq<char>,
    pub view_id: Seq<char>,
    pub payload: Option<Seq<char>>,
}

impl View for OutboxRow {
    type V = OutboxRowView;

    open spec fn view(&self) -> OutboxRowView {
        OutboxRowView {
            id: self.id@,
            aggregate_type: self.aggregate_type@,
            aggregate_id: self.aggregate_id@,
            event_type: self.event_type@,
            view_id: self.view_id@,
            payload: self.payload.deep_view(),
        }
    }
}

/// The subject a row is published to: `prefix.aggregate_type.event_type`.
pub open spec fn subject_text(prefix: Seq<char>, row: OutboxRowView) -> Seq<char> {
    prefix + "."@ + row.aggregate_type + "."@ + row.event_type
}

/// The payload text inside an envelope: the row's JSON, or `null`.
pub open spec fn payload_text(payload: Option<Seq<char>>) -> Seq<char> {
    match payload {
        Some(p) => p,
        None => "null"@,
    }
}

/// The envelope a row is published in: a JSON object with the members
/// `aggregate_id`, `aggregate_type`, `event_type`, `id`, `payload` and
/// `view_id`, written in that (sorted) order without spaces: the order in
/// which serde_json writes an object value when its `preserve_order`
/// feature is off, as it is in this crate's build.
pub open spec fn envelope_text(row: OutboxRowView) -> Seq<char> {
    "{\"aggregate_id\":"@ + json_string_literal(row.aggregate_id)
        + ",\"aggregate_type\":"@ + json_string_literal(row.aggregate_type)
        + ",\"event_type\":"@ + json_string_literal(row.event_type)
        + ",\"id\":"@ + json_string_literal(row.id)
        + ",\"payload\":"@ + payload_text(row.payload)
        + ",\"view_id\":"@ + json_string_literal(row.view_id) + "}"@
}

/// The subject of a row.
pub fn subject_for(prefix: &str, row: &OutboxRow) -> (r: String)
    ensures
        r@ == subject_text(prefix@, row@),
{
    let mut s = prefix.to_owned();
    s.append(".");
    s.append(row.aggregate_type.as_str());
    s.append(".");
    s.append(row.event_type.as_str());
    s
}

/// The envelope of a row.
pub fn envelope_for(row: &OutboxRow) -> (r: Result<String, EncodeError>)
    ensures
        r matches Ok(t) && t@ == envelope_text(row@),
{
    let aggregate_id = string_literal(row.aggregate_id.as_str())?;
    let aggregate_type = string_literal(row.aggregate_type.as_str())?;
    let event_type = string_literal(row.event_type.as_str())?;
    let id = string_literal(row.id.as_str())?;
    let view_id = string_literal(row.view_id.as_str())?;
    let mut out = String::from_str("{\"aggregate_id\":");
    out.append(aggregate_id.as_str());
    out.append(",\"aggregate_type\":");
    out.append(aggregate_type.as_str());
    out.append(",\"event_type\":");
    out.append(event_type.as_str());
    out.append(",\"id\":");
    out.append(id.as_str());
    out.append(",\"payload\":");
    match &row.payload {
        Some(p) => out.append(p.as_str()),
        None => out.append("null"),
    }
    out.append(",\"view_id\":");
    out.append(view_id.as_str());
    out.append("}");
    Ok(out)
}

/// A message to publish: its subject and its payload text.
#[derive(Debug)]
pub struct PublishRequest {
    pub subject: String,
    pub payload: String,
}

/// What to publish for a row under the subject prefix `prefix`.
pub fn prepare_publish(prefix: &str, row: &OutboxRow) -> (r: Result<PublishRequest, EncodeError>)
    ensures
        r matches Ok(req) && req.subject@ == subject_text(prefix@, row@) && req.payload@
            == envelope_text(row@),
{
    let payload = envelope_for(row)?;
    let subject = subject_for(prefix, row);
    Ok(PublishRequest { subject, payload })
}

/// How publishing one row ended.
#[derive(Debug)]
pub enum PublishOutcome {
    /// The server acknowledged the message.
    Acknowledged,
    /// The message was sent but its acknowledgement failed; holds the error.
    AckFailed(String),
    /// The message could not be sent; holds the error.
    PublishFailed(String),
}

/// What to write back to a row after publishing it.
#[derive(Debug)]
pub enum RowUpdate {
    /// Stamp the row as published.
    MarkPublished,
    /// Count a failed attempt and store the error text.
    RecordFailure(String),
}

/// The abstract value of a [`RowUpdate`].
pub enum RowUpdateView {
    Published,
    Failure(Seq<char>),
}

impl View for RowUpdate {
    type V = RowUpdateView;

    open spec fn view(&self) -> RowUpdateView {
        match self {
            RowUpdate::MarkPublished => RowUpdateView::Published,
            RowUpdate::RecordFailure(m) => RowUpdateView::Failure(m@),
        }
    }
}

/// The update a publishing outcome calls for.
pub open spec fn update_for(o: PublishOutcome) -> RowUpdateView {
    match o {
        PublishOutcome::Acknowledged => RowUpdateView::Published,
        PublishOutcome::AckFailed(e) => RowUpdateView::Failure("jetstream ack error: "@ + e@),
        PublishOutcome::PublishFailed(e) => RowUpdateView::Failure("jetstream publish error: "@ + e@),
    }
}

/// The update for a publishing outcome.
pub fn settle(outcome: &PublishOutcome) -> (r: RowUpdate)
    ensures
        r@ == update_for(*outcome),
{
    match outcome {
        PublishOutcome::Acknowledged => RowUpdate::MarkPublished,
        PublishOutcome::AckFailed(e) => {
            let mut m = String::from_str("jetstream ack error: ");
            m.append(e.as_str());
            RowUpdate::RecordFailure(m)
        },
        PublishOutcome::PublishFailed(e) => {
            let mut m = String::from_str("jetstream publish error: ");
            m.append(e.as_str());
            RowUpdate::RecordFailure(m)
        },
    }
}

/// A row is stamped as published exactly when the server acknowledged its
/// message; every other outcome records a failure instead.
pub proof fn lemma_marked_only_when_acknowledged(o: PublishOutcome)
    ensures
        (update_for(o) is Published) <==> (o is Acknowledged),
{
}

/// A failure message names the kind of failure and ends with the error's
/// own text, and an acknowledgement failure reads differently from a
/// publishing failure of the same error.
pub proof fn lemma_failure_messages(e: String)
    ensures
        update_for(PublishOutcome::AckFailed(e)) matches RowUpdateView::Failure(m)
            && m.take(21) == "jetstream ack error: "@ && m.skip(21) == e@,
        update_for(PublishOutcome::PublishFailed(e)) matches RowUpdateView::Failure(m)
            && m.take(25) == "jetstream publish error: "@ && m.skip(25) == e@,
        update_for(PublishOutcome::AckFailed(e)) != update_for(PublishOutcome::PublishFailed(e)),
{
    reveal_strlit("jetstream ack error: ");
    reveal_strlit("jetstream publish error: ");
    let a = "jetstream ack error: "@ + e@;
    let p = "jetstream publish error: "@ + e@;
    assert(a.take(21) =~= "jetstream ack error: "@);
    assert(a.skip(21) =~= e@);
    assert(p.take(25) =~= "jetstream publish error: "@);
    assert(p.skip(25) =~= e@);
    assert(a[10] != p[10]);
}

/// How many entries are `true`.
pub open spec fn count_true(s: Seq<bool>) -> nat
    decreases s.len(),
{
    if s.len() == 0 {
        0
    } else {
        count_true(s.drop_last()) + if s.last() { 1nat } else { 0nat }
    }
}

/// A batch of fetched outbox rows, settled one at a time in the order they
/// were fetched: whether each settled row was acknowledged, and how many were
/// published.
pub struct DrainBatch {
    rows: Vec<OutboxRow>,
    tally: Tally,
}

/// The counters of a [`DrainBatch`].
struct Tally {
    published: usize,
    settled: usize,
    acks: Ghost<Seq<bool>>,
}

impl DrainBatch {
    /// The rows of the batch, in the order they were fetched.
    pub closed spec fn rows(&self) -> Seq<OutboxRowView> {
        self.rows@.map_values(|r: OutboxRow| r@)
    }

    /// Whether each settled row was acknowledged: entry `i` is row `i`'s.
    pub closed spec fn acks(&self) -> Seq<bool> {
        self.tally.acks@
    }

    /// The counters agree with the settled rows.
    #[verifier::type_invariant]
    closed spec fn counters_agree(&self) -> bool {
        &&& self.tally.settled == self.tally.acks@.len()
        &&& self.tally.settled <= self.rows@.len()
        &&& self.tally.published == count_true(self.tally.acks@)
    }

    /// A batch of the fetched `rows`, none settled yet.
    pub fn new(rows: Vec<OutboxRow>) -> (r: DrainBatch)
        ensures
            r.rows() == rows@.map_values(|row: OutboxRow| row@),
            r.acks() == Seq::<bool>::empty(),
    {
        DrainBatch { rows, tally: Tally { published: 0, settled: 0, acks: Ghost(Seq::empty()) } }
    }

    /// The number of rows in the batch.
    pub fn len(&self) -> (r: usize)
        ensures
            r == self.rows().len(),
    {
        self.rows.len()
    }

    /// What to publish for the next unsettled row under the subject prefix
    /// `prefix`: none once every row is settled.
    pub fn next_request(&self, prefix: &str) -> (r: Option<PublishRequest>)
        ensures
            r is Some == (self.acks().len() < self.rows().len()),
            r matches Some(req) ==> req.subject@ == subject_text(prefix@, self.rows()[self.acks().len() as int])
                && req.payload@ == envelope_text(self.rows()[self.acks().len() as int]),
    {
        proof {
            use_type_invariant(self);
        }
        if self.tally.settled < self.rows.len() {
            match prepare_publish(prefix, &self.rows[self.tally.settled]) {
                Ok(req) => Some(req),
                Err(_) => None,
            }
        } else {
            None
        }
    }

    /// The identifier of row `index`.
    pub fn row_id(&self, index: usize) -> (r: &String)
        requires
            index < self.rows().len(),
        ensures
            r@ == self.rows()[index as int].id,
    {
        &self.rows[index].id
    }

    /// Settles the next unsettled row with the outcome of publishing it:
    /// returns that row's index, which is the number of rows settled before,
    /// and the update to write back to it.
    pub fn record(&mut self, outcome: &PublishOutcome) -> (r: (usize, RowUpdate))
        requires
            old(self).acks().len() < old(self).rows().len(),
        ensures
            r.0 == old(self).acks().len(),
            r.1@ == update_for(*outcome),
            final(self).rows() == old(self).rows(),
            final(self).acks() == old(self).acks().push(*outcome is Acknowledged),
    {
        proof {
            use_type_invariant(&*self);
        }
        let update = settle(outcome);
        let acked = match outcome {
            PublishOutcome::Acknowledged => true,
            _ => false,
        };
        let index = self.tally.settled;
        let row_count = self.rows.len();
        assert(self.rows().len() == self.rows@.len());
        assert(index < row_count);
        let ghost new_acks = self.tally.acks@.push(acked);
        proof {
            lemma_count_true_bounded(self.tally.acks@);
            assert(new_acks.drop_last() =~= self.tally.acks@);
        }
        let published = if acked { self.tally.published + 1 } else { self.tally.published };
        self.tally = Tally { published, settled: index + 1, acks: Ghost(new_acks) };
        (index, update)
    }

    /// The number of rows published so far: the acknowledged ones, which
    /// are never more than the settled rows nor than the batch holds.
    pub fn published(&self) -> (r: usize)
        ensures
            r == count_true(self.acks()),
            r <= self.acks().len() <= self.rows().len(),
    {
        proof {
            use_type_invariant(self);
            lemma_count_true_bounded(self.tally.acks@);
        }
        self.tally.published
    }

    /// The number of rows settled so far, which is the index of the next
    /// row to settle.
    pub fn settled(&self) -> (r: usize)
        ensures
            r == self.acks().len(),
            r <= self.rows().len(),
    {
        proof {
            use_type_invariant(self);
        }
        self.tally.settled
    }
}

/// Counting acknowledgements: none in an empty batch, and settling one more
/// row adds one exactly when that row was acknowledged.
pub proof fn lemma_count_true_push(s: Seq<bool>, b: bool)
    ensures
        count_true(Seq::<bool>::empty()) == 0,
        count_true(s.push(b)) == count_true(s) + (if b { 1int } else { 0int }),
{
    assert(s.push(b).drop_last() =~= s);
}

/// A batch of settled rows counts as published exactly the rows whose
/// outcome was an acknowledgement: the count is the number of positions
/// holding `true`.
pub proof fn lemma_count_true_counts_acknowledged(s: Seq<bool>)
    ensures
        count_true(s) == s.filter(|b: bool| b).len(),
    decreases s.len(),
{
    if s.len() > 0 {
        lemma_count_true_counts_acknowledged(s.drop_last());
        assert(s =~= s.drop_last().push(s.last()));
        s.drop_last().lemma_filter_len_push(|b: bool| b, s.last());
    } else {
        assert(s.filter(|b: bool| b) =~= Seq::<bool>::empty());
    }
}

/// The subject of a row is the prefix, a dot, the row's aggregate type, a
/// dot, and the row's own event type, in that order: it starts with the
/// prefix and ends with the event type.
pub proof fn lemma_subject_names_row(prefix: Seq<char>, row: OutboxRowView)
    ensures
        ({
            let s = subject_text(prefix, row);
            let p = prefix.len() as int;
            let a = row.aggregate_type.len() as int;
            &&& s.len() == p + a + row.event_type.len() + 2
            &&& s.subrange(0, p) == prefix
            &&& s[p] == '.'
            &&& s.subrange(p + 1, p + 1 + a) == row.aggregate_type
            &&& s[p + 1 + a] == '.'
            &&& s.subrange(p + 2 + a, s.len() as int) == row.event_type
        }),
{
    reveal_strlit(".");
    let s = subject_text(prefix, row);
    let p = prefix.len() as int;
    let a = row.aggregate_type.len() as int;
    assert(s =~= prefix + seq!['.'] + row.aggregate_type + seq!['.'] + row.event_type);
    assert(s.subrange(0, p) =~= prefix);
    assert(s.subrange(p + 1, p + 1 + a) =~= row.aggregate_type);
    assert(s.subrange(p + 2 + a, s.len() as int) =~= row.event_type);
}

/// Rows that differ in their event type are published to different
/// subjects, and so are rows that differ in their aggregate type.
pub proof fn lemma_subject_tells_rows_apart(prefix: Seq<char>, r1: OutboxRowView, r2: OutboxRowView)
    requires
        r1.aggregate_type != r2.aggregate_type || r1.event_type != r2.event_type,
        r1.aggregate_type.len() == r2.aggregate_type.len(),
    ensures
        subject_text(prefix, r1) != subject_text(prefix, r2),
{
    lemma_subject_names_row(prefix, r1);
    lemma_subject_names_row(prefix, r2);
}

/// Reads a string member at the start of `t`: the member's key text `key`
/// (with its separators), then a JSON string.
pub open spec fn read_member(t: Seq<char>, key: Seq<char>) -> Option<(Seq<char>, Seq<char>)> {
    match strip_prefix(t, key) {
        Some(rest) => json_read_string(rest),
        None => None,
    }
}

/// Reading `t` as an envelope gives the fields of `row`: its members
/// `aggregate_id`, `aggregate_type`, `event_type` and `id` read as the row's
/// fields of those names, `"payload":` is followed by the row's payload
/// text, and then the member `view_id` reads as the row's view and closes
/// the object.
pub open spec fn envelope_reads_as(t: Seq<char>, row: OutboxRowView) -> bool {
    match read_member(t, "{\"aggregate_id\":"@) {
        None => false,
        Some((aid, t1)) => aid == row.aggregate_id && match read_member(t1, ",\"aggregate_type\":"@) {
            None => false,
            Some((at, t2)) => at == row.aggregate_type && match read_member(t2, ",\"event_type\":"@) {
                None => false,
                Some((et, t3)) => et == row.event_type && match read_member(t3, ",\"id\":"@) {
                    None => false,
                    Some((id, t4)) => id == row.id && match strip_prefix(t4, ",\"payload\":"@) {
                        None => false,
                        Some(t5) => match strip_prefix(t5, payload_text(row.payload)) {
                            None => false,
                            Some(t6) => read_member(t6, ",\"view_id\":"@) == Some((row.view_id, "}"@)),
                        },
                    },
                },
            },
        },
    }
}

/// Reading an envelope back: its members `aggregate_id`, `aggregate_type`,
/// `event_type` and `id` read as the row's fields of those names; after
/// `"payload":` comes the row's payload text (`null` when it has none),
/// and then the member `view_id` reads as the row's view and closes the
/// object.
pub proof fn lemma_envelope_reads_back(row: OutboxRowView)
    ensures
        envelope_reads_as(envelope_text(row), row),
        row.payload is None ==> payload_text(row.payload) == "null"@,
        row.payload matches Some(p) ==> payload_text(row.payload) == p,
{
    let k1 = "{\"aggregate_id\":"@;
    let k2 = ",\"aggregate_type\":"@;
    let k3 = ",\"event_type\":"@;
    let k4 = ",\"id\":"@;
    let k5 = ",\"payload\":"@;
    let k6 = ",\"view_id\":"@;
    let close = "}"@;
    let pt = payload_text(row.payload);
    let vid = json_string_literal(row.view_id);
    let r6 = k6 + (vid + close);
    let r5 = pt + r6;
    let r4 = k5 + r5;
    let r3 = json_string_literal(row.id) + r4;
    let r2 = k4 + r3;
    let q2 = json_string_literal(row.event_type) + r2;
    let r1 = k3 + q2;
    let q1 = json_string_literal(row.aggregate_type) + r1;
    let r0 = k2 + q1;
    let q0 = json_string_literal(row.aggregate_id) + r0;
    assert(envelope_text(row) =~= k1 + q0);
    lemma_strip_prefix(k1, q0);
    lemma_json_string_round_trip(row.aggregate_id, r0);
    lemma_strip_prefix(k2, q1);
    lemma_json_string_round_trip(row.aggregate_type, r1);
    lemma_strip_prefix(k3, q2);
    lemma_json_string_round_trip(row.event_type, r2);
    lemma_strip_prefix(k4, r3);
    lemma_json_string_round_trip(row.id, r4);
    lemma_strip_prefix(k5, r5);
    lemma_strip_prefix(pt, r6);
    lemma_strip_prefix(k6, vid + close);
    lemma_json_string_round_trip(row.view_id, close);
}

/// No more rows are published than settled.
pub proof fn lemma_count_true_bounded(s: Seq<bool>)
    ensures
        count_true(s) <= s.len(),
    decreases s.len(),
{
    if s.len() > 0 {
        lemma_count_true_bounded(s.drop_last());
    }
}

/// What wakes the relay up.
#[derive(Debug)]
pub enum RelayEvent {
    /// The operator asked the relay to stop.
    Shutdown,
    /// The fallback poll interval elapsed.
    PollTick,
    /// The database announced new outbox rows.
    Notified,
    /// Listening for announcements failed; holds the error.
    ListenFailed(String),
}

/// What the relay does when woken up.
#[derive(Debug, PartialEq, Eq)]
pub enum RelayAction {
    /// Leave the loop.
    Stop,
    /// Publish the pending rows.
    Drain,
    /// Report the listening error and wait again; the poll keeps progress.
    KeepWaiting,
}

/// The action an event calls for.
pub open spec fn action_for(e: RelayEvent) -> RelayAction {
    match e {
        RelayEvent::Shutdown => RelayAction::Stop,
        RelayEvent::PollTick => RelayAction::Drain,
        RelayEvent::Notified => RelayAction::Drain,
        RelayEvent::ListenFailed(_) => RelayAction::KeepWaiting,
    }
}

/// The relay's response to a wake-up.
pub fn relay_step(event: &RelayEvent) -> (r: RelayAction)
    ensures
        r == action_for(*event),
{
    match event {
        RelayEvent::Shutdown => RelayAction::Stop,
        RelayEvent::PollTick => RelayAction::Drain,
        RelayEvent::Notified => RelayAction::Drain,
        RelayEvent::ListenFailed(_) => RelayAction::KeepWaiting,
    }
}

} // verus!
