use vstd::prelude::*;
use crate::prospect::Prospect;
use crate::message::{prospect_message, prospect_message_of};
use crate::reply::{
    HttpReply, STATUS_BAD_REQUEST, STATUS_OK, bad_request, is_reply, ok_text,
};

verus! {

/// A write to the durable table: partition key, sort key and the two
/// attributes of the prospect.
pub struct StoreRecord {
    pub table_key: String,
    pub data_key: String,
    pub name: String,
    pub model: String,
}

/// What the publish handler asks its host to do.
pub enum PublishOutcome {
    /// Answer at once; nothing is written or published.
    Rejected { rejection: HttpReply },
    /// Write `record`, then publish `message`, then answer with `reply`.
    Delivered { record: StoreRecord, message: String, reply: HttpReply },
}

/// The fixed partition key of every prospect record.
pub open spec fn catalog_key() -> Seq<char> {
    "catalog"@
}

/// The confirmation text sent back once the prospect has been published.
pub open spec fn confirmation_of(topic_name: Seq<char>) -> Seq<char> {
    "Message put in "@ + topic_name
}

/// `r` is the table record of a prospect with the given fields.
pub open spec fn record_of(r: StoreRecord, name: Seq<char>, model: Seq<char>) -> bool {
    &&& r.table_key@ == catalog_key()
    &&& r.data_key@ == name
    &&& r.name@ == name
    &&& r.model@ == model
}

/// `o` writes the prospect's record, publishes its JSON payload and confirms
/// with the topic's name.
pub open spec fn delivers(o: PublishOutcome, p: Prospect, topic_name: Seq<char>) -> bool {
    &&& o is Delivered
    &&& record_of(o->record, p.name@, p.model@)
    &&& o->message@ == prospect_message_of(p.name@, p.model@)
    &&& is_reply(o->reply, STATUS_OK, confirmation_of(topic_name))
}

/// The outcomes the publish handler may give for a parsed body.
pub open spec fn publish_outcome_of(
    parsed: Result<Prospect, String>,
    topic_name: Seq<char>,
    o: PublishOutcome,
) -> bool {
    match parsed {
        Ok(p) => delivers(o, p, topic_name),
        Err(message) => o is Rejected && is_reply(o->rejection, STATUS_BAD_REQUEST, message@),
    }
}

/// The durable table, keyed by (partition key, sort key), holding the
/// attributes `(name, model)`.
pub type TableModel = Map<(Seq<char>, Seq<char>), (Seq<char>, Seq<char>)>;

/// The table and the published payloads once the host has carried out `o`.
pub open spec fn effects_of(table: TableModel, published: Seq<Seq<char>>, o: PublishOutcome) -> (
    TableModel,
    Seq<Seq<char>>,
) {
    match o {
        PublishOutcome::Delivered { record, message, .. } => (
            table.insert((record.table_key@, record.data_key@), (record.name@, record.model@)),
            published.push(message@),
        ),
        PublishOutcome::Rejected { .. } => (table, published),
    }
}

/// The table record of a prospect.
pub fn record_for(prospect: &Prospect) -> (r: StoreRecord)
    ensures
        record_of(r, prospect.name@, prospect.model@),
{
    StoreRecord {
        table_key: String::from_str("catalog"),
        data_key: prospect.name.clone(),
        name: prospect.name.clone(),
        model: prospect.model.clone(),
    }
}

/// The confirmation reply naming the topic.
pub fn confirmation(topic_name: &str) -> (r: HttpReply)
    ensures
        is_reply(r, STATUS_OK, confirmation_of(topic_name@)),
{
    let mut body = String::from_str("Message put in ");
    body.append(topic_name);
    ok_text(body)
}

/// What the publish handler does with a prospect once its payload is built.
pub fn plan_delivery(prospect: &Prospect, message: String, topic_name: &str) -> (r: PublishOutcome)
    ensures
        r is Delivered,
        record_of(r->record, prospect.name@, prospect.model@),
        r->message@ == message@,
        is_reply(r->reply, STATUS_OK, confirmation_of(topic_name@)),
{
    PublishOutcome::Delivered {
        record: record_for(prospect),
        message,
        reply: confirmation(topic_name),
    }
}

/// The publish handler: a malformed body is answered with a 400 carrying the
/// parser's message; a prospect is stored under its name, published as JSON
/// and confirmed.
pub fn publish_handler(parsed: Result<Prospect, String>, topic_name: &str) -> (r: PublishOutcome)
    ensures
        publish_outcome_of(parsed, topic_name@, r),
{
    match parsed {
        Ok(prospect) => {
            let message = prospect_message(&prospect);
            plan_delivery(&prospect, message, topic_name)
        },
        Err(message) => PublishOutcome::Rejected { rejection: bad_request(message) },
    }
}

/// A malformed body is answered with a 400 carrying the parser's message, and
/// nothing is written to the table or published.
pub proof fn lemma_malformed_has_no_effect(
    message: String,
    topic_name: Seq<char>,
    o: PublishOutcome,
    table: TableModel,
    published: Seq<Seq<char>>,
)
    requires
        publish_outcome_of(Err(message), topic_name, o),
    ensures
        o is Rejected,
        o->rejection.status == STATUS_BAD_REQUEST,
        o->rejection.body@ == message@,
        effects_of(table, published, o) == (table, published),
{
}

/// A delivered prospect writes exactly one record, under partition key
/// `catalog` and sort key `name`, and publishes exactly one payload, the
/// prospect's JSON object.
pub proof fn lemma_delivery_writes_one_record(
    p: Prospect,
    topic_name: Seq<char>,
    o: PublishOutcome,
    table: TableModel,
    published: Seq<Seq<char>>,
)
    requires
        publish_outcome_of(Ok(p), topic_name, o),
    ensures
        o is Delivered,
        effects_of(table, published, o).0 == table.insert(
            (catalog_key(), p.name@),
            (p.name@, p.model@),
        ),
        effects_of(table, published, o).1 == published.push(
            prospect_message_of(p.name@, p.model@),
        ),
{
}

/// Publishing the same prospect twice leaves the table as one publication
/// does (the second write replaces the first) and sends two payloads.
pub proof fn lemma_publish_twice(
    p: Prospect,
    topic_name: Seq<char>,
    first: PublishOutcome,
    second: PublishOutcome,
    table: TableModel,
    published: Seq<Seq<char>>,
)
    requires
        publish_outcome_of(Ok(p), topic_name, first),
        publish_outcome_of(Ok(p), topic_name, second),
    ensures
        ({
            let once = effects_of(table, published, first);
            let twice = effects_of(once.0, once.1, second);
            &&& twice.0 == once.0
            &&& twice.1.len() == published.len() + 2
            &&& twice.1[published.len() as int] == prospect_message_of(p.name@, p.model@)
            &&& twice.1[published.len() + 1int] == prospect_message_of(p.name@, p.model@)
        }),
{
    let once = effects_of(table, published, first);
    let twice = effects_of(once.0, once.1, second);
    assert(twice.0 =~= once.0);
}

} // verus!
