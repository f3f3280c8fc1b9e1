use vstd::prelude::*;
use crate::prospect::Item;

verus! {

/// Status of an accepted request.
pub const STATUS_OK: u16 = 200;

/// Status of a request whose body could not be read as the expected record.
pub const STATUS_BAD_REQUEST: u16 = 400;

/// The response an HTTP handler sends back: a status, a content type and a
/// plain-text body.
pub struct HttpReply {
    pub status: u16,
    pub content_type: String,
    pub body: String,
}

pub open spec fn content_type_text() -> Seq<char> {
    "text/html"@
}

/// `r` is a reply with the given status and body text.
pub open spec fn is_reply(r: HttpReply, status: u16, body: Seq<char>) -> bool {
    &&& r.status == status
    &&& r.content_type@ == content_type_text()
    &&& r.body@ == body
}

/// What `str::to_uppercase` returns for a string.
pub uninterp spec fn upper_of(s: Seq<char>) -> Seq<char>;

/// Relies on `str::to_uppercase`: the uppercase form of the text, which
/// depends on the characters alone; an empty text stays empty.
#[verifier::external_body]
fn uppercase(s: &str) -> (r: String)
    ensures
        r@ == upper_of(s@),
        s@.len() == 0 ==> r@.len() == 0,
{
    s.to_uppercase()
}

fn reply(status: u16, body: String) -> (r: HttpReply)
    ensures
        is_reply(r, status, body@),
{
    HttpReply { status, content_type: String::from_str("text/html"), body }
}

/// A 400 reply whose body is the parser's message.
pub fn bad_request(message: String) -> (r: HttpReply)
    ensures
        is_reply(r, STATUS_BAD_REQUEST, message@),
{
    reply(STATUS_BAD_REQUEST, message)
}

/// A 200 reply carrying the given text.
pub fn ok_text(body: String) -> (r: HttpReply)
    ensures
        is_reply(r, STATUS_OK, body@),
{
    reply(STATUS_OK, body)
}

/// What the order handler answers once the item name has been uppercased.
pub fn order_reply(upper_name: String) -> (r: HttpReply)
    ensures
        is_reply(r, STATUS_OK, upper_name@),
{
    ok_text(upper_name)
}

/// The order handler: a malformed body gets a 400 with the parser's message,
/// an item gets a 200 with its name in upper case.
pub fn order_handler(parsed: Result<Item, String>) -> (r: HttpReply)
    ensures
        match parsed {
            Ok(item) => is_reply(r, STATUS_OK, upper_of(item.name@)),
            Err(message) => is_reply(r, STATUS_BAD_REQUEST, message@),
        },
{
    match parsed {
        Ok(item) => order_reply(uppercase(item.name.as_str())),
        Err(message) => bad_request(message),
    }
}

} // verus!
