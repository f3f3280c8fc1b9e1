use vstd::prelude::*;
use crate::prospect::Prospect;

verus! {

#[verifier::external_type_specification]
#[verifier::external_body]
pub struct ExJsonError(serde_json::Error);

/// The lower-case hexadecimal digits.
pub open spec fn hex_digits() -> Seq<char> {
    seq!['0', '1', '2', '3', '4', '5', '6', '7', '8', '9', 'a', 'b', 'c', 'd', 'e', 'f']
}

/// How one character stands inside a JSON string: `"` and `\` and the
/// control characters below U+0020 are escaped, every other character
/// stands as it is.
pub open spec fn json_escape_char(c: char) -> Seq<char> {
    if c == '"' {
        seq!['\\', '"']
    } else if c == '\\' {
        seq!['\\', '\\']
    } else if c == '\u{8}' {
        seq!['\\', 'b']
    } else if c == '\t' {
        seq!['\\', 't']
    } else if c == '\n' {
        seq!['\\', 'n']
    } else if c == '\u{c}' {
        seq!['\\', 'f']
    } else if c == '\r' {
        seq!['\\', 'r']
    } else if (c as u32) < 0x20 {
        seq![
            '\\',
            'u',
            '0',
            '0',
            hex_digits()[(c as u32 / 16) as int],
            hex_digits()[(c as u32 % 16) as int],
        ]
    } else {
        seq![c]
    }
}

/// The escaped contents of a JSON string, character by character.
pub open spec fn json_escaped(s: Seq<char>) -> Seq<char>
    decreases s.len(),
{
    if s.len() == 0 {
        Seq::empty()
    } else {
        json_escaped(s.drop_last()) + json_escape_char(s.last())
    }
}

/// A text as a JSON string literal: its escaped contents between quotes.
pub open spec fn json_string_of(s: Seq<char>) -> Seq<char> {
    seq!['"'] + json_escaped(s) + seq!['"']
}

/// Relies on `serde_json::to_string` applied to a `str`: it writes the text
/// between quotes, escaping `"`, `\` and the control characters below U+0020
/// (`\b \t \n \f \r`, else `\u00XX` in lower-case hex), into a `Vec`, which
/// cannot fail.
#[verifier::external_body]
fn encode_json_string(s: &str) -> (r: Result<String, serde_json::Error>)
    ensures
        r is Ok,
        r matches Ok(t) ==> t@ == json_string_of(s@),
{
    serde_json::to_string(s)
}

/// The notification payload built from the two encoded fields: a JSON object
/// with the members `name` and `model`, in that order, without spaces.
pub open spec fn message_of(name_json: Seq<char>, model_json: Seq<char>) -> Seq<char> {
    "{\"name\":"@ + name_json + ",\"model\":"@ + model_json + "}"@
}

/// The notification payload of a prospect.
pub open spec fn prospect_message_of(name: Seq<char>, model: Seq<char>) -> Seq<char> {
    message_of(json_string_of(name), json_string_of(model))
}

/// Frames the two JSON-encoded fields into the prospect's JSON object.
pub fn frame_message(name_json: &str, model_json: &str) -> (r: String)
    ensures
        r@ == message_of(name_json@, model_json@),
{
    let mut r = String::from_str("{\"name\":");
    r.append(name_json);
    r.append(",\"model\":");
    r.append(model_json);
    r.append("}");
    r
}

/// The text as a JSON string literal.
pub fn json_string(s: &str) -> (r: String)
    ensures
        r@ == json_string_of(s@),
{
    match encode_json_string(s) {
        Ok(t) => t,
        Err(_) => unreached(),
    }
}

/// Serialises a prospect as the JSON object `{"name":...,"model":...}`.
pub fn prospect_message(prospect: &Prospect) -> (r: String)
    ensures
        r@ == prospect_message_of(prospect.name@, prospect.model@),
{
    let name_json = json_string(prospect.name.as_str());
    let model_json = json_string(prospect.model.as_str());
    frame_message(name_json.as_str(), model_json.as_str())
}

/// A character that JSON carries as it is.
pub open spec fn is_plain_char(c: char) -> bool {
    c != '"' && c != '\\' && (c as u32) >= 0x20
}

/// A text of plain characters is carried into a JSON string unchanged.
pub proof fn lemma_plain_text_unescaped(s: Seq<char>)
    requires
        forall|i: int| 0 <= i < s.len() ==> is_plain_char(#[trigger] s[i]),
    ensures
        json_escaped(s) == s,
    decreases s.len(),
{
    if s.len() > 0 {
        lemma_plain_text_unescaped(s.drop_last());
        assert(is_plain_char(s[s.len() - 1]));
        assert(json_escaped(s) =~= s);
    }
}

/// For fields of plain characters, the payload of a prospect is the JSON
/// object that holds the two fields verbatim.
pub proof fn lemma_plain_prospect_message(name: Seq<char>, model: Seq<char>)
    requires
        forall|i: int| 0 <= i < name.len() ==> is_plain_char(#[trigger] name[i]),
        forall|i: int| 0 <= i < model.len() ==> is_plain_char(#[trigger] model[i]),
    ensures
        prospect_message_of(name, model) == "{\"name\":\""@ + name + "\",\"model\":\""@ + model
            + "\"}"@,
{
    lemma_plain_text_unescaped(name);
    lemma_plain_text_unescaped(model);
    reveal_strlit("{\"name\":");
    reveal_strlit(",\"model\":");
    reveal_strlit("}");
    reveal_strlit("{\"name\":\"");
    reveal_strlit("\",\"model\":\"");
    reveal_strlit("\"}");
    assert(prospect_message_of(name, model) =~= "{\"name\":\""@ + name + "\",\"model\":\""@
        + model + "\"}"@);
}

} // verus!
