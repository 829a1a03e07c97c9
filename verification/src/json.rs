//! JSON text. Strings and free-form values are encoded by `serde_json`; the
//! objects and arrays that the gateway sends are framed here around them.

use vstd::prelude::*;
use vstd::string::*;
use crate::service::{ServiceProperties, ServicePropertiesView};

verus! {

/// `serde_json::Error`, of which nothing is known here but that it is one.
#[verifier::external_type_specification]
#[verifier::external_body]
pub struct ExJsonError(serde_json::Error);

/// `serde_json::Value`, a JSON document that is carried through as it is.
#[verifier::external_type_specification]
#[verifier::external_body]
pub struct ExJsonValue(serde_json::Value);

/// The digit that writes `d` in base sixteen, in lower case.
pub open spec fn hex_digit(d: int) -> char {
    if d == 0 {
        '0'
    } else if d == 1 {
        '1'
    } else if d == 2 {
        '2'
    } else if d == 3 {
        '3'
    } else if d == 4 {
        '4'
    } else if d == 5 {
        '5'
    } else if d == 6 {
        '6'
    } else if d == 7 {
        '7'
    } else if d == 8 {
        '8'
    } else if d == 9 {
        '9'
    } else if d == 10 {
        'a'
    } else if d == 11 {
        'b'
    } else if d == 12 {
        'c'
    } else if d == 13 {
        'd'
    } else if d == 14 {
        'e'
    } else {
        'f'
    }
}

/// How one character stands inside a JSON string: the quote and the backslash
/// behind a backslash, the five control characters that have a letter as that
/// letter behind a backslash, any other control character below the space as
/// `\u00` and two digits, every other character as it is.
pub open spec fn escaped_char(c: char) -> Seq<char> {
    let code = c as int;
    if code == 0x22 {
        seq!['\\', '"']
    } else if code == 0x5C {
        seq!['\\', '\\']
    } else if code == 0x08 {
        seq!['\\', 'b']
    } else if code == 0x09 {
        seq!['\\', 't']
    } else if code == 0x0A {
        seq!['\\', 'n']
    } else if code == 0x0C {
        seq!['\\', 'f']
    } else if code == 0x0D {
        seq!['\\', 'r']
    } else if code < 0x20 {
        seq!['\\', 'u', '0', '0', hex_digit(code / 16), hex_digit(code % 16)]
    } else {
        seq![c]
    }
}

/// The characters of `text` as they stand inside a JSON string.
pub open spec fn escaped(text: Seq<char>) -> Seq<char>
    decreases text.len(),
{
    if text.len() == 0 {
        Seq::empty()
    } else {
        escaped(text.drop_last()) + escaped_char(text.last())
    }
}

/// The JSON string literal for `text`: its characters, escaped, between two
/// quotes.
pub open spec fn json_string_text(text: Seq<char>) -> Seq<char> {
    seq!['"'] + escaped(text) + seq!['"']
}

/// What `value` holds, as the compact JSON text that `serde_json` writes for
/// it; `None` where `serde_json` reports an error.
pub uninterp spec fn json_value_text(value: serde_json::Value) -> Option<Seq<char>>;

/// An encoding fault, with what the encoder said of it.
pub struct EncodeError {
    pub message: String,
}

/// Calls `serde_json::to_string` on a string slice. Trusted: it writes into
/// memory, where writing cannot fail, so the outcome is `Ok`; and what it
/// writes is the opening quote, each character by the encoder's table of
/// escapes, and the closing quote, which is what `json_string_text` states.
#[verifier::external_body]
pub(crate) fn quote(text: &str) -> (r: Result<String, serde_json::Error>)
    ensures
        r is Ok,
        match r {
            Ok(s) => s@ == json_string_text(text@),
            Err(_) => false,
        },
{
    serde_json::to_string(text)
}

/// Calls `serde_json::to_string` on a `serde_json::Value`. Trusted: the outcome
/// is a function of the value alone, `Ok` with its compact JSON text or `Err`,
/// and `json_value_text` is the name of that function.
#[verifier::external_body]
pub(crate) fn encode_value(value: &serde_json::Value) -> (r: Result<String, serde_json::Error>)
    ensures
        match r {
            Ok(s) => json_value_text(*value) == Some(s@),
            Err(_) => json_value_text(*value) is None,
        },
{
    serde_json::to_string(value)
}

/// Calls `to_string` on a `serde_json::Error`, which formats it through its
/// `Display` impl. Trusted; nothing is claimed of the text.
#[verifier::external_body]
pub(crate) fn describe(error: &serde_json::Error) -> String {
    error.to_string()
}

/// The encoding fault whose message is `message`: what the encoder said of
/// its error, word for word.
pub(crate) fn encode_error(message: String) -> (r: EncodeError)
    ensures
        r.message@ == message@,
{
    EncodeError { message }
}

/// `,` between the items, nothing around them.
pub open spec fn comma_separated(items: Seq<Seq<char>>) -> Seq<char>
    decreases items.len(),
{
    if items.len() == 0 {
        Seq::empty()
    } else if items.len() == 1 {
        items[0]
    } else {
        comma_separated(items.drop_last()) + ","@ + items.last()
    }
}

/// The text of a JSON array whose items have the texts `items`.
pub open spec fn array_text(items: Seq<Seq<char>>) -> Seq<char> {
    "["@ + comma_separated(items) + "]"@
}

/// One more item at the end of a list costs a comma, but for the first.
pub proof fn lemma_comma_separated_push(items: Seq<Seq<char>>, item: Seq<char>)
    ensures
        comma_separated(items.push(item)) == if items.len() == 0 {
            item
        } else {
            comma_separated(items) + ","@ + item
        },
{
    let longer = items.push(item);
    assert(longer.drop_last() =~= items);
    assert(longer.last() == item);
}

/// Appends `"key":value` to `out`, where `frame` is the text up to and with
/// the colon and `value` is encoded as a JSON string.
pub fn append_string_member(out: &mut String, frame: &str, value: &str) -> (r: Result<
    (),
    EncodeError,
>)
    ensures
        r is Ok,
        final(out)@ == old(out)@ + frame@ + json_string_text(value@),
{
    match quote(value) {
        Ok(q) => {
            out.append(frame);
            out.append(q.as_str());
            Ok(())
        },
        Err(e) => Err(encode_error(describe(&e))),
    }
}

/// The JSON object that lists the five fields of a service's record, in their
/// fixed order.
pub open spec fn properties_json(p: ServicePropertiesView) -> Seq<char> {
    "{\"id\":"@ + json_string_text(p.id) + ",\"name\":"@ + json_string_text(p.name)
        + ",\"description\":"@ + json_string_text(p.description) + ",\"http_url\":"@
        + json_string_text(p.http_url) + ",\"ws_url\":"@ + json_string_text(p.ws_url) + "}"@
}

/// The JSON objects of the records of `entries`, in their order.
pub open spec fn listing_items(entries: Seq<ServicePropertiesView>) -> Seq<Seq<char>> {
    entries.map_values(|p: ServicePropertiesView| properties_json(p))
}

/// The JSON array that lists the records of `entries`, in their order.
pub open spec fn listing_json(entries: Seq<ServicePropertiesView>) -> Seq<char> {
    array_text(listing_items(entries))
}

/// Encodes one record as a JSON object. Strings can always be encoded, so
/// this succeeds.
pub fn properties_to_json(props: &ServiceProperties) -> (r: Result<String, EncodeError>)
    ensures
        r matches Ok(s) && s@ == properties_json(props@),
{
    let mut out = String::new();
    append_string_member(&mut out, "{\"id\":", props.id.as_str())?;
    append_string_member(&mut out, ",\"name\":", props.name.as_str())?;
    append_string_member(&mut out, ",\"description\":", props.description.as_str())?;
    append_string_member(&mut out, ",\"http_url\":", props.http_url.as_str())?;
    append_string_member(&mut out, ",\"ws_url\":", props.ws_url.as_str())?;
    out.append("}");
    assert(out@ =~= properties_json(props@));
    Ok(out)
}

} // verus!
