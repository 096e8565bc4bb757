//! Base64, UTF-8, JSON and ids, each from the crate that computes it.
//!
//! Nothing in this module is proved: every function here calls one outside
//! function, and its contract is what the rest of the crate takes from it.

use base64::engine::general_purpose::STANDARD;
use base64::Engine;
use vstd::prelude::*;
use vstd::utf8::*;

verus! {

/// The Base64 text of `bytes` that `STANDARD.encode` gives.
pub uninterp spec fn b64_encoded(bytes: Seq<u8>) -> Seq<char>;

/// What `STANDARD.decode` makes of a text: its bytes, or how the error reads.
pub uninterp spec fn b64_decoded(text: Seq<char>) -> Result<Seq<u8>, Seq<char>>;

/// How the error of `String::from_utf8` reads for bytes that are not UTF-8.
pub uninterp spec fn utf8_error_text(bytes: Seq<u8>) -> Seq<char>;

/// The members of a JSON object: each key with its text, or with `None` where
/// its value is not a string.
pub uninterp spec fn json_members(
    object: serde_json::Map<String, serde_json::Value>,
) -> Map<Seq<char>, Option<Seq<char>>>;

/// The compact JSON text of an object whose members are all strings.
pub uninterp spec fn json_object_text(members: Map<Seq<char>, Option<Seq<char>>>) -> Seq<char>;

/// A JSON object of the `serde_json` crate.
#[verifier::external_type_specification]
#[verifier::external_body]
#[verifier::reject_recursive_types(K)]
#[verifier::reject_recursive_types(V)]
pub struct ExJsonMap<K, V>(serde_json::Map<K, V>);

/// A JSON value of the `serde_json` crate.
#[verifier::external_type_specification]
#[verifier::external_body]
pub struct ExJsonValue(serde_json::Value);

/// The number of characters that padded Base64 takes for `len` bytes.
pub open spec fn b64_len(len: nat) -> nat {
    (len + 2) / 3 * 4
}

/// The symbols of the standard Base64 alphabet and its padding.
pub open spec fn is_b64_char(c: char) -> bool {
    ||| 'A' <= c <= 'Z'
    ||| 'a' <= c <= 'z'
    ||| '0' <= c <= '9'
    ||| c == '+'
    ||| c == '/'
    ||| c == '='
}

/// `Engine::encode` of `base64`'s `STANDARD` engine. Its result is a function of
/// the bytes, takes four characters for every three bytes begun, holds only
/// symbols of the standard alphabet and padding, and decodes to the same bytes.
/// The call panics where that text cannot be allocated.
#[verifier::external_body]
pub(crate) fn base64_encode(bytes: &[u8]) -> (res: String)
    requires
        b64_len(bytes@.len()) <= isize::MAX,
    ensures
        res@ == b64_encoded(bytes@),
        res@.len() == b64_len(bytes@.len()),
        forall|i: int| 0 <= i < res@.len() ==> is_b64_char(#[trigger] res@[i]),
        (b64_decoded(res@) == Ok::<Seq<u8>, Seq<char>>(bytes@)),
{
    STANDARD.encode(bytes)
}

/// `Engine::decode` of `base64`'s `STANDARD` engine, with the error as the text
/// that it displays. Its result is a function of the text.
#[verifier::external_body]
pub(crate) fn base64_decode(text: &str) -> (res: Result<Vec<u8>, String>)
    ensures
        match res {
            Ok(bytes) => b64_decoded(text@) == Ok::<Seq<u8>, Seq<char>>(bytes@),
            Err(message) => b64_decoded(text@) == Err::<Seq<u8>, Seq<char>>(message@),
        },
{
    match STANDARD.decode(text) {
        Ok(bytes) => Ok(bytes),
        Err(e) => Err(e.to_string()),
    }
}

/// `String::from_utf8`, with the error as the text that it displays. It accepts
/// exactly the bytes that are UTF-8, and gives the text that they encode.
#[verifier::external_body]
pub(crate) fn utf8_decode(bytes: Vec<u8>) -> (res: Result<String, String>)
    ensures
        res is Ok <==> valid_utf8(bytes@),
        res matches Ok(text) ==> text@ == decode_utf8(bytes@),
        res matches Err(message) ==> message@ == utf8_error_text(bytes@),
{
    match String::from_utf8(bytes) {
        Ok(text) => Ok(text),
        Err(e) => Err(e.to_string()),
    }
}

/// `serde_json::Map::new`: an object without members.
#[verifier::external_body]
pub(crate) fn json_object() -> (res: serde_json::Map<String, serde_json::Value>)
    ensures
        (json_members(res) == Map::<Seq<char>, Option<Seq<char>>>::empty()),
{
    serde_json::Map::new()
}

/// `serde_json::Map::insert` of a `serde_json::Value::String`: the key now has
/// that text, whatever it had before, and the other members stay as they were.
#[verifier::external_body]
pub(crate) fn json_insert(
    object: &mut serde_json::Map<String, serde_json::Value>,
    key: &str,
    text: &str,
)
    ensures
        json_members(*final(object)) == json_members(*old(object)).insert(key@, Some(text@)),
{
    object.insert(key.to_string(), serde_json::Value::String(text.to_string()));
}

/// `ToString` of a `serde_json::Value::Object`: the compact JSON text of an
/// object whose members are all strings, a function of those members.
#[verifier::external_body]
pub(crate) fn json_text(object: serde_json::Map<String, serde_json::Value>) -> (res: String)
    requires
        forall|k: Seq<char>| #[trigger]
            json_members(object).contains_key(k) ==> json_members(object)[k] is Some,
    ensures
        res@ == json_object_text(json_members(object)),
{
    serde_json::Value::Object(object).to_string()
}

/// A lower-case hexadecimal digit.
pub open spec fn is_hex_digit(c: char) -> bool {
    '0' <= c <= '9' || 'a' <= c <= 'f'
}

/// The hyphenated text of a version 4 UUID: groups of 8, 4, 4, 4 and 12
/// lower-case hexadecimal digits, of which the version digit is 4 and the variant
/// digit one of 8, 9, a and b.
pub open spec fn is_uuid_v4(text: Seq<char>) -> bool {
    &&& text.len() == 36
    &&& forall|i: int|
        0 <= i < 36 ==> if i == 8 || i == 13 || i == 18 || i == 23 {
            #[trigger] text[i] == '-'
        } else {
            is_hex_digit(text[i])
        }
    &&& text[14] == '4'
    &&& text[19] == '8' || text[19] == '9' || text[19] == 'a' || text[19] == 'b'
}

/// `uuid::Uuid::new_v4`, as text. The id is random: of every outcome it holds that
/// it is the text of a version 4 UUID. That two ids differ is not claimed. The call
/// panics where the machine gives no randomness, which no precondition can rule out.
#[verifier::external_body]
pub(crate) fn new_id() -> (res: String)
    ensures
        is_uuid_v4(res@),
{
    uuid::Uuid::new_v4().to_string()
}

} // verus!
