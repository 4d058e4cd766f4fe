use crate::address::{is_alphanumeric, tz4_base58, Address};
use crate::error::Error;
use crate::message::Request;
use vstd::prelude::*;

verus! {

/// Name of the header that carries the caller's identity.
pub const REFERRER: &'static str = "Referer";

/// A number of header names below which a header map is sure to take one
/// more.
pub const MAX_HEADER_NAMES: usize = 4096;

#[verifier::external_type_specification]
#[verifier::external_body]
#[verifier::reject_recursive_types(T)]
pub struct ExHeaderMap<T>(http::HeaderMap<T>);

#[verifier::external_type_specification]
#[verifier::external_body]
pub struct ExHeaderValue(http::HeaderValue);

/// What a header map holds: under each name, in lower case, its values in
/// the order in which they were added.
pub uninterp spec fn header_values(map: http::HeaderMap<http::HeaderValue>) -> Map<
    Seq<u8>,
    Seq<Seq<u8>>,
>;

/// An ASCII letter in lower case; any other byte unchanged.
pub open spec fn lower_byte(b: u8) -> u8 {
    if 65 <= b <= 90 {
        (b + 32) as u8
    } else {
        b
    }
}

/// A header name as a header map keys it: its bytes, letters in lower case.
pub open spec fn header_key(name: Seq<char>) -> Seq<u8> {
    vstd::utf8::encode_utf8(name).map_values(|b: u8| lower_byte(b))
}

/// A header name of one to 64 ASCII letters and digits.
pub open spec fn is_plain_name(name: Seq<char>) -> bool {
    &&& 1 <= name.len() <= 64
    &&& forall|i: int| 0 <= i < name.len() ==> is_alphanumeric(#[trigger] name[i])
}

/// A header value of ASCII letters and digits.
pub open spec fn is_plain_value(value: Seq<char>) -> bool {
    forall|i: int| 0 <= i < value.len() ==> is_alphanumeric(#[trigger] value[i])
}

/// Whether `count` is the number of names in `contents`.
pub open spec fn is_count_of(count: usize, contents: Map<Seq<u8>, Seq<Seq<u8>>>) -> bool {
    contents.dom().finite() && count == contents.dom().len()
}

/// Whether `map` holds fewer names than `MAX_HEADER_NAMES`.
pub open spec fn has_room(map: http::HeaderMap<http::HeaderValue>) -> bool {
    header_values(map).dom().finite() && header_values(map).dom().len() < MAX_HEADER_NAMES
}

/// Calls `http::HeaderMap::contains_key` with a text as the key, which finds
/// a name whatever the case of its letters and finds nothing for a text that
/// is no header name.
#[verifier::external_body]
fn header_contains(map: &http::HeaderMap<http::HeaderValue>, name: &str) -> (present: bool)
    ensures
        present == header_values(*map).contains_key(header_key(name@)),
{
    map.contains_key(name)
}

/// Calls `http::HeaderMap::keys_len`, the number of names that the map
/// holds.
#[verifier::external_body]
fn header_names_len(map: &http::HeaderMap<http::HeaderValue>) -> (count: usize)
    ensures
        is_count_of(count, header_values(*map)),
{
    map.keys_len()
}

/// Calls `http::HeaderMap::try_insert` with the name read by
/// `HeaderName::from_bytes` and the value read by `HeaderValue::from_str`.
/// An insertion puts the one value in place of all values under the name;
/// a refusal leaves the map's contents as they were. Letters and digits make
/// a valid name and a valid value, and a map refuses only where its table
/// would grow beyond 32768 slots, which takes more than 6553 names.
#[verifier::external_body]
fn header_try_set(map: &mut http::HeaderMap<http::HeaderValue>, name: &str, value: &str) -> (set:
    bool)
    ensures
        set ==> header_values(*final(map)) == header_values(*old(map)).insert(
            header_key(name@),
            seq![vstd::utf8::encode_utf8(value@)],
        ),
        !set ==> header_values(*final(map)) == header_values(*old(map)),
        is_plain_name(name@) && is_plain_value(value@) && has_room(*old(map)) ==> set,
{
    let name = http::header::HeaderName::from_bytes(name.as_bytes());
    let value = http::header::HeaderValue::from_str(value);
    match (name, value) {
        (Ok(name), Ok(value)) => map.try_insert(name, value).is_ok(),
        _ => false,
    }
}

/// The request `before` with the identity of `caller` stamped on it.
pub open spec fn stamped_with(before: Request, caller: Seq<u8>, after: Request) -> bool {
    &&& header_values(after.headers) == header_values(before.headers).insert(
        header_key(REFERRER@),
        seq![vstd::utf8::encode_utf8(tz4_base58(caller))],
    )
    &&& after.method == before.method
    &&& after.uri == before.uri
    &&& after.body == before.body
}

/// Whether `request` already names a caller.
pub open spec fn names_caller(request: Request) -> bool {
    header_values(request.headers).contains_key(header_key(REFERRER@))
}

/// Whether `after` is `before` as far as anyone reads it: the same method,
/// target, headers and body.
pub open spec fn kept(before: Request, after: Request) -> bool {
    &&& header_values(after.headers) == header_values(before.headers)
    &&& after.method == before.method
    &&& after.uri == before.uri
    &&& after.body == before.body
}

/// What stamping comes to. A request that names a caller is refused as a
/// spoofing attempt and left as it was. Any other request is stamped, unless
/// its header map refuses the header, which no map with room does; the
/// request then reads as it did.
pub open spec fn stamping(
    before: Request,
    caller: Seq<u8>,
    after: Request,
    stamped: Result<(), Error>,
) -> bool {
    if names_caller(before) {
        stamped == Err::<(), Error>(Error::IdentitySpoofAttempt) && after == before
    } else {
        match stamped {
            Ok(()) => stamped_with(before, caller, after),
            Err(e) => e == Error::HeadersFull && kept(before, after) && !has_room(before.headers),
        }
    }
}

/// Stamps `request` with the identity of its caller, once: a request that
/// already names a caller is refused and left as it was.
pub fn test_and_set_referrer(request: &mut Request, referer: &Address) -> (stamped: Result<
    (),
    Error,
>)
    ensures
        stamping(*old(request), referer@, *final(request), stamped),
{
    if header_contains(&request.headers, REFERRER) {
        return Err(Error::IdentitySpoofAttempt);
    }
    let text = referer.to_base58();
    proof {
        reveal_strlit("Referer");
        assert(is_plain_name(REFERRER@));
    }
    if header_try_set(&mut request.headers, REFERRER, text.as_str()) {
        Ok(())
    } else {
        Err(Error::HeadersFull)
    }
}

/// Whether the header map of `request` has room, so that stamping a request
/// that names no caller is sure to succeed.
pub fn has_room_for_caller(request: &Request) -> (room: bool)
    ensures
        room == has_room(request.headers),
{
    header_names_len(&request.headers) < MAX_HEADER_NAMES
}

} // verus!
