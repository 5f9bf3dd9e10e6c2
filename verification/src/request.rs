//! The parts of an HTTP request: the trusted boundary to the `http` and `url`
//! crates.
//!
//! Methods, header names, header values, header maps and URLs are values of
//! those crates. Verus sees none of their inside; the contracts below speak of
//! the text that each of them stands for.
use http::header::{
    HeaderMap, HeaderName, HeaderValue, InvalidHeaderName, InvalidHeaderValue, MaxSizeReached,
};
use http::method::InvalidMethod;
use http::Method;
use std::time::Duration;
use url::ParseError as UrlParseError;
use url::Url;
use vstd::prelude::*;

verus! {

/// `http::Method`: an HTTP method.
#[verifier::external_type_specification]
#[verifier::external_body]
pub struct ExMethod(Method);

/// `http::method::InvalidMethod`: the refusal of a method.
#[verifier::external_type_specification]
#[verifier::external_body]
pub struct ExInvalidMethod(InvalidMethod);

/// `http::header::HeaderName`: the name of a header.
#[verifier::external_type_specification]
#[verifier::external_body]
pub struct ExHeaderName(HeaderName);

/// `http::header::InvalidHeaderName`: the refusal of a header name.
#[verifier::external_type_specification]
#[verifier::external_body]
pub struct ExInvalidHeaderName(InvalidHeaderName);

/// `http::header::HeaderValue`: the value of a header.
#[verifier::external_type_specification]
#[verifier::external_body]
pub struct ExHeaderValue(HeaderValue);

/// `http::header::InvalidHeaderValue`: the refusal of a header value.
#[verifier::external_type_specification]
#[verifier::external_body]
pub struct ExInvalidHeaderValue(InvalidHeaderValue);

/// `http::header::HeaderMap`: header names, each with one or more values.
#[verifier::external_type_specification]
#[verifier::external_body]
#[verifier::reject_recursive_types(T)]
pub struct ExHeaderMap<T>(HeaderMap<T>);

/// `http::header::MaxSizeReached`: the refusal to grow a header map.
#[verifier::external_type_specification]
#[verifier::external_body]
pub struct ExMaxSizeReached(MaxSizeReached);

/// `url::Url`: a parsed absolute URL.
#[verifier::external_type_specification]
#[verifier::external_body]
pub struct ExUrl(Url);

/// `url::ParseError`: the refusal of a URL.
#[verifier::external_type_specification]
#[verifier::external_body]
pub struct ExUrlParseError(UrlParseError);

/// The token that a method stands for, as bytes.
pub uninterp spec fn method_token(method: Method) -> Seq<u8>;

/// The name that a header name stands for, as bytes, in lower case.
pub uninterp spec fn header_name_bytes(name: HeaderName) -> Seq<u8>;

/// The bytes of a header value.
pub uninterp spec fn header_value_bytes(value: HeaderValue) -> Seq<u8>;

/// Header names, each with the values under it, first to last.
pub type HeaderEntries = Map<Seq<u8>, Seq<Seq<u8>>>;

/// What a header map holds.
pub uninterp spec fn header_map_entries(map: HeaderMap<HeaderValue>) -> HeaderEntries;

/// The serialization of a URL.
pub uninterp spec fn url_text(url: Url) -> Seq<char>;

/// The serialization of the absolute URL that `input` is parsed into, or
/// `None` where `input` is no absolute URL.
pub uninterp spec fn parsed_url(input: Seq<char>) -> Option<Seq<char>>;

/// The length of a duration, in nanoseconds.
pub uninterp spec fn duration_nanos(duration: Duration) -> nat;

/// The characters of an HTTP token: letters, digits and
/// ``! # $ % & ' * + - . ^ _ ` | ~``.
pub open spec fn is_token_byte(b: u8) -> bool {
    ||| 0x30 <= b <= 0x39
    ||| 0x41 <= b <= 0x5a
    ||| 0x61 <= b <= 0x7a
    ||| b == 0x21
    ||| b == 0x23
    ||| b == 0x24
    ||| b == 0x25
    ||| b == 0x26
    ||| b == 0x27
    ||| b == 0x2a
    ||| b == 0x2b
    ||| b == 0x2d
    ||| b == 0x2e
    ||| b == 0x5e
    ||| b == 0x5f
    ||| b == 0x60
    ||| b == 0x7c
    ||| b == 0x7e
}

/// Whether every byte is a token character.
pub open spec fn all_token_bytes(bytes: Seq<u8>) -> bool {
    forall|i: int| 0 <= i < bytes.len() ==> is_token_byte(#[trigger] bytes[i])
}

/// A method is a token of at least one character.
pub open spec fn is_method_token(bytes: Seq<u8>) -> bool {
    bytes.len() > 0 && all_token_bytes(bytes)
}

/// A header name is a token of one to 65535 characters.
pub open spec fn is_header_name(bytes: Seq<u8>) -> bool {
    0 < bytes.len() <= 65535 && all_token_bytes(bytes)
}

/// An upper-case letter becomes its lower-case letter; any other byte stays.
pub open spec fn lower_byte(b: u8) -> u8 {
    if 0x41 <= b <= 0x5a {
        (b + 0x20) as u8
    } else {
        b
    }
}

/// The bytes with every upper-case letter in lower case.
pub open spec fn lower_bytes(bytes: Seq<u8>) -> Seq<u8> {
    bytes.map_values(|b: u8| lower_byte(b))
}

/// A header value byte is a tab, or anything from the space upwards but the
/// delete character.
pub open spec fn is_header_value_byte(b: u8) -> bool {
    (b >= 32 && b != 127) || b == 9
}

/// Whether every byte may stand in a header value.
pub open spec fn is_header_value(bytes: Seq<u8>) -> bool {
    forall|i: int| 0 <= i < bytes.len() ==> is_header_value_byte(#[trigger] bytes[i])
}

/// `http::Method::from_bytes`: accepts exactly the tokens of at least one
/// character, and the method stands for the token as it was written.
pub assume_specification[ Method::from_bytes ](src: &[u8]) -> (r: Result<Method, InvalidMethod>)
    ensures
        r is Ok <==> is_method_token(src@),
        r matches Ok(method) ==> method_token(method) == src@,
;

/// `http::header::HeaderName::from_bytes`: accepts exactly the tokens of one
/// to 65535 characters, and normalizes: the name stands for the token in lower
/// case.
pub assume_specification[ HeaderName::from_bytes ](src: &[u8]) -> (r: Result<
    HeaderName,
    InvalidHeaderName,
>)
    ensures
        r is Ok <==> is_header_name(src@),
        r matches Ok(name) ==> header_name_bytes(name) == lower_bytes(src@),
;

/// `http::header::HeaderValue::from_bytes`: accepts exactly the byte strings
/// made of tabs and of bytes from 32 upwards other than 127, and the value
/// holds the bytes as they were given.
pub assume_specification[ HeaderValue::from_bytes ](src: &[u8]) -> (r: Result<
    HeaderValue,
    InvalidHeaderValue,
>)
    ensures
        r is Ok <==> is_header_value(src@),
        r matches Ok(value) ==> header_value_bytes(value) == src@,
;

/// `http::header::HeaderMap::new`: a map that holds nothing.
pub assume_specification[ HeaderMap::<HeaderValue>::new ]() -> (headers: HeaderMap<HeaderValue>)
    ensures
        header_map_entries(headers) == HeaderEntries::empty(),
;

/// So many headers are sure to fit into a header map that was empty.
pub const HEADERS_SURE_TO_FIT: usize = 6554;

/// `http::header::HeaderMap::try_insert`: where it succeeds, the name has the
/// given value as its only value, and every other name has what it had.
///
/// It fails only where the map's table would have to grow beyond its 32768
/// slots, or holds 32768 names. The table grows when the names fill three
/// quarters of its slots, or, after a long run of collisions, a fifth of
/// them: so an insert into a map of fewer than [`HEADERS_SURE_TO_FIT`] names
/// succeeds. Nothing is said here of the map after a failure.
#[verifier::external_body]
pub(crate) fn header_map_try_insert(
    map: &mut HeaderMap<HeaderValue>,
    name: HeaderName,
    value: HeaderValue,
) -> (r: Result<(), MaxSizeReached>)
    ensures
        r is Ok ==> header_map_entries(*final(map)) == header_map_entries(*old(map)).insert(
            header_name_bytes(name),
            seq![header_value_bytes(value)],
        ),
        header_map_entries(*old(map)).dom().finite() && header_map_entries(*old(map)).dom().len()
            < HEADERS_SURE_TO_FIT ==> r is Ok,
{
    map.try_insert(name, value).map(|_| ())
}

/// `std::time::Duration::from_secs`: the duration of so many whole seconds.
pub assume_specification[ Duration::from_secs ](secs: u64) -> (duration: Duration)
    ensures
        duration_nanos(duration) == secs * 1_000_000_000,
;

/// `url::Url::parse`: parses an absolute URL. The URL it returns is named by
/// [`parsed_url`].
pub assume_specification[ Url::parse ](input: &str) -> (r: Result<Url, UrlParseError>)
    ensures
        r is Ok <==> parsed_url(input@) is Some,
        r matches Ok(url) ==> parsed_url(input@) == Some(url_text(url)),
;

} // verus!
