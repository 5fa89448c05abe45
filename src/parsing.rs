//! The parts of HTTP and URL syntax that the bridge relies on, taken from the
//! `http` and `url` crates.

use vstd::prelude::*;

verus! {

/// `http`'s error for text that is not a method.
#[verifier::external_type_specification]
#[verifier::external_body]
pub struct ExInvalidMethod(http::method::InvalidMethod);

/// `http`'s error for text that is not a URI.
#[verifier::external_type_specification]
#[verifier::external_body]
pub struct ExInvalidUri(http::uri::InvalidUri);

/// `http`'s error for text that is not a header name.
#[verifier::external_type_specification]
#[verifier::external_body]
pub struct ExInvalidHeaderName(http::header::InvalidHeaderName);

/// `http`'s error for text that is not a header value.
#[verifier::external_type_specification]
#[verifier::external_body]
pub struct ExInvalidHeaderValue(http::header::InvalidHeaderValue);

/// `url`'s error for text that is not an absolute URL.
#[verifier::external_type_specification]
#[verifier::external_body]
pub struct ExParseError(url::ParseError);


/// Whether `http::Method` accepts the text as a request method.
pub uninterp spec fn method_accepted(m: Seq<char>) -> bool;

/// What `http::Uri` prints back after parsing the text, if it parses at all.
pub uninterp spec fn uri_text(s: Seq<char>) -> Option<Seq<char>>;

/// The canonical form that `http::HeaderName` gives to the text, if it is a
/// header name at all.
pub uninterp spec fn header_name_text(s: Seq<char>) -> Option<Seq<char>>;

/// The serialization of the absolute URL that `url::Url` parses from the text,
/// if it parses at all.
pub uninterp spec fn url_serialization(s: Seq<char>) -> Option<Seq<char>>;

/// A character that may stand in an outgoing header value: any character but
/// the ASCII controls, where a horizontal tab is allowed.
pub open spec fn header_value_allowed(c: char) -> bool {
    (c as u32 >= 32 && c as u32 != 127) || c == '\t'
}

/// Text that can be sent as a header value.
pub open spec fn header_value_ok(s: Seq<char>) -> bool {
    forall|i: int| 0 <= i < s.len() ==> #[trigger] header_value_allowed(s[i])
}

/// A byte that a script can read back from a response header: visible ASCII
/// or a horizontal tab.
pub open spec fn visible_ascii(b: u8) -> bool {
    (b >= 32 && b < 127) || b == 9
}

/// Header bytes as script text, if every byte is visible ASCII.
pub open spec fn visible_header_value(b: Seq<u8>) -> Option<Seq<char>> {
    if forall|i: int| 0 <= i < b.len() ==> #[trigger] visible_ascii(b[i]) {
        Some(b.map_values(|x: u8| x as char))
    } else {
        None
    }
}

/// Relies on `http::Method::from_bytes`: whether the text is a method; the
/// empty text never is.
#[verifier::external_body]
pub(crate) fn check_method(m: &str) -> (r: Result<(), http::method::InvalidMethod>)
    ensures
        r is Ok <==> method_accepted(m@),
        m@.len() == 0 ==> r is Err,
{
    match http::Method::from_bytes(m.as_bytes()) {
        Ok(_) => Ok(()),
        Err(e) => Err(e),
    }
}

/// Relies on `http::Uri`'s `FromStr`, and its `Display` for the text that
/// comes back.
#[verifier::external_body]
pub(crate) fn parse_uri(s: &str) -> (r: Result<String, http::uri::InvalidUri>)
    ensures
        r is Ok <==> uri_text(s@) is Some,
        r is Ok ==> r->Ok_0@ == uri_text(s@)->Some_0,
{
    match s.parse::<http::Uri>() {
        Ok(u) => Ok(u.to_string()),
        Err(e) => Err(e),
    }
}

/// Relies on `http::HeaderName::from_bytes`, and `as_str` for the canonical
/// text.
#[verifier::external_body]
pub(crate) fn parse_header_name(s: &str) -> (r: Result<String, http::header::InvalidHeaderName>)
    ensures
        r is Ok <==> header_name_text(s@) is Some,
        r is Ok ==> r->Ok_0@ == header_name_text(s@)->Some_0,
{
    match http::HeaderName::from_bytes(s.as_bytes()) {
        Ok(n) => Ok(n.as_str().to_string()),
        Err(e) => Err(e),
    }
}

/// Relies on `http::HeaderValue::from_str`: it refuses exactly the ASCII
/// controls other than a tab.
#[verifier::external_body]
pub(crate) fn check_header_value(s: &str) -> (r: Result<(), http::header::InvalidHeaderValue>)
    ensures
        r is Ok <==> header_value_ok(s@),
{
    match http::HeaderValue::from_str(s) {
        Ok(_) => Ok(()),
        Err(e) => Err(e),
    }
}

/// Relies on `http::HeaderValue::to_str`: it yields the bytes as text where
/// each is visible ASCII or a tab, and fails otherwise.
#[verifier::external_body]
pub(crate) fn header_value_text(b: &Vec<u8>) -> (r: Option<String>)
    ensures
        r is Some <==> visible_header_value(b@) is Some,
        r is Some ==> r->Some_0@ == visible_header_value(b@)->Some_0,
{
    match http::HeaderValue::from_bytes(b) {
        Ok(v) => match v.to_str() {
            Ok(s) => Some(s.to_string()),
            Err(_) => None,
        },
        Err(_) => None,
    }
}

/// Relies on `url::Url::parse`, and the serialization that `String::from`
/// takes out of the parsed URL.
#[verifier::external_body]
pub(crate) fn parse_url(s: &str) -> (r: Result<String, url::ParseError>)
    ensures
        r is Ok <==> url_serialization(s@) is Some,
        r is Ok ==> r->Ok_0@ == url_serialization(s@)->Some_0,
{
    match url::Url::parse(s) {
        Ok(u) => Ok(String::from(u)),
        Err(e) => Err(e),
    }
}

} // verus!
