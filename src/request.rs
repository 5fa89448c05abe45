//! The script request as the bridge sees it, and the native request built
//! from it.

use vstd::prelude::*;

use crate::error::FetchError;
use crate::parsing::{
    check_header_value, check_method, header_name_text, header_value_ok, method_accepted,
    parse_header_name, parse_uri, uri_text,
};

verus! {

/// The body of a script request: absent, present, or already taken.
pub enum RequestBody {
    Absent,
    Bytes(Vec<u8>),
    Taken,
}

/// A script-level request: method, target URL, headers in enumeration order,
/// and a body that can be taken once.
pub struct ScriptRequest {
    pub method: String,
    pub url: String,
    pub headers: Vec<(String, String)>,
    pub body: RequestBody,
}

/// Headers as text pairs.
pub open spec fn header_view(h: Seq<(String, String)>) -> Seq<(Seq<char>, Seq<char>)> {
    h.map_values(|p: (String, String)| (p.0@, p.1@))
}

/// Headers that can all go into a native request.
pub open spec fn headers_ok(h: Seq<(Seq<char>, Seq<char>)>) -> bool {
    forall|i: int|
        0 <= i < h.len() ==> #[trigger] header_name_text(h[i].0) is Some && header_value_ok(
            h[i].1,
        )
}

/// The headers of a native request: each name in its canonical form, each
/// value as it was, in the same order.
pub open spec fn native_headers(h: Seq<(Seq<char>, Seq<char>)>) -> Seq<(Seq<char>, Seq<char>)> {
    h.map_values(|p: (Seq<char>, Seq<char>)| (header_name_text(p.0)->Some_0, p.1))
}

/// The method, target and headers of a native request, as text.
pub struct HeadModel {
    pub method: Seq<char>,
    pub uri: Seq<char>,
    pub headers: Seq<(Seq<char>, Seq<char>)>,
}

/// A native request, as text and bytes.
pub struct NativeRequestModel {
    pub method: Seq<char>,
    pub uri: Seq<char>,
    pub headers: Seq<(Seq<char>, Seq<char>)>,
    pub body: Seq<u8>,
}

/// The head that a script request with this method, URL and headers gives,
/// if each of them is acceptable.
pub open spec fn head_of(m: Seq<char>, u: Seq<char>, h: Seq<(Seq<char>, Seq<char>)>) -> Option<
    HeadModel,
> {
    if method_accepted(m) && uri_text(u) is Some && headers_ok(h) {
        Some(HeadModel { method: m, uri: uri_text(u)->Some_0, headers: native_headers(h) })
    } else {
        None
    }
}

/// What taking the body hands out: its bytes, or nothing where there is no
/// body.
pub open spec fn detached(b: RequestBody) -> Option<Vec<u8>> {
    match b {
        RequestBody::Bytes(v) => Some(v),
        _ => None,
    }
}

/// The bytes that a native request carries for a detached body: none where
/// the body was absent.
pub open spec fn body_bytes(b: Option<Vec<u8>>) -> Seq<u8> {
    match b {
        Some(v) => v@,
        None => Seq::empty(),
    }
}

impl ScriptRequest {
    /// A request whose body has not been taken.
    pub fn new(
        method: String,
        url: String,
        headers: Vec<(String, String)>,
        body: Option<Vec<u8>>,
    ) -> (r: ScriptRequest)
        ensures
            r.method == method,
            r.url == url,
            r.headers == headers,
            r.body == (match body {
                Some(v) => RequestBody::Bytes(v),
                None => RequestBody::Absent,
            }),
    {
        let body = match body {
            Some(v) => RequestBody::Bytes(v),
            None => RequestBody::Absent,
        };
        ScriptRequest { method, url, headers, body }
    }

    /// The head of the native request that this request gives, if any.
    pub open spec fn head(&self) -> Option<HeadModel> {
        head_of(self.method@, self.url@, header_view(self.headers@))
    }

    /// The request after its body is taken, and what the take gives.
    pub open spec fn take_outcome(self) -> (ScriptRequest, Result<Option<Vec<u8>>, FetchError>) {
        if self.body is Taken {
            (self, Err(FetchError::BodyUsed))
        } else {
            (ScriptRequest { body: RequestBody::Taken, ..self }, Ok(detached(self.body)))
        }
    }

    /// Takes the body out of the request. A second take fails: it never
    /// gives an empty body in place of the one already taken.
    pub fn take_body(&mut self) -> (r: Result<Option<Vec<u8>>, FetchError>)
        ensures
            (*final(self), r) == old(self).take_outcome(),
    {
        if matches!(self.body, RequestBody::Taken) {
            return Err(FetchError::BodyUsed);
        }
        let mut body = RequestBody::Taken;
        std::mem::swap(&mut self.body, &mut body);
        match body {
            RequestBody::Bytes(v) => Ok(Some(v)),
            _ => Ok(None),
        }
    }
}

/// Taking a body twice: the first take gives what the request held, the
/// second fails with `BodyUsed`.
pub proof fn lemma_body_taken_once(req: ScriptRequest)
    requires
        !(req.body is Taken),
    ensures
        req.take_outcome().1 == Ok::<Option<Vec<u8>>, FetchError>(detached(req.body)),
        req.take_outcome().0.take_outcome().1 == Err::<Option<Vec<u8>>, FetchError>(
            FetchError::BodyUsed,
        ),
{
}

/// The method, target and headers of a native request, checked by the HTTP
/// parsers.
pub struct RequestHead {
    pub method: String,
    pub uri: String,
    pub headers: Vec<(String, String)>,
}

impl View for RequestHead {
    type V = HeadModel;

    open spec fn view(&self) -> HeadModel {
        HeadModel { method: self.method@, uri: self.uri@, headers: header_view(self.headers@) }
    }
}

/// A native request, ready for the asset dispatcher.
pub struct NativeRequest {
    pub method: String,
    pub uri: String,
    pub headers: Vec<(String, String)>,
    pub body: Vec<u8>,
}

impl View for NativeRequest {
    type V = NativeRequestModel;

    open spec fn view(&self) -> NativeRequestModel {
        NativeRequestModel {
            method: self.method@,
            uri: self.uri@,
            headers: header_view(self.headers@),
            body: self.body@,
        }
    }
}

/// The native request built from a head and a detached body.
pub open spec fn native_of(head: HeadModel, body: Option<Vec<u8>>) -> NativeRequestModel {
    NativeRequestModel {
        method: head.method,
        uri: head.uri,
        headers: head.headers,
        body: body_bytes(body),
    }
}

/// Copies the method, target and headers of a script request into the head
/// of a native request, in header enumeration order. Fails with
/// `RequestBuild` where the HTTP parsers refuse one of them.
pub fn extract_head(req: &ScriptRequest) -> (r: Result<RequestHead, FetchError>)
    ensures
        r is Ok <==> req.head() is Some,
        r is Ok ==> r->Ok_0@ == req.head()->Some_0,
        r is Err ==> r->Err_0 is RequestBuild,
{
    if let Err(e) = check_method(req.method.as_str()) {
        return Err(FetchError::RequestBuild(e.to_string()));
    }
    let uri = match parse_uri(req.url.as_str()) {
        Ok(u) => u,
        Err(e) => {
            return Err(FetchError::RequestBuild(e.to_string()));
        },
    };
    let ghost h = header_view(req.headers@);
    let mut headers: Vec<(String, String)> = Vec::new();
    let mut i: usize = 0;
    while i < req.headers.len()
        invariant
            i <= req.headers@.len(),
            h == header_view(req.headers@),
            headers@.len() == i,
            forall|j: int|
                0 <= j < i ==> #[trigger] header_name_text(h[j].0) is Some && header_value_ok(
                    h[j].1,
                ),
            header_view(headers@) =~= native_headers(h).subrange(0, i as int),
        decreases req.headers@.len() - i,
    {
        assert(h[i as int] == (req.headers@[i as int].0@, req.headers@[i as int].1@));
        let name = match parse_header_name(req.headers[i].0.as_str()) {
            Ok(n) => n,
            Err(e) => {
                assert(header_name_text(h[i as int].0) is None);
                return Err(FetchError::RequestBuild(e.to_string()));
            },
        };
        if let Err(e) = check_header_value(req.headers[i].1.as_str()) {
            assert(!header_value_ok(h[i as int].1));
            return Err(FetchError::RequestBuild(e.to_string()));
        }
        let value = req.headers[i].1.clone();
        headers.push((name, value));
        i = i + 1;
    }
    assert(header_view(headers@) =~= native_headers(h));
    Ok(RequestHead { method: req.method.clone(), uri, headers })
}

/// Attaches the drained body to a head: the bytes where there were some, the
/// empty sequence where the body was absent.
pub fn finish_request(head: RequestHead, body: Option<Vec<u8>>) -> (r: NativeRequest)
    ensures
        r@ == native_of(head@, body),
{
    let bytes = match body {
        Some(v) => v,
        None => Vec::new(),
    };
    NativeRequest { method: head.method, uri: head.uri, headers: head.headers, body: bytes }
}

} // verus!
