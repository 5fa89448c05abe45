//! The native response handed back by the asset dispatcher, and the script
//! response made from it.

use vstd::prelude::*;

use crate::error::FetchError;
use crate::parsing::{header_value_text, visible_header_value};

verus! {

/// A native response: status, headers with their raw value bytes, and the
/// whole body.
pub struct NativeResponse {
    pub status: u16,
    pub headers: Vec<(String, Vec<u8>)>,
    pub body: Vec<u8>,
}

/// A script-level response, tagged with the URL that produced it.
pub struct ScriptResponse {
    pub status: u16,
    pub headers: Vec<(String, String)>,
    pub body: Vec<u8>,
    pub url: String,
}

/// Whether every header value of a native response can be read as script
/// text.
pub open spec fn response_headers_ok(h: Seq<(String, Vec<u8>)>) -> bool {
    forall|i: int| 0 <= i < h.len() ==> #[trigger] visible_header_value(h[i].1@) is Some
}

/// What a script response made from `resp` and `url` holds.
pub open spec fn converted(resp: NativeResponse, url: Seq<char>, r: ScriptResponse) -> bool {
    &&& r.status == resp.status
    &&& r.body@ == resp.body@
    &&& r.url@ == url
    &&& r.headers@.len() == resp.headers@.len()
    &&& forall|i: int|
        0 <= i < resp.headers@.len() ==> {
            &&& (#[trigger] r.headers@[i]).0@ == resp.headers@[i].0@
            &&& r.headers@[i].1@ == visible_header_value(resp.headers@[i].1@)->Some_0
        }
}

/// `e` names the first header of `resp` whose value cannot be read as script
/// text.
pub open spec fn rejected_header(resp: NativeResponse, e: FetchError) -> bool {
    exists|i: int|
        {
            &&& 0 <= i < resp.headers@.len()
            &&& visible_header_value(#[trigger] resp.headers@[i].1@) is None
            &&& forall|j: int|
                0 <= j < i ==> #[trigger] visible_header_value(resp.headers@[j].1@) is Some
            &&& e == FetchError::ResponseConversion(resp.headers@[i].0)
        }
}

/// Makes the script response for a native response and the absolute URL that
/// produced it. Fails with `ResponseConversion`, naming the first header
/// whose value is not visible ASCII, where there is one.
pub fn response_from_native(resp: NativeResponse, url: String) -> (r: Result<
    ScriptResponse,
    FetchError,
>)
    ensures
        r is Ok <==> response_headers_ok(resp.headers@),
        r is Ok ==> converted(resp, url@, r->Ok_0),
        r is Err ==> rejected_header(resp, r->Err_0),
{
    let mut headers: Vec<(String, String)> = Vec::new();
    let mut i: usize = 0;
    while i < resp.headers.len()
        invariant
            i <= resp.headers@.len(),
            headers@.len() == i,
            forall|j: int| 0 <= j < i ==> #[trigger] visible_header_value(resp.headers@[j].1@) is Some,
            forall|j: int|
                0 <= j < i ==> {
                    &&& (#[trigger] headers@[j]).0@ == resp.headers@[j].0@
                    &&& headers@[j].1@ == visible_header_value(resp.headers@[j].1@)->Some_0
                },
        decreases resp.headers@.len() - i,
    {
        match header_value_text(&resp.headers[i].1) {
            Some(v) => {
                headers.push((resp.headers[i].0.clone(), v));
            },
            None => {
                let e = FetchError::ResponseConversion(resp.headers[i].0.clone());
                assert(visible_header_value(resp.headers@[i as int].1@) is None);
                return Err(e);
            },
        }
        i = i + 1;
    }
    Ok(ScriptResponse { status: resp.status, headers, body: resp.body, url })
}

} // verus!
