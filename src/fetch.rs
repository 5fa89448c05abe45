//! One fetch, from the call that returns its promise to the settlement of
//! that promise, as a state machine. The host performs each action (drain the
//! body, call the dispatcher, settle the promise) and hands back what came of
//! it; what happens next is decided here.

use vstd::prelude::*;

use crate::capability::EnvAssets;
use crate::error::FetchError;
use crate::parsing::{parse_url, url_serialization};
use crate::request::{
    body_bytes, RequestBody, detached, finish_request, header_view, native_headers, native_of, NativeRequest,
    RequestHead, ScriptRequest,
};
use crate::parsing::{header_name_text, uri_text};
use crate::response::{
    converted, rejected_header, response_from_native, response_headers_ok, NativeResponse,
    ScriptResponse,
};

verus! {

/// Where a fetch stands. A fetch that is not `Settled` has a pending promise.
pub enum FetchState {
    /// The body has been detached; its bytes are being collected.
    AwaitingBody(RequestHead),
    /// The native request went to the dispatcher; holds the absolute URL.
    AwaitingResponse(String),
    /// The promise has been resolved or rejected.
    Settled,
}

/// What the host does next for a fetch.
pub enum FetchAction {
    /// Collect the detached body into bytes; absent where there was no body.
    DrainBody(Option<Vec<u8>>),
    /// Hand the native request to the asset dispatcher.
    Dispatch(NativeRequest),
    /// Resolve the promise with this response.
    Resolve(ScriptResponse),
    /// Reject the promise with this error's message.
    Reject(FetchError),
}

/// The first step of a fetch on `req`, which leaves the request as `req2`: a
/// state and an action are always given, and a failure here is a rejection.
pub open spec fn fetch_started(
    req: ScriptRequest,
    req2: ScriptRequest,
    s: FetchState,
    a: FetchAction,
) -> bool {
    match req.head() {
        None => req2 == req && s is Settled && a is Reject && a->Reject_0 is RequestBuild,
        Some(h) => if req.body is Taken {
            req2 == req && s is Settled && a == FetchAction::Reject(FetchError::BodyUsed)
        } else {
            &&& req2 == req.take_outcome().0
            &&& s is AwaitingBody
            &&& s->AwaitingBody_0@ == h
            &&& a == FetchAction::DrainBody(detached(req.body))
        },
    }
}

/// The step of a fetch in state `s` that receives the collected body.
pub open spec fn body_received(
    s: FetchState,
    drained: Result<Option<Vec<u8>>, String>,
    s2: FetchState,
    a: FetchAction,
) -> bool {
    match drained {
        Err(e) => s2 is Settled && a == FetchAction::Reject(FetchError::BodyDrain(e)),
        Ok(b) => {
            let n = native_of(s->AwaitingBody_0@, b);
            match url_serialization(n.uri) {
                None => s2 is Settled && a is Reject && a->Reject_0 is RequestBuild,
                Some(u) => {
                    &&& s2 is AwaitingResponse
                    &&& s2->AwaitingResponse_0@ == u
                    &&& a is Dispatch
                    &&& a->Dispatch_0@ == n
                },
            }
        },
    }
}

/// The step of a fetch in state `s` that receives the dispatcher's outcome:
/// the promise is settled whatever it was.
pub open spec fn response_received(
    s: FetchState,
    outcome: Result<NativeResponse, String>,
    s2: FetchState,
    a: FetchAction,
) -> bool {
    &&& s2 is Settled
    &&& match outcome {
        Err(e) => a == FetchAction::Reject(FetchError::Dispatch(e)),
        Ok(resp) => if response_headers_ok(resp.headers@) {
            a is Resolve && converted(resp, s->AwaitingResponse_0@, a->Resolve_0)
        } else {
            a is Reject && rejected_header(resp, a->Reject_0)
        },
    }
}

impl FetchState {
    /// Takes the collected body: builds the native request, checks that its
    /// target is an absolute URL, and asks for its dispatch.
    pub fn on_body(&mut self, drained: Result<Option<Vec<u8>>, String>) -> (a: FetchAction)
        requires
            *old(self) is AwaitingBody,
        ensures
            body_received(*old(self), drained, *final(self), a),
    {
        let mut st = FetchState::Settled;
        std::mem::swap(self, &mut st);
        let head = match st {
            FetchState::AwaitingBody(h) => h,
            // Not reached: the precondition fixes the state.
            _ => {
                return FetchAction::Reject(FetchError::BodyUsed);
            },
        };
        let body = match drained {
            Ok(b) => b,
            Err(e) => {
                return FetchAction::Reject(FetchError::BodyDrain(e));
            },
        };
        let native = finish_request(head, body);
        match parse_url(native.uri.as_str()) {
            Ok(u) => {
                *self = FetchState::AwaitingResponse(u);
                FetchAction::Dispatch(native)
            },
            Err(e) => FetchAction::Reject(FetchError::RequestBuild(e.to_string())),
        }
    }

    /// Takes the dispatcher's outcome and settles the promise: resolved with
    /// the converted response, or rejected.
    pub fn on_response(&mut self, outcome: Result<NativeResponse, String>) -> (a: FetchAction)
        requires
            *old(self) is AwaitingResponse,
        ensures
            response_received(*old(self), outcome, *final(self), a),
    {
        let mut st = FetchState::Settled;
        std::mem::swap(self, &mut st);
        let url = match st {
            FetchState::AwaitingResponse(u) => u,
            // Not reached: the precondition fixes the state.
            _ => {
                return FetchAction::Reject(FetchError::BodyUsed);
            },
        };
        match outcome {
            Err(e) => FetchAction::Reject(FetchError::Dispatch(e)),
            Ok(resp) => match response_from_native(resp, url) {
                Ok(r) => FetchAction::Resolve(r),
                Err(e) => FetchAction::Reject(e),
            },
        }
    }
}

/// The fetches of one script context, each under the index it was started
/// at. Each step touches its own fetch alone, so concurrent fetches never see
/// each other's requests or responses.
pub struct FetchTable {
    pub fetches: Vec<FetchState>,
}

impl FetchTable {
    /// A table with no fetch.
    pub fn new() -> (r: FetchTable)
        ensures
            r.fetches@.len() == 0,
    {
        FetchTable { fetches: Vec::new() }
    }

    /// Starts a fetch of `request` under the next index; the fetches already
    /// there are kept as they were.
    pub fn start(&mut self, assets: &EnvAssets, request: &mut ScriptRequest) -> (r: (
        usize,
        FetchAction,
    ))
        ensures
            r.0 == old(self).fetches@.len(),
            final(self).fetches@.len() == old(self).fetches@.len() + 1,
            final(self).fetches@.subrange(0, r.0 as int) == old(self).fetches@,
            fetch_started(*old(request), *final(request), final(self).fetches@[r.0 as int], r.1),
    {
        let (st, a) = assets.fetch(request);
        let id = self.fetches.len();
        self.fetches.push(st);
        assert(self.fetches@.subrange(0, id as int) =~= old(self).fetches@);
        (id, a)
    }

    /// Hands the collected body to the fetch under `id`; every other fetch
    /// is kept as it was.
    pub fn deliver_body(&mut self, id: usize, drained: Result<Option<Vec<u8>>, String>) -> (a:
        FetchAction)
        requires
            id < old(self).fetches@.len(),
            old(self).fetches@[id as int] is AwaitingBody,
        ensures
            final(self).fetches@ == old(self).fetches@.update(
                id as int,
                final(self).fetches@[id as int],
            ),
            body_received(old(self).fetches@[id as int], drained, final(self).fetches@[id as int], a),
    {
        let a = self.fetches[id].on_body(drained);
        a
    }

    /// Hands the dispatcher's outcome to the fetch under `id`; every other
    /// fetch is kept as it was.
    pub fn deliver_response(&mut self, id: usize, outcome: Result<NativeResponse, String>) -> (a:
        FetchAction)
        requires
            id < old(self).fetches@.len(),
            old(self).fetches@[id as int] is AwaitingResponse,
        ensures
            final(self).fetches@ == old(self).fetches@.update(
                id as int,
                final(self).fetches@[id as int],
            ),
            response_received(
                old(self).fetches@[id as int],
                outcome,
                final(self).fetches@[id as int],
                a,
            ),
    {
        let a = self.fetches[id].on_response(outcome);
        a
    }
}

/// A request whose method, target and headers are acceptable, whose body was
/// not taken, and whose target is an absolute URL, reaches the dispatcher with
/// the same method, the parsed target, its headers in the same order (each
/// name in canonical form, so a list of canonical names is kept as it is), and
/// exactly its body bytes: none where it had no body.
pub proof fn lemma_request_bridged(
    req: ScriptRequest,
    req2: ScriptRequest,
    s: FetchState,
    a: FetchAction,
    s2: FetchState,
    a2: FetchAction,
)
    requires
        req.head() is Some,
        !(req.body is Taken),
        url_serialization(uri_text(req.url@)->Some_0) is Some,
        fetch_started(req, req2, s, a),
        body_received(s, Ok(detached(req.body)), s2, a2),
    ensures
        a is DrainBody,
        a2 is Dispatch,
        a2->Dispatch_0@.method == req.method@,
        a2->Dispatch_0@.uri == uri_text(req.url@)->Some_0,
        a2->Dispatch_0@.headers == native_headers(header_view(req.headers@)),
        (forall|i: int|
            0 <= i < req.headers@.len() ==> #[trigger] header_name_text(req.headers@[i].0@) == Some(
                req.headers@[i].0@,
            )) ==> a2->Dispatch_0@.headers == header_view(req.headers@),
        a2->Dispatch_0@.body == body_bytes(detached(req.body)),
        req.body matches RequestBody::Bytes(v) ==> a2->Dispatch_0@.body == v@,
        req.body is Absent ==> a2->Dispatch_0@.body == Seq::<u8>::empty(),
{
    let h = header_view(req.headers@);
    if forall|i: int|
        0 <= i < req.headers@.len() ==> #[trigger] header_name_text(req.headers@[i].0@) == Some(
            req.headers@[i].0@,
        ) {
        assert forall|i: int| 0 <= i < h.len() implies native_headers(h)[i] == h[i] by {
            assert(header_name_text(req.headers@[i].0@) == Some(req.headers@[i].0@));
        }
        assert(native_headers(h) =~= h);
    }
}

/// Two fetches started one after the other, each of a request that can be
/// bridged, stay apart: each dispatches its own body bytes alone, and each
/// settles from its own dispatcher outcome and its own URL, in whichever order
/// the outcomes arrive.
pub proof fn lemma_fetches_apart(
    r1: ScriptRequest,
    r1b: ScriptRequest,
    r2: ScriptRequest,
    r2b: ScriptRequest,
    t0: Seq<FetchState>,
    t1: Seq<FetchState>,
    t2: Seq<FetchState>,
    a1: FetchAction,
    a2: FetchAction,
    t3: Seq<FetchState>,
    d1: FetchAction,
    t4: Seq<FetchState>,
    d2: FetchAction,
)
    requires
        r1.head() is Some,
        !(r1.body is Taken),
        url_serialization(uri_text(r1.url@)->Some_0) is Some,
        r2.head() is Some,
        !(r2.body is Taken),
        url_serialization(uri_text(r2.url@)->Some_0) is Some,
        t1.len() == t0.len() + 1,
        t1.subrange(0, t0.len() as int) == t0,
        fetch_started(r1, r1b, t1[t0.len() as int], a1),
        t2.len() == t1.len() + 1,
        t2.subrange(0, t1.len() as int) == t1,
        fetch_started(r2, r2b, t2[t1.len() as int], a2),
        t3 == t2.update(t1.len() as int, t3[t1.len() as int]),
        body_received(t2[t1.len() as int], Ok(detached(r2.body)), t3[t1.len() as int], d2),
        t4 == t3.update(t0.len() as int, t4[t0.len() as int]),
        body_received(t3[t0.len() as int], Ok(detached(r1.body)), t4[t0.len() as int], d1),
    ensures
        d1 is Dispatch,
        d1->Dispatch_0@.body == body_bytes(detached(r1.body)),
        d2 is Dispatch,
        d2->Dispatch_0@.body == body_bytes(detached(r2.body)),
        t4[t0.len() as int] is AwaitingResponse,
        t4[t0.len() as int]->AwaitingResponse_0@ == url_serialization(uri_text(r1.url@)->Some_0)->Some_0,
        t4[t1.len() as int] is AwaitingResponse,
        t4[t1.len() as int]->AwaitingResponse_0@ == url_serialization(uri_text(r2.url@)->Some_0)->Some_0,
        forall|o1: Result<NativeResponse, String>, s: FetchState, a: FetchAction|
            #[trigger] response_received(t4[t0.len() as int], o1, s, a) && o1 is Ok
                && response_headers_ok(o1->Ok_0.headers@) ==> a is Resolve
                && converted(o1->Ok_0, url_serialization(uri_text(r1.url@)->Some_0)->Some_0, a->Resolve_0),
        forall|o2: Result<NativeResponse, String>, s: FetchState, a: FetchAction|
            #[trigger] response_received(t4[t1.len() as int], o2, s, a) && o2 is Ok
                && response_headers_ok(o2->Ok_0.headers@) ==> a is Resolve
                && converted(o2->Ok_0, url_serialization(uri_text(r2.url@)->Some_0)->Some_0, a->Resolve_0),
{
    let i1 = t0.len() as int;
    let i2 = t1.len() as int;
    assert(t2[i1] == t2.subrange(0, i2)[i1]);
    assert(t3[i1] == t2[i1]);
    assert(t4[i2] == t3[i2]);
    lemma_request_bridged(r1, r1b, t1[i1], a1, t4[i1], d1);
    lemma_request_bridged(r2, r2b, t2[i2], a2, t3[i2], d2);
}

} // verus!
