//! Host-side bridge that lets script code fetch static assets through a
//! capability object and receive the outcome as a settled promise.
//!
//! The script engine and the asynchronous executor live outside this crate;
//! what is decided here is how a script request becomes a native request,
//! how a native response becomes a script response, and how one fetch moves
//! from its first call to the settlement of its promise.

mod capability;
mod error;
mod fetch;
mod parsing;
mod request;
mod response;

pub use parsing::{
    header_name_text, header_value_allowed, header_value_ok, method_accepted, uri_text,
    url_serialization, visible_ascii, visible_header_value,
};
pub use error::{ErrorKind, FetchError, ScriptError};
pub use request::{
    body_bytes, detached, extract_head, finish_request, head_of, header_view, headers_ok,
    lemma_body_taken_once, native_headers, native_of, HeadModel, NativeRequest, NativeRequestModel,
    RequestBody, RequestHead, ScriptRequest,
};
pub use response::{
    converted, rejected_header, response_from_native, response_headers_ok, NativeResponse, ScriptResponse,
};
pub use fetch::{
    body_received, fetch_started, lemma_fetches_apart, lemma_request_bridged, response_received, FetchAction, FetchState,
    FetchTable,
};
pub use capability::{construction_refused, Env, EnvAssets};
