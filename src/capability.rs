//! The two capability objects that the host places in script's global
//! namespace. Script can reach them but never construct them.

use vstd::prelude::*;
use vstd::string::StringExecFns;

use crate::error::{ErrorKind, FetchError, ScriptError};
use crate::fetch::{fetch_started, FetchAction, FetchState};
use crate::request::{extract_head, ScriptRequest};

verus! {

/// The error that every construction attempt from script ends in.
pub open spec fn construction_refused(e: ScriptError) -> bool {
    e.kind == ErrorKind::Type && e.message@ == "Cannot construct this type"@
}

fn refuse_construction() -> (e: ScriptError)
    ensures
        construction_refused(e),
{
    ScriptError { kind: ErrorKind::Type, message: String::from_str("Cannot construct this type") }
}

/// The capability that fetches static assets. It holds no state: every
/// fetch carries its own.
pub struct EnvAssets {}

/// The host environment: owns the one assets capability of its context.
pub struct Env {
    assets: EnvAssets,
}

impl Env {
    /// The assets capability this environment owns.
    pub closed spec fn assets_of(&self) -> EnvAssets {
        self.assets
    }

    /// The environment that the host creates once per script context, owning
    /// its one assets capability.
    pub fn new_obj() -> (r: Env)
        ensures
            r.assets_of() == (EnvAssets {}),
    {
        Env { assets: EnvAssets {} }
    }

    /// Construction from script: always refused with a type error.
    pub fn constructor() -> (r: Result<Env, ScriptError>)
        ensures
            r is Err,
            construction_refused(r->Err_0),
    {
        Err(refuse_construction())
    }

    /// The `ASSETS` property: the capability this environment owns.
    pub fn get_assets(&self) -> (r: &EnvAssets)
        ensures
            *r == self.assets_of(),
    {
        &self.assets
    }
}

impl EnvAssets {
    /// Construction from script: always refused with a type error.
    pub fn constructor() -> (r: Result<EnvAssets, ScriptError>)
        ensures
            r is Err,
            construction_refused(r->Err_0),
    {
        Err(refuse_construction())
    }

    /// Starts a fetch of `request`. It always gives the pending fetch, whose
    /// promise script receives at once, and the first action for the host; a
    /// request that cannot be bridged is a rejection, never a throw. Where the
    /// method, target and headers are acceptable and the body was not taken
    /// before, the body is taken out of the request for draining.
    pub fn fetch(&self, request: &mut ScriptRequest) -> (r: (FetchState, FetchAction))
        ensures
            fetch_started(*old(request), *final(request), r.0, r.1),
    {
        let head = match extract_head(request) {
            Ok(h) => h,
            Err(e) => {
                return (FetchState::Settled, FetchAction::Reject(e));
            },
        };
        match request.take_body() {
            Ok(body) => (FetchState::AwaitingBody(head), FetchAction::DrainBody(body)),
            Err(e) => (FetchState::Settled, FetchAction::Reject(e)),
        }
    }
}

} // verus!
