//! Errors that settle a fetch by rejection, and the error that script sees
//! when it misuses a capability type.

use vstd::prelude::*;
use vstd::string::StringExecFns;

verus! {

/// Why a fetch was rejected.
pub enum FetchError {
    /// The method, target or a header could not go into a native request,
    /// or the target is not an absolute URL. Holds the parser's description.
    RequestBuild(String),
    /// The request's body had been taken before.
    BodyUsed,
    /// Collecting the body bytes failed. Holds the reason.
    BodyDrain(String),
    /// The asset dispatcher failed. Holds its reason.
    Dispatch(String),
    /// A response header value cannot be read as script text. Holds the
    /// header's name.
    ResponseConversion(String),
}

impl FetchError {
    /// The kind of the error that the rejected promise carries: a plain
    /// `Error` for every reason.
    pub fn kind(&self) -> (r: ErrorKind)
        ensures
            r == ErrorKind::Normal,
    {
        ErrorKind::Normal
    }

    /// The message that the rejected promise carries.
    pub fn message(&self) -> (r: String)
        ensures
            self matches FetchError::RequestBuild(e) ==> r@ == e@,
            self is BodyUsed ==> r@ == "Body has already been used"@,
            self matches FetchError::BodyDrain(e) ==> r@ == e@,
            self matches FetchError::Dispatch(e) ==> r@ == "Failed to fetch static asset due to "@
                + e@,
            self matches FetchError::ResponseConversion(n) ==> r@
                == "Response header cannot be read as text: "@ + n@,
    {
        match self {
            FetchError::RequestBuild(e) => e.clone(),
            FetchError::BodyUsed => String::from_str("Body has already been used"),
            FetchError::BodyDrain(e) => e.clone(),
            FetchError::Dispatch(e) => {
                let mut m = String::from_str("Failed to fetch static asset due to ");
                m.append(e.as_str());
                m
            },
            FetchError::ResponseConversion(n) => {
                let mut m = String::from_str("Response header cannot be read as text: ");
                m.append(n.as_str());
                m
            },
        }
    }
}

/// The kind of a script error.
#[derive(Clone, Copy, Debug, PartialEq, Eq, Structural)]
pub enum ErrorKind {
    /// A plain `Error`.
    Normal,
    /// A `TypeError`.
    Type,
}

/// An error thrown to script at once, before any promise exists.
pub struct ScriptError {
    pub kind: ErrorKind,
    pub message: String,
}

} // verus!
