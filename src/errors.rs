use vstd::prelude::*;

verus! {

/// What went wrong in a call.
#[derive(Clone, Copy, Debug, PartialEq, Eq, Structural)]
pub enum ErrorKind {
    /// The address, the path and the parameters do not form a valid URL.
    UrlConstruction,
    /// The HTTP client could not be built, or the request did not complete.
    Transport,
    /// The consistency-index header is present but is not a decimal `u64`.
    IndexParse,
    /// The response body is not JSON of the expected shape.
    BodyDecode,
}

/// An error of a call: its kind, and the lower-level cause as text, if any.
#[derive(Clone, Debug)]
pub struct ConsulError {
    pub kind: ErrorKind,
    pub cause: Option<String>,
}

impl ConsulError {
    /// An error of the given kind with the given cause.
    pub fn new(kind: ErrorKind, cause: Option<String>) -> (r: ConsulError)
        ensures
            r.kind == kind,
            r.cause == cause,
    {
        ConsulError { kind, cause }
    }

    /// The kind of this error.
    pub fn kind(&self) -> (r: ErrorKind)
        ensures
            r == self.kind,
    {
        self.kind
    }
}

} // verus!
