use vstd::prelude::*;

verus! {

/// The failure taxonomy of an upload job: three flat kinds, each carrying the
/// human-readable rendering that is surfaced to the caller as a plain string.
///
/// `Io` covers a file that cannot be opened or read; `Request` covers every
/// transport-level failure as well as a response body that does not decode;
/// `ContentLength` covers a declared total that cannot be reconciled with
/// what was actually sent.  No failure is retried: each aborts its job.
#[derive(Debug)]
pub enum Error {
    /// The file could not be opened or read.
    Io(String),
    /// The network transport failed, or the response body did not decode.
    Request(String),
    /// The declared or observed total byte count could not be reconciled
    /// with what was actually sent.
    ContentLength(String),
}

impl Error {
    /// The message carried by the failure, whatever its kind: the single
    /// human-readable string reported once to the caller.
    pub open spec fn message_view(self) -> Seq<char> {
        match self {
            Error::Io(m) => m@,
            Error::Request(m) => m@,
            Error::ContentLength(m) => m@,
        }
    }

    /// Renders the failure as the string surfaced to the caller.
    pub fn message(&self) -> (r: &str)
        ensures
            r@ == self.message_view(),
    {
        match self {
            Error::Io(m) => m.as_str(),
            Error::Request(m) => m.as_str(),
            Error::ContentLength(m) => m.as_str(),
        }
    }
}

} // verus!
