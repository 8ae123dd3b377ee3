//! The three kinds of failure that a request can end in.
use vstd::prelude::*;
use vstd::string::StringExecFns;

verus! {

/// What went wrong with a request.
#[derive(Debug, Clone, Copy, PartialEq, Eq, Structural)]
pub enum ErrorKind {
    /// The service answered with text that is not the expected JSON
    /// envelope. The service sometimes answers with a diagnostic page and
    /// no telling status, so any shape mismatch is put down to it.
    Api,
    /// The response could not be read as text.
    IO,
    /// The service could not be reached.
    Network,
}

/// The fixed description of each kind of error.
pub open spec fn kind_description(kind: ErrorKind) -> Seq<char> {
    match kind {
        ErrorKind::Api => "ICNDB returned an error"@,
        ErrorKind::IO => "unable to decode response"@,
        ErrorKind::Network => "unable to contact ICNDB"@,
    }
}

/// A failed request: its kind, and the text of the underlying cause where
/// there was one.
#[derive(Debug, Clone)]
pub struct Error {
    pub kind: ErrorKind,
    pub cause: Option<String>,
}

/// What an error is, as plain values.
pub struct ErrorView {
    pub kind: ErrorKind,
    pub cause: Option<Seq<char>>,
}

impl View for Error {
    type V = ErrorView;

    open spec fn view(&self) -> ErrorView {
        ErrorView {
            kind: self.kind,
            cause: match self.cause {
                Some(c) => Some(c@),
                None => None,
            },
        }
    }
}

impl Error {
    /// The error for an answer that is not the expected envelope.
    pub fn api() -> (r: Error)
        ensures
            r.kind == ErrorKind::Api,
            r.cause is None,
    {
        Error { kind: ErrorKind::Api, cause: None }
    }

    /// The error for a response body that could not be read as text.
    pub fn io(cause: String) -> (r: Error)
        ensures
            r.kind == ErrorKind::IO,
            r.cause == Some(cause),
    {
        Error { kind: ErrorKind::IO, cause: Some(cause) }
    }

    /// The error for a request that did not reach the service.
    pub fn network(cause: String) -> (r: Error)
        ensures
            r.kind == ErrorKind::Network,
            r.cause == Some(cause),
    {
        Error { kind: ErrorKind::Network, cause: Some(cause) }
    }

    /// The kind of this error.
    pub fn kind(&self) -> (r: ErrorKind)
        ensures
            r == self.kind,
    {
        self.kind
    }

    /// The fixed description of this error's kind; the cause does not
    /// change it.
    pub fn description(&self) -> (r: &'static str)
        ensures
            r@ == kind_description(self.kind),
    {
        match self.kind {
            ErrorKind::Api => "ICNDB returned an error",
            ErrorKind::IO => "unable to decode response",
            ErrorKind::Network => "unable to contact ICNDB",
        }
    }

    /// The text of the underlying cause, if any.
    pub fn cause(&self) -> (r: Option<&String>)
        ensures
            match r {
                Some(c) => self.cause == Some(*c),
                None => self.cause is None,
            },
    {
        match self.cause {
            Some(ref c) => Some(c),
            None => None,
        }
    }

    /// The description followed, where there is a cause, by `": "` and the
    /// cause's text.
    pub fn message(&self) -> (r: String)
        ensures
            r@ == match self.cause {
                Some(c) => kind_description(self.kind) + ": "@ + c@,
                None => kind_description(self.kind),
            },
    {
        let mut out = String::from_str(self.description());
        match self.cause {
            Some(ref c) => {
                out.append(": ");
                out.append(c.as_str());
            },
            None => {},
        }
        out
    }
}

} // verus!
