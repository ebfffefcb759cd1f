//! The error type of the library.

use vstd::prelude::*;
use vstd::string::*;

verus! {

/// What kind of failure an error reports.
#[derive(Debug, Clone, Copy, PartialEq, Eq, Structural)]
pub enum ErrorKind {
    /// Malformed input text: an option value, an attribute, a missing element.
    Parse,
    /// A rule of the configuration itself is broken.
    Lowlevel,
    /// A name that should be known is not; the caller can go on without it.
    Recov,
    /// A structured element stream is not of the expected shape.
    Decoder,
}

/// A failure: its kind and the text that explains it.
#[derive(Debug)]
pub struct KunaError {
    pub kind: ErrorKind,
    pub text: String,
}

/// What contracts say of an error: its kind and the characters of its text.
pub struct Failure {
    pub kind: ErrorKind,
    pub text: Seq<char>,
}

impl View for KunaError {
    type V = Failure;

    open spec fn view(&self) -> Failure {
        Failure { kind: self.kind, text: self.text@ }
    }
}

impl Clone for KunaError {
    fn clone(&self) -> (r: KunaError)
        ensures
            r@ == self@,
    {
        KunaError { kind: self.kind, text: self.text.clone() }
    }
}

impl KunaError {
    /// An error about malformed input text.
    pub fn parse(text: String) -> (r: KunaError)
        ensures
            r@ == parse_failure(text@),
    {
        KunaError { kind: ErrorKind::Parse, text }
    }

    /// An error about a broken rule of the configuration.
    pub fn lowlevel(text: String) -> (r: KunaError)
        ensures
            r@ == lowlevel_failure(text@),
    {
        KunaError { kind: ErrorKind::Lowlevel, text }
    }

    /// An error about an unknown name.
    pub fn recov(text: String) -> (r: KunaError)
        ensures
            r@ == recov_failure(text@),
    {
        KunaError { kind: ErrorKind::Recov, text }
    }

    /// The text that explains the error.
    pub fn explain(&self) -> (r: &str)
        ensures
            r@ == self@.text,
    {
        self.text.as_str()
    }
}

/// The failure that [`KunaError::parse`] builds.
pub open spec fn parse_failure(text: Seq<char>) -> Failure {
    Failure { kind: ErrorKind::Parse, text }
}

/// The failure that [`KunaError::lowlevel`] builds.
pub open spec fn lowlevel_failure(text: Seq<char>) -> Failure {
    Failure { kind: ErrorKind::Lowlevel, text }
}

/// The failure that [`KunaError::recov`] builds.
pub open spec fn recov_failure(text: Seq<char>) -> Failure {
    Failure { kind: ErrorKind::Recov, text }
}

/// Result type of the library.
pub type KunaResult<T> = Result<T, KunaError>;

/// What a contract says of a result that carries a text.
pub open spec fn text_outcome(r: Result<String, KunaError>) -> Result<Seq<char>, Failure> {
    match r {
        Ok(s) => Ok(s@),
        Err(e) => Err(e@),
    }
}

/// What a contract says of a result whose value is its own model.
pub open spec fn outcome<T>(r: Result<T, KunaError>) -> Result<T, Failure> {
    match r {
        Ok(v) => Ok(v),
        Err(e) => Err(e@),
    }
}

} // verus!
