//! Error related business logic.
//!
//! Contains the `ErrorKind` enum, as well as extensions of the standard
//! library's `Result` type, to work with our very own `Error` type.

use vstd::prelude::*;

verus! {

/// Identifies the subsystem an `Error` originated from.
#[derive(Debug, Clone, Copy, PartialEq, Eq, Structural)]
pub enum ErrorKind {
    /// A generic error with no particular origin.
    Error,
    /// The communication layer: sockets, bootstrap, peer bookkeeping.
    Communication,
    /// Serializing or deserializing a wire message.
    CommunicationMessage,
    /// The message channel between asynchronous tasks.
    CommunicationChannel,
    /// The consensus sub-protocol.
    Consensus,
    /// The collaborative state transfer sub-protocol.
    Cst,
    /// The service execution layer.
    Executable,
    /// The replicated message log and its checkpoints.
    Log,
    /// The SHA-256 hashing backend.
    CryptoHashRingSha2,
    /// The Ed25519 signature backend.
    CryptoSignatureRingEd25519,
}

/// The error type used throughout this crate.
///
/// Carries the kind of fault and, when one was given, a static message
/// describing the wrapped cause.
#[derive(Debug, Clone, Copy)]
pub struct Error {
    kind: ErrorKind,
    message: Option<&'static str>,
}

impl Error {
    /// The kind of this error, in specification form.
    pub closed spec fn spec_kind(&self) -> ErrorKind {
        self.kind
    }

    /// The wrapped message of this error, in specification form.
    pub closed spec fn spec_message(&self) -> Option<&'static str> {
        self.message
    }

    /// Returns an error not wrapping a cause, with kind `kind`.
    pub fn simple(kind: ErrorKind) -> (r: Self)
        ensures
            r.spec_kind() == kind,
            r.spec_message() is None,
    {
        Error { kind, message: None }
    }

    /// Wraps a textual cause in an `Error`, with kind `kind`.
    pub fn wrapped(kind: ErrorKind, message: &'static str) -> (r: Self)
        ensures
            r.spec_kind() == kind,
            r.spec_message() == Some(message),
    {
        Error { kind, message: Some(message) }
    }

    /// Returns a copy of the `ErrorKind` of this `Error`.
    pub fn kind(&self) -> (r: ErrorKind)
        ensures
            r == self.spec_kind(),
    {
        self.kind
    }

    /// Swaps the `ErrorKind` of this `Error`, keeping the wrapped cause.
    pub fn swap_kind(self, k: ErrorKind) -> (r: Self)
        ensures
            r.spec_kind() == k,
            r.spec_message() == self.spec_message(),
    {
        Error { kind: k, message: self.message }
    }

    /// A textual rendering of this error: its wrapped cause when one was
    /// given, or nothing.
    pub fn message(&self) -> (r: &'static str)
        ensures
            self.spec_message() is Some ==> r == self.spec_message().unwrap(),
            self.spec_message() is None ==> r@ == Seq::<char>::empty(),
    {
        match self.message {
            Some(m) => m,
            None => {
                proof {
                    reveal_strlit("");
                }
                ""
            },
        }
    }
}

/// Extension of the standard library's `Result` type, used to wrap a
/// textual cause in an `Error`.
pub trait ResultWrappedExt: Sized {
    /// The value carried on success.
    type T;

    /// Replaces the error, if any, with an `Error` of kind `kind`
    /// wrapping the original textual cause.
    fn wrapped(self, kind: ErrorKind) -> Result<Self::T, Error>;

    /// Replaces the error, if any, with an `Error` of kind `kind`
    /// wrapping the message `msg`.
    fn wrapped_msg(self, kind: ErrorKind, msg: &'static str) -> Result<Self::T, Error>;
}

impl<T> ResultWrappedExt for Result<T, &'static str> {
    type T = T;

    fn wrapped(self, kind: ErrorKind) -> (r: Result<T, Error>)
        ensures
            self is Ok <==> r is Ok,
            r is Ok ==> r->Ok_0 == self->Ok_0,
            r is Err ==> r->Err_0.spec_kind() == kind
                && r->Err_0.spec_message() == Some(self->Err_0),
    {
        match self {
            Ok(t) => Ok(t),
            Err(m) => Err(Error::wrapped(kind, m)),
        }
    }

    fn wrapped_msg(self, kind: ErrorKind, msg: &'static str) -> (r: Result<T, Error>)
        ensures
            self is Ok <==> r is Ok,
            r is Ok ==> r->Ok_0 == self->Ok_0,
            r is Err ==> r->Err_0.spec_kind() == kind
                && r->Err_0.spec_message() == Some(msg),
    {
        match self {
            Ok(t) => Ok(t),
            Err(_) => Err(Error::wrapped(kind, msg)),
        }
    }
}

/// Extension of the standard library's `Result` type.
///
/// Different from `ResultWrappedExt`, this trait drops the underlying
/// error value, keeping only the chosen `ErrorKind`.
pub trait ResultSimpleExt: Sized {
    /// The value carried on success.
    type T;

    /// Replaces the error, if any, with a bare `Error` of kind `kind`.
    fn simple(self, kind: ErrorKind) -> Result<Self::T, Error>;

    /// Replaces the error, if any, with an `Error` of kind `kind`
    /// wrapping the message `msg`.
    fn simple_msg(self, kind: ErrorKind, msg: &'static str) -> Result<Self::T, Error>;
}

impl<T, E> ResultSimpleExt for Result<T, E> {
    type T = T;

    fn simple(self, kind: ErrorKind) -> (r: Result<T, Error>)
        ensures
            self is Ok <==> r is Ok,
            r is Ok ==> r->Ok_0 == self->Ok_0,
            r is Err ==> r->Err_0.spec_kind() == kind
                && r->Err_0.spec_message() is None,
    {
        match self {
            Ok(t) => Ok(t),
            Err(_) => Err(Error::simple(kind)),
        }
    }

    fn simple_msg(self, kind: ErrorKind, msg: &'static str) -> (r: Result<T, Error>)
        ensures
            self is Ok <==> r is Ok,
            r is Ok ==> r->Ok_0 == self->Ok_0,
            r is Err ==> r->Err_0.spec_kind() == kind
                && r->Err_0.spec_message() == Some(msg),
    {
        match self {
            Ok(t) => Ok(t),
            Err(_) => Err(Error::wrapped(kind, msg)),
        }
    }
}

} // verus!
