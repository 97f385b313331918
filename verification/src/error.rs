//! The local error taxonomy, the error codes of the network service, and the
//! table that maps the second to the first.

use vstd::prelude::*;

verus! {

/// What went wrong, as the caller of a socket operation sees it.
#[derive(Clone, Copy, Debug, PartialEq, Eq, Hash, Structural)]
pub enum ErrorKind {
    /// The operation is deliberately not implemented.
    Unsupported,
    /// A bad address or port, or a reply that does not have the expected shape.
    InvalidInput,
    /// The address or port is already bound.
    ResourceBusy,
    /// The service gave up waiting.
    TimedOut,
    /// Nothing is ready and the call was asked not to wait.
    WouldBlock,
    /// Any other failure, among them unrecognised remote codes.
    Other,
}

/// A failed socket operation: its kind and a fixed description.
#[derive(Clone, Copy, Debug, PartialEq, Eq)]
pub struct Error {
    pub kind: ErrorKind,
    pub message: &'static str,
}

impl Error {
    /// True when this error has the given kind and the given text.
    pub open spec fn is(self, kind: ErrorKind, message: &str) -> bool {
        self.kind == kind && self.message@ == message@
    }

    pub fn new(kind: ErrorKind, message: &'static str) -> (e: Error)
        ensures
            e.kind == kind,
            e.message == message,
    {
        Error { kind, message }
    }

    pub fn kind(&self) -> (k: ErrorKind)
        ensures
            k == self.kind,
    {
        self.kind
    }

    pub fn message(&self) -> (m: &'static str)
        ensures
            m == self.message,
    {
        self.message
    }
}

/// True when `r` is the failure of the given kind and text.
pub open spec fn fails_with<T>(r: Result<T, Error>, kind: ErrorKind, message: &str) -> bool {
    r is Err && r->Err_0.is(kind, message)
}

/// The error of every operation that is deliberately left out.
pub fn unimplemented() -> (e: Error)
    ensures
        e.is(ErrorKind::Unsupported, "This function is not yet implemented"),
{
    Error::new(ErrorKind::Unsupported, "This function is not yet implemented")
}

/// The error of a whole capability that this platform does not have.
pub fn unsupported() -> (e: Error)
    ensures
        e.is(ErrorKind::Unsupported, "operation not supported on this platform"),
{
    Error::new(ErrorKind::Unsupported, "operation not supported on this platform")
}

/// The failures that the network service reports in a reply.
#[derive(Clone, Copy, Debug, PartialEq, Eq, Hash, Structural)]
pub enum NetError {
    SocketInUse,
    Invalid,
    LibraryError,
    TimedOut,
    WouldBlock,
}

impl NetError {
    /// The number that stands for this failure on the wire.
    pub open spec fn spec_code(self) -> u8 {
        match self {
            NetError::SocketInUse => 2,
            NetError::Invalid => 4,
            NetError::LibraryError => 6,
            NetError::TimedOut => 8,
            NetError::WouldBlock => 9,
        }
    }

    /// The failure that a wire number stands for, if it stands for any.
    pub open spec fn spec_from_code(code: u8) -> Option<NetError> {
        if code == 2 {
            Some(NetError::SocketInUse)
        } else if code == 4 {
            Some(NetError::Invalid)
        } else if code == 6 {
            Some(NetError::LibraryError)
        } else if code == 8 {
            Some(NetError::TimedOut)
        } else if code == 9 {
            Some(NetError::WouldBlock)
        } else {
            None
        }
    }

    /// The local kind that this remote failure is reported as.
    pub open spec fn spec_kind(self) -> ErrorKind {
        match self {
            NetError::SocketInUse => ErrorKind::ResourceBusy,
            NetError::Invalid => ErrorKind::InvalidInput,
            NetError::LibraryError => ErrorKind::Other,
            NetError::TimedOut => ErrorKind::TimedOut,
            NetError::WouldBlock => ErrorKind::WouldBlock,
        }
    }

    /// The text that goes with this remote failure.
    pub open spec fn spec_message(self) -> &'static str {
        match self {
            NetError::SocketInUse => "Socket in use",
            NetError::Invalid => "Port can't be 0 or invalid address",
            NetError::LibraryError => "Library error",
            NetError::TimedOut => "Timed out",
            NetError::WouldBlock => "Would block",
        }
    }

    #[verifier::when_used_as_spec(spec_code)]
    pub fn code(self) -> (c: u8)
        ensures
            c == self.spec_code(),
    {
        match self {
            NetError::SocketInUse => 2,
            NetError::Invalid => 4,
            NetError::LibraryError => 6,
            NetError::TimedOut => 8,
            NetError::WouldBlock => 9,
        }
    }

    pub fn from_code(code: u8) -> (e: Option<NetError>)
        ensures
            e == NetError::spec_from_code(code),
    {
        if code == 2 {
            Some(NetError::SocketInUse)
        } else if code == 4 {
            Some(NetError::Invalid)
        } else if code == 6 {
            Some(NetError::LibraryError)
        } else if code == 8 {
            Some(NetError::TimedOut)
        } else if code == 9 {
            Some(NetError::WouldBlock)
        } else {
            None
        }
    }

    #[verifier::when_used_as_spec(spec_kind)]
    pub fn kind(self) -> (k: ErrorKind)
        ensures
            k == self.spec_kind(),
    {
        match self {
            NetError::SocketInUse => ErrorKind::ResourceBusy,
            NetError::Invalid => ErrorKind::InvalidInput,
            NetError::LibraryError => ErrorKind::Other,
            NetError::TimedOut => ErrorKind::TimedOut,
            NetError::WouldBlock => ErrorKind::WouldBlock,
        }
    }

    #[verifier::when_used_as_spec(spec_message)]
    pub fn message(self) -> (m: &'static str)
        ensures
            m == self.spec_message(),
    {
        match self {
            NetError::SocketInUse => "Socket in use",
            NetError::Invalid => "Port can't be 0 or invalid address",
            NetError::LibraryError => "Library error",
            NetError::TimedOut => "Timed out",
            NetError::WouldBlock => "Would block",
        }
    }
}

/// The local kind for a remote error code: the kind of the failure it stands
/// for, and `Other` for a code that stands for none.
pub open spec fn spec_error_kind(code: u8) -> ErrorKind {
    match NetError::spec_from_code(code) {
        Some(e) => e.spec_kind(),
        None => ErrorKind::Other,
    }
}

#[verifier::when_used_as_spec(spec_error_kind)]
pub fn error_kind(code: u8) -> (k: ErrorKind)
    ensures
        k == spec_error_kind(code),
{
    match NetError::from_code(code) {
        Some(e) => e.kind(),
        None => ErrorKind::Other,
    }
}

/// The error for a remote code found in a failed reply. A code that stands
/// for no known failure gives `Other` with the text `fallback`.
pub fn remote_error(code: u8, fallback: &'static str) -> (e: Error)
    ensures
        e.kind == spec_error_kind(code),
        e.message == (match NetError::spec_from_code(code) {
            Some(n) => n.spec_message(),
            None => fallback,
        }),
{
    match NetError::from_code(code) {
        Some(n) => Error::new(n.kind(), n.message()),
        None => Error::new(ErrorKind::Other, fallback),
    }
}

/// Two different remote failures never share a wire code, and a code read
/// back gives the failure it was written for.
pub proof fn lemma_codes_are_distinct(a: NetError, b: NetError)
    ensures
        NetError::spec_from_code(a.spec_code()) == Some(a),
        a != b ==> a.spec_code() != b.spec_code(),
        a.spec_code() != 0,
{
}

/// Two different remote failures are never reported as the same local kind,
/// and the kind of a failure's code is the kind of the failure.
pub proof fn lemma_kinds_are_distinct(a: NetError, b: NetError)
    ensures
        a != b ==> a.spec_kind() != b.spec_kind(),
        spec_error_kind(a.spec_code()) == a.spec_kind(),
        a.spec_kind() != ErrorKind::Unsupported,
{
}

/// A code that stands for no remote failure is reported as `Other`.
pub proof fn lemma_unknown_code_is_other(code: u8)
    requires
        NetError::spec_from_code(code) is None,
    ensures
        spec_error_kind(code) == ErrorKind::Other,
{
}

} // verus!
