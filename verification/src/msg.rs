//! The flat classification of every failure a host operation can produce.

use vstd::prelude::*;

verus! {

/// The category of an error, used wherever code branches on what went wrong
/// rather than on what caused it. Every error has exactly one.
#[derive(Clone, Copy, Debug, PartialEq, Eq, Structural)]
pub enum ErrorKind {
    NotFound,
    PermissionDenied,
    ConnectionRefused,
    ConnectionReset,
    ConnectionAborted,
    NotConnected,
    AddrInUse,
    AddrNotAvailable,
    BrokenPipe,
    AlreadyExists,
    WouldBlock,
    InvalidInput,
    InvalidData,
    TimedOut,
    Interrupted,
    WriteZero,
    Other,
    UnexpectedEof,
    BadResource,
    EmptyHost,
    IdnaError,
    InvalidPort,
    InvalidIpv4Address,
    InvalidIpv6Address,
    InvalidDomainCharacter,
    RelativeUrlWithoutBase,
    RelativeUrlWithCannotBeABaseBase,
    SetHostOnCannotBeABaseUrl,
    Overflow,
    HttpUser,
    HttpClosed,
    HttpCanceled,
    HttpParse,
    HttpOther,
    WorkerInitFailed,
    UnderlyingPlatformError,
    NoAsyncSupport,
    NoSyncSupport,
    ImportMapError,
    OpNotAvailable,
    Diagnostic,
    JSError,
}

} // verus!
