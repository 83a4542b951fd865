//! The calls into the platform and into the `url`, `hyper` and `nix` crates.
//!
//! Nothing here is proved. Each function makes one foreign call and hands
//! its result on as a plain value. Where the result is a fixed property of
//! the foreign value (its category, its variant, what it reports of itself)
//! it has a name, so that callers can say which value they kept.

use vstd::prelude::*;
use std::io::ErrorKind;
use crate::causes::{ErrnoClass, IoCategory, UrlReason};

verus! {

/// The platform's I/O error, carried through as it is.
#[verifier::external_type_specification]
#[verifier::external_body]
pub struct ExIoError(std::io::Error);

/// The URL parser's error, carried through as it is.
#[verifier::external_type_specification]
#[verifier::external_body]
pub struct ExUrlParseError(url::ParseError);

/// The HTTP transport's error, carried through as it is.
#[verifier::external_type_specification]
#[verifier::external_body]
pub struct ExHyperError(hyper::Error);

/// The platform interface's error.
#[verifier::external_type_specification]
#[verifier::external_body]
pub struct ExUnixError(nix::Error);

/// An errno of the platform.
#[verifier::external_type_specification]
#[verifier::external_body]
pub struct ExErrno(nix::errno::Errno);

/// The text that `err` gives as its description.
pub uninterp spec fn io_description_of(err: std::io::Error) -> Seq<char>;

/// The text that `err` gives as its description.
pub uninterp spec fn url_description_of(err: url::ParseError) -> Seq<char>;

/// The text that `err` gives as its description.
pub uninterp spec fn hyper_description_of(err: hyper::Error) -> Seq<char>;

/// The category that `std::io::Error::kind` reports of `err`.
pub uninterp spec fn io_category_of(err: std::io::Error) -> Option<IoCategory>;

/// The variant of `err`.
pub uninterp spec fn url_reason_of(err: url::ParseError) -> Option<UrlReason>;

/// What `hyper::Error::is_parse` reports of `err`.
pub uninterp spec fn hyper_reports_parse(err: hyper::Error) -> bool;

/// What `hyper::Error::is_user` reports of `err`.
pub uninterp spec fn hyper_reports_user(err: hyper::Error) -> bool;

/// What `hyper::Error::is_canceled` reports of `err`.
pub uninterp spec fn hyper_reports_canceled(err: hyper::Error) -> bool;

/// What `hyper::Error::is_closed` reports of `err`.
pub uninterp spec fn hyper_reports_closed(err: hyper::Error) -> bool;

/// Calls `std::io::Error::kind` and tells the variants of the answer apart,
/// one for one; `None` stands for every variant that [`IoCategory`] does
/// not list. Claimed, not proved: the answer depends on the error alone.
#[verifier::external_body]
pub(crate) fn io_error_category(err: &std::io::Error) -> (category: Option<IoCategory>)
    ensures
        category == io_category_of(*err),
{
    Some(match err.kind() {
        ErrorKind::NotFound => IoCategory::NotFound, ErrorKind::PermissionDenied => IoCategory::PermissionDenied,
        ErrorKind::ConnectionRefused => IoCategory::ConnectionRefused, ErrorKind::ConnectionReset => IoCategory::ConnectionReset,
        ErrorKind::ConnectionAborted => IoCategory::ConnectionAborted, ErrorKind::NotConnected => IoCategory::NotConnected,
        ErrorKind::AddrInUse => IoCategory::AddrInUse, ErrorKind::AddrNotAvailable => IoCategory::AddrNotAvailable,
        ErrorKind::BrokenPipe => IoCategory::BrokenPipe, ErrorKind::AlreadyExists => IoCategory::AlreadyExists,
        ErrorKind::WouldBlock => IoCategory::WouldBlock, ErrorKind::InvalidInput => IoCategory::InvalidInput,
        ErrorKind::InvalidData => IoCategory::InvalidData, ErrorKind::TimedOut => IoCategory::TimedOut,
        ErrorKind::Interrupted => IoCategory::Interrupted, ErrorKind::WriteZero => IoCategory::WriteZero,
        ErrorKind::Other => IoCategory::Other, ErrorKind::UnexpectedEof => IoCategory::UnexpectedEof,
        _ => return None,
    })
}

/// Calls `std::error::Error::description` on an I/O error and copies the
/// text. Claimed, not proved: the text depends on the error alone.
#[verifier::external_body]
#[allow(deprecated)]
pub(crate) fn io_error_description(err: &std::io::Error) -> (description: String)
    ensures
        description@ == io_description_of(*err),
{
    std::error::Error::description(err).to_owned()
}

/// Tells the variants of `url::ParseError` apart, one for one. Claimed,
/// not proved: the answer depends on the error alone, and it is never
/// `None`, since [`UrlReason`] lists every variant that the parser has.
#[verifier::external_body]
pub(crate) fn url_error_reason(err: &url::ParseError) -> (reason: Option<UrlReason>)
    ensures
        reason == url_reason_of(*err),
        reason is Some,
{
    Some(match err {
        url::ParseError::EmptyHost => UrlReason::EmptyHost,
        url::ParseError::IdnaError => UrlReason::IdnaError,
        url::ParseError::InvalidPort => UrlReason::InvalidPort,
        url::ParseError::InvalidIpv4Address => UrlReason::InvalidIpv4Address,
        url::ParseError::InvalidIpv6Address => UrlReason::InvalidIpv6Address,
        url::ParseError::InvalidDomainCharacter => UrlReason::InvalidDomainCharacter,
        url::ParseError::RelativeUrlWithoutBase => UrlReason::RelativeUrlWithoutBase,
        url::ParseError::RelativeUrlWithCannotBeABaseBase => UrlReason::RelativeUrlWithCannotBeABaseBase,
        url::ParseError::SetHostOnCannotBeABaseUrl => UrlReason::SetHostOnCannotBeABaseUrl,
        url::ParseError::Overflow => UrlReason::Overflow,
        _ => return None,
    })
}

/// Calls `std::error::Error::description` on a `url::ParseError` and copies the
/// text. Claimed, not proved: the text depends on the error alone.
#[verifier::external_body]
#[allow(deprecated)]
pub(crate) fn url_error_description(err: &url::ParseError) -> (description: String)
    ensures
        description@ == url_description_of(*err),
{
    std::error::Error::description(err).to_owned()
}

/// Calls `hyper::Error::is_parse`: whether the error is a protocol-parse
/// failure. Claimed, not proved: the answer depends on the error alone.
#[verifier::external_body]
pub(crate) fn hyper_is_parse(err: &hyper::Error) -> (reported: bool)
    ensures
        reported == hyper_reports_parse(*err),
{
    err.is_parse()
}

/// Calls `hyper::Error::is_user`: whether the error is the caller's own
/// doing. Claimed, not proved: the answer depends on the error alone.
#[verifier::external_body]
pub(crate) fn hyper_is_user(err: &hyper::Error) -> (reported: bool)
    ensures
        reported == hyper_reports_user(*err),
{
    err.is_user()
}

/// Calls `hyper::Error::is_canceled`: whether the error is a cancellation.
/// Claimed, not proved: the answer depends on the error alone.
#[verifier::external_body]
pub(crate) fn hyper_is_canceled(err: &hyper::Error) -> (reported: bool)
    ensures
        reported == hyper_reports_canceled(*err),
{
    err.is_canceled()
}

/// Calls `hyper::Error::is_closed`: whether the error is a closed
/// connection. Claimed, not proved: the answer depends on the error alone.
#[verifier::external_body]
pub(crate) fn hyper_is_closed(err: &hyper::Error) -> (reported: bool)
    ensures
        reported == hyper_reports_closed(*err),
{
    err.is_closed()
}

/// Calls `std::error::Error::description` on a `hyper::Error` and copies the
/// text. Claimed, not proved: the text depends on the error alone.
#[verifier::external_body]
#[allow(deprecated)]
pub(crate) fn hyper_error_description(err: &hyper::Error) -> (description: String)
    ensures
        description@ == hyper_description_of(*err),
{
    std::error::Error::description(err).to_owned()
}

/// The errno that `err` carries, if it carries one.
pub uninterp spec fn errno_of(err: nix::Error) -> Option<nix::errno::Errno>;

/// Which of the errnos that this library tells apart `errno` is.
pub uninterp spec fn errno_class_of(errno: nix::errno::Errno) -> ErrnoClass;

/// The description that `nix::errno::Errno::desc` gives of `errno`.
pub uninterp spec fn errno_description_of(errno: nix::errno::Errno) -> Seq<char>;

/// Tells the variants of `nix::Error` apart: the errno that `Sys` holds,
/// `None` for each of the others. Claimed, not proved: the answer depends
/// on the error alone.
#[verifier::external_body]
pub(crate) fn unix_errno(err: &nix::Error) -> (errno: Option<nix::errno::Errno>)
    ensures
        errno == errno_of(*err),
{
    match err {
        nix::Error::Sys(errno) => Some(*errno),
        nix::Error::InvalidPath => None,
        nix::Error::InvalidUtf8 => None,
        nix::Error::UnsupportedOperation => None,
    }
}

/// Tells the variants of `nix::errno::Errno` apart, as far as this library
/// does: `EPERM`, `EINVAL`, `ENOENT`, and any other. Claimed, not proved:
/// the answer depends on the errno alone.
#[verifier::external_body]
pub(crate) fn errno_class(errno: nix::errno::Errno) -> (class: ErrnoClass)
    ensures
        class == errno_class_of(errno),
{
    match errno {
        nix::errno::Errno::EPERM => ErrnoClass::NotPermitted,
        nix::errno::Errno::EINVAL => ErrnoClass::InvalidArgument,
        nix::errno::Errno::ENOENT => ErrnoClass::NoSuchEntity,
        _ => ErrnoClass::Other,
    }
}

/// Calls `nix::errno::Errno::desc` and copies the text. Claimed, not
/// proved: the description depends on the errno alone.
#[verifier::external_body]
pub(crate) fn errno_description(errno: nix::errno::Errno) -> (description: String)
    ensures
        description@ == errno_description_of(errno),
{
    errno.desc().to_owned()
}

} // verus!
