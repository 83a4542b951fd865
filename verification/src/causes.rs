//! The foreign failure domains, as the plain records this library reads.
//!
//! A foreign failure is captured once, at the point where the foreign call
//! returned it: its category, its rendered message and its description are
//! read from it and kept beside it. Everything else in the library works on
//! what was read; the foreign error itself is carried along, whole, for
//! those who want to inspect it.

use vstd::prelude::*;
use vstd::string::to_string_from_display_ensures;
use crate::foreign::{
    errno_class, errno_class_of, errno_description, errno_description_of, errno_of, unix_errno,
};
use crate::foreign::{hyper_description_of, io_description_of, url_description_of};
use crate::foreign::{
    hyper_reports_canceled, hyper_reports_closed, hyper_reports_parse, hyper_reports_user,
    io_category_of, url_reason_of,
};
use crate::foreign::{
    hyper_error_description, hyper_is_canceled, hyper_is_closed, hyper_is_parse, hyper_is_user,
    io_error_category, io_error_description, url_error_description, url_error_reason,
};
use crate::msg::ErrorKind;

verus! {

/// The categories of a local I/O failure that have a kind of their own.
#[derive(Clone, Copy, Debug, PartialEq, Eq, Structural)]
pub enum IoCategory {
    NotFound,
    PermissionDenied,
    ConnectionRefused,
    ConnectionReset,
    ConnectionAborted,
    NotConnected,
    AddrInUse,
    AddrNotAvailable,
    BrokenPipe,
    AlreadyExists,
    WouldBlock,
    InvalidInput,
    InvalidData,
    TimedOut,
    Interrupted,
    WriteZero,
    Other,
    UnexpectedEof,
}

/// The reasons for which a URL fails to parse.
#[derive(Clone, Copy, Debug, PartialEq, Eq, Structural)]
pub enum UrlReason {
    EmptyHost,
    IdnaError,
    InvalidPort,
    InvalidIpv4Address,
    InvalidIpv6Address,
    InvalidDomainCharacter,
    RelativeUrlWithoutBase,
    RelativeUrlWithCannotBeABaseBase,
    SetHostOnCannotBeABaseUrl,
    Overflow,
}

/// The errnos that are told apart when a platform failure is classified.
#[derive(Clone, Copy, Debug, PartialEq, Eq, Structural)]
pub enum ErrnoClass {
    /// `EPERM`: the operation is not permitted.
    NotPermitted,
    /// `EINVAL`: an argument is invalid.
    InvalidArgument,
    /// `ENOENT`: there is no such entity.
    NoSuchEntity,
    /// Every other errno.
    Other,
}

/// The kind of a platform failure that carries an errno of class `class`.
pub open spec fn errno_kind_spec(class: ErrnoClass) -> ErrorKind {
    match class {
        ErrnoClass::NotPermitted => ErrorKind::PermissionDenied,
        ErrnoClass::InvalidArgument => ErrorKind::InvalidInput,
        ErrnoClass::NoSuchEntity => ErrorKind::NotFound,
        ErrnoClass::Other => ErrorKind::UnderlyingPlatformError,
    }
}

/// The kind of an I/O failure of category `category`.
pub open spec fn io_kind_spec(category: IoCategory) -> ErrorKind {
    match category {
        IoCategory::NotFound => ErrorKind::NotFound,
        IoCategory::PermissionDenied => ErrorKind::PermissionDenied,
        IoCategory::ConnectionRefused => ErrorKind::ConnectionRefused,
        IoCategory::ConnectionReset => ErrorKind::ConnectionReset,
        IoCategory::ConnectionAborted => ErrorKind::ConnectionAborted,
        IoCategory::NotConnected => ErrorKind::NotConnected,
        IoCategory::AddrInUse => ErrorKind::AddrInUse,
        IoCategory::AddrNotAvailable => ErrorKind::AddrNotAvailable,
        IoCategory::BrokenPipe => ErrorKind::BrokenPipe,
        IoCategory::AlreadyExists => ErrorKind::AlreadyExists,
        IoCategory::WouldBlock => ErrorKind::WouldBlock,
        IoCategory::InvalidInput => ErrorKind::InvalidInput,
        IoCategory::InvalidData => ErrorKind::InvalidData,
        IoCategory::TimedOut => ErrorKind::TimedOut,
        IoCategory::Interrupted => ErrorKind::Interrupted,
        IoCategory::WriteZero => ErrorKind::WriteZero,
        IoCategory::Other => ErrorKind::Other,
        IoCategory::UnexpectedEof => ErrorKind::UnexpectedEof,
    }
}

/// The kind of a URL failure with reason `reason`.
pub open spec fn url_kind_spec(reason: UrlReason) -> ErrorKind {
    match reason {
        UrlReason::EmptyHost => ErrorKind::EmptyHost,
        UrlReason::IdnaError => ErrorKind::IdnaError,
        UrlReason::InvalidPort => ErrorKind::InvalidPort,
        UrlReason::InvalidIpv4Address => ErrorKind::InvalidIpv4Address,
        UrlReason::InvalidIpv6Address => ErrorKind::InvalidIpv6Address,
        UrlReason::InvalidDomainCharacter => ErrorKind::InvalidDomainCharacter,
        UrlReason::RelativeUrlWithoutBase => ErrorKind::RelativeUrlWithoutBase,
        UrlReason::RelativeUrlWithCannotBeABaseBase => ErrorKind::RelativeUrlWithCannotBeABaseBase,
        UrlReason::SetHostOnCannotBeABaseUrl => ErrorKind::SetHostOnCannotBeABaseUrl,
        UrlReason::Overflow => ErrorKind::Overflow,
    }
}

/// The kind of a transport failure, from what the transport reports of it.
/// The reports are tested in a fixed order and the first that holds decides.
pub open spec fn transport_kind_spec(
    is_parse: bool,
    is_user: bool,
    is_canceled: bool,
    is_closed: bool,
) -> ErrorKind {
    if is_parse {
        ErrorKind::HttpParse
    } else if is_user {
        ErrorKind::HttpUser
    } else if is_canceled {
        ErrorKind::HttpCanceled
    } else if is_closed {
        ErrorKind::HttpClosed
    } else {
        ErrorKind::HttpOther
    }
}

/// Maps an I/O category onto the kind of the same name.
pub fn io_kind(category: IoCategory) -> (kind: ErrorKind)
    ensures
        kind == io_kind_spec(category),
{
    match category {
        IoCategory::NotFound => ErrorKind::NotFound,
        IoCategory::PermissionDenied => ErrorKind::PermissionDenied,
        IoCategory::ConnectionRefused => ErrorKind::ConnectionRefused,
        IoCategory::ConnectionReset => ErrorKind::ConnectionReset,
        IoCategory::ConnectionAborted => ErrorKind::ConnectionAborted,
        IoCategory::NotConnected => ErrorKind::NotConnected,
        IoCategory::AddrInUse => ErrorKind::AddrInUse,
        IoCategory::AddrNotAvailable => ErrorKind::AddrNotAvailable,
        IoCategory::BrokenPipe => ErrorKind::BrokenPipe,
        IoCategory::AlreadyExists => ErrorKind::AlreadyExists,
        IoCategory::WouldBlock => ErrorKind::WouldBlock,
        IoCategory::InvalidInput => ErrorKind::InvalidInput,
        IoCategory::InvalidData => ErrorKind::InvalidData,
        IoCategory::TimedOut => ErrorKind::TimedOut,
        IoCategory::Interrupted => ErrorKind::Interrupted,
        IoCategory::WriteZero => ErrorKind::WriteZero,
        IoCategory::Other => ErrorKind::Other,
        IoCategory::UnexpectedEof => ErrorKind::UnexpectedEof,
    }
}

/// Maps a URL parse reason onto the kind of the same name.
pub fn url_kind(reason: UrlReason) -> (kind: ErrorKind)
    ensures
        kind == url_kind_spec(reason),
{
    match reason {
        UrlReason::EmptyHost => ErrorKind::EmptyHost,
        UrlReason::IdnaError => ErrorKind::IdnaError,
        UrlReason::InvalidPort => ErrorKind::InvalidPort,
        UrlReason::InvalidIpv4Address => ErrorKind::InvalidIpv4Address,
        UrlReason::InvalidIpv6Address => ErrorKind::InvalidIpv6Address,
        UrlReason::InvalidDomainCharacter => ErrorKind::InvalidDomainCharacter,
        UrlReason::RelativeUrlWithoutBase => ErrorKind::RelativeUrlWithoutBase,
        UrlReason::RelativeUrlWithCannotBeABaseBase => ErrorKind::RelativeUrlWithCannotBeABaseBase,
        UrlReason::SetHostOnCannotBeABaseUrl => ErrorKind::SetHostOnCannotBeABaseUrl,
        UrlReason::Overflow => ErrorKind::Overflow,
    }
}

/// Classifies a transport failure: protocol-parse failure first, then
/// caller failure, cancellation, closed connection, and anything else last.
pub fn transport_kind(is_parse: bool, is_user: bool, is_canceled: bool, is_closed: bool) -> (kind:
    ErrorKind)
    ensures
        kind == transport_kind_spec(is_parse, is_user, is_canceled, is_closed),
{
    if is_parse {
        ErrorKind::HttpParse
    } else if is_user {
        ErrorKind::HttpUser
    } else if is_canceled {
        ErrorKind::HttpCanceled
    } else if is_closed {
        ErrorKind::HttpClosed
    } else {
        ErrorKind::HttpOther
    }
}

/// Classifies an errno: the three that have a kind of their own, and the
/// platform-error kind for every other.
pub fn errno_kind(class: ErrnoClass) -> (kind: ErrorKind)
    ensures
        kind == errno_kind_spec(class),
{
    match class {
        ErrnoClass::NotPermitted => ErrorKind::PermissionDenied,
        ErrnoClass::InvalidArgument => ErrorKind::InvalidInput,
        ErrnoClass::NoSuchEntity => ErrorKind::NotFound,
        ErrnoClass::Other => ErrorKind::UnderlyingPlatformError,
    }
}

/// A failure of the platform interface: an errno with its description, or
/// a failure without an errno with its rendered message.
#[derive(Debug)]
pub enum PlatformCause {
    Errno(ErrnoClass, String),
    Other(String),
}

pub enum PlatformCauseView {
    Errno(ErrnoClass, Seq<char>),
    Other(Seq<char>),
}

impl View for PlatformCause {
    type V = PlatformCauseView;

    open spec fn view(&self) -> PlatformCauseView {
        match self {
            PlatformCause::Errno(class, description) => PlatformCauseView::Errno(
                *class,
                description@,
            ),
            PlatformCause::Other(text) => PlatformCauseView::Other(text@),
        }
    }
}

impl PlatformCauseView {
    /// The kind of this failure.
    pub open spec fn kind(self) -> ErrorKind {
        match self {
            PlatformCauseView::Errno(class, _) => errno_kind_spec(class),
            PlatformCauseView::Other(_) => ErrorKind::Other,
        }
    }

    /// The message of this failure: the errno's description, or the
    /// rendered message where there is no errno.
    pub open spec fn message(self) -> Seq<char> {
        match self {
            PlatformCauseView::Errno(_, description) => description,
            PlatformCauseView::Other(text) => text,
        }
    }
}

impl PlatformCause {
    /// Reads from a platform error what this library keeps of it: of an
    /// errno its class and its description, of anything else its message.
    pub fn capture(err: &nix::Error) -> (cause: PlatformCause)
        ensures
            match errno_of(*err) {
                Some(errno) => cause@ == PlatformCauseView::Errno(
                    errno_class_of(errno),
                    errno_description_of(errno),
                ),
                None => cause matches PlatformCause::Other(text)
                    && to_string_from_display_ensures::<nix::Error>(err, text),
            },
    {
        match unix_errno(err) {
            Some(errno) => PlatformCause::Errno(errno_class(errno), errno_description(errno)),
            None => PlatformCause::Other(err.to_string()),
        }
    }
}

/// `text` is what `err` renders itself as.
pub open spec fn io_renders_as(err: std::io::Error, text: Seq<char>) -> bool {
    exists|rendered: String|
        rendered@ == text && #[trigger] to_string_from_display_ensures::<std::io::Error>(
            &err,
            rendered,
        )
}

/// `text` is what `err` renders itself as.
pub open spec fn url_renders_as(err: url::ParseError, text: Seq<char>) -> bool {
    exists|rendered: String|
        rendered@ == text && #[trigger] to_string_from_display_ensures::<url::ParseError>(
            &err,
            rendered,
        )
}

/// `text` is what `err` renders itself as.
pub open spec fn hyper_renders_as(err: hyper::Error, text: Seq<char>) -> bool {
    exists|rendered: String|
        rendered@ == text && #[trigger] to_string_from_display_ensures::<hyper::Error>(
            &err,
            rendered,
        )
}

/// `text` is what `err` renders itself as.
pub open spec fn unix_renders_as(err: nix::Error, text: Seq<char>) -> bool {
    exists|rendered: String|
        rendered@ == text && #[trigger] to_string_from_display_ensures::<nix::Error>(
            &err,
            rendered,
        )
}

/// A local I/O failure. `category` is `None` where the platform reports a
/// category that has no kind of its own. `source` is the platform's error,
/// or `None` for a failure that was written down by hand.
#[derive(Debug)]
pub struct IoCause {
    pub category: Option<IoCategory>,
    pub text: String,
    pub description: String,
    pub source: Option<std::io::Error>,
}

/// A URL parse failure. `reason` is `None` where the parser reports a
/// reason that has no kind of its own. `source` is the parser's error, or
/// `None` for a failure that was written down by hand.
#[derive(Debug)]
pub struct UrlCause {
    pub reason: Option<UrlReason>,
    pub text: String,
    pub description: String,
    pub source: Option<url::ParseError>,
}

/// An HTTP transport failure, with what the transport reports of it.
/// `source` is the transport's error, or `None` for a failure that was
/// written down by hand.
#[derive(Debug)]
pub struct TransportCause {
    pub is_parse: bool,
    pub is_user: bool,
    pub is_canceled: bool,
    pub is_closed: bool,
    pub text: String,
    pub description: String,
    pub source: Option<hyper::Error>,
}

pub struct IoCauseView {
    pub category: Option<IoCategory>,
    pub text: Seq<char>,
    pub description: Seq<char>,
    pub source: Option<std::io::Error>,
}

pub struct UrlCauseView {
    pub reason: Option<UrlReason>,
    pub text: Seq<char>,
    pub description: Seq<char>,
    pub source: Option<url::ParseError>,
}

pub struct TransportCauseView {
    pub is_parse: bool,
    pub is_user: bool,
    pub is_canceled: bool,
    pub is_closed: bool,
    pub text: Seq<char>,
    pub description: Seq<char>,
    pub source: Option<hyper::Error>,
}

impl View for IoCause {
    type V = IoCauseView;

    open spec fn view(&self) -> IoCauseView {
        IoCauseView {
            category: self.category,
            text: self.text@,
            description: self.description@,
            source: self.source,
        }
    }
}

impl View for UrlCause {
    type V = UrlCauseView;

    open spec fn view(&self) -> UrlCauseView {
        UrlCauseView {
            reason: self.reason,
            text: self.text@,
            description: self.description@,
            source: self.source,
        }
    }
}

impl View for TransportCause {
    type V = TransportCauseView;

    open spec fn view(&self) -> TransportCauseView {
        TransportCauseView {
            is_parse: self.is_parse,
            is_user: self.is_user,
            is_canceled: self.is_canceled,
            is_closed: self.is_closed,
            text: self.text@,
            description: self.description@,
            source: self.source,
        }
    }
}

impl TransportCauseView {
    /// The kind that the reports of this failure give it.
    pub open spec fn kind(self) -> ErrorKind {
        transport_kind_spec(self.is_parse, self.is_user, self.is_canceled, self.is_closed)
    }
}

impl IoCause {
    /// Takes a platform I/O error in: reads its category, its rendered
    /// message and its description, and keeps the error beside them.
    pub fn capture(err: std::io::Error) -> (cause: IoCause)
        ensures
            cause.category == io_category_of(err),
            to_string_from_display_ensures::<std::io::Error>(&err, cause.text),
            cause.description@ == io_description_of(err),
            cause.source == Some(err),
    {
        IoCause {
            category: io_error_category(&err),
            text: err.to_string(),
            description: io_error_description(&err),
            source: Some(err),
        }
    }
}

impl UrlCause {
    /// Takes a URL parse error in: reads its reason, its rendered message
    /// and its description, and keeps the error beside them.
    pub fn capture(err: url::ParseError) -> (cause: UrlCause)
        ensures
            cause.reason == url_reason_of(err),
            cause.reason is Some,
            to_string_from_display_ensures::<url::ParseError>(&err, cause.text),
            cause.description@ == url_description_of(err),
            cause.source == Some(err),
    {
        UrlCause {
            reason: url_error_reason(&err),
            text: err.to_string(),
            description: url_error_description(&err),
            source: Some(err),
        }
    }
}

impl TransportCause {
    /// Takes a transport error in: reads what it reports of itself, its
    /// rendered message and its description, and keeps the error beside
    /// them.
    pub fn capture(err: hyper::Error) -> (cause: TransportCause)
        ensures
            cause.is_parse == hyper_reports_parse(err),
            cause.is_user == hyper_reports_user(err),
            cause.is_canceled == hyper_reports_canceled(err),
            cause.is_closed == hyper_reports_closed(err),
            to_string_from_display_ensures::<hyper::Error>(&err, cause.text),
            cause.description@ == hyper_description_of(err),
            cause.source == Some(err),
    {
        TransportCause {
            is_parse: hyper_is_parse(&err),
            is_user: hyper_is_user(&err),
            is_canceled: hyper_is_canceled(&err),
            is_closed: hyper_is_closed(&err),
            text: err.to_string(),
            description: hyper_error_description(&err),
            source: Some(err),
        }
    }

    /// The kind of this failure.
    pub fn kind(&self) -> (kind: ErrorKind)
        ensures
            kind == self@.kind(),
    {
        transport_kind(self.is_parse, self.is_user, self.is_canceled, self.is_closed)
    }
}

} // verus!
