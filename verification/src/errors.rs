//! The unified error: one type for every failure that a host operation can
//! hand to script code, whatever subsystem it comes from.
//!
//! An error is either made by the host itself, from a kind and a message,
//! or wraps exactly one cause: a local I/O failure, a URL parse failure, an
//! HTTP transport failure, an import-map failure, a batch of compiler
//! diagnostics or a script exception. Whatever it wraps, it has one kind, a
//! rendered message and a description.

use vstd::pervasive::{arbitrary, unreached};
use vstd::prelude::*;
use vstd::std_specs::convert::FromSpecImpl;
use crate::foreign::{
    errno_class_of, errno_description_of, errno_of, hyper_reports_canceled, hyper_reports_closed,
    hyper_reports_parse, hyper_reports_user, io_category_of, url_reason_of,
};
use crate::causes::{hyper_renders_as, io_renders_as, unix_renders_as, url_renders_as};
use crate::foreign::{hyper_description_of, io_description_of, url_description_of};
use crate::causes::{
    errno_kind, io_kind, io_kind_spec, url_kind, url_kind_spec, IoCause, IoCauseView,
    PlatformCause, PlatformCauseView, TransportCause, TransportCauseView, UrlCause, UrlCauseView,
};
use crate::diagnostics::{lines, Diagnostic};
use crate::import_map::ImportMapError;
use crate::js_errors::{JSError, JSErrorView};
pub use crate::msg::ErrorKind;
use crate::resolve_addr::{ResolveAddrError, ResolveAddrErrorView};
use crate::source_maps::SourceMapGetter;

verus! {

pub type DenoResult<T> = std::result::Result<T, DenoError>;

/// The unified error.
#[derive(Debug)]
pub struct DenoError {
    repr: Repr,
}

#[derive(Debug)]
enum Repr {
    Simple(ErrorKind, String),
    IoErr(IoCause),
    UrlErr(UrlCause),
    HyperErr(TransportCause),
    ImportMapErr(ImportMapError),
    Diagnostic(Diagnostic),
    JSError(JSError),
}

/// What an error is: the kind and message that the host gave it, or the
/// cause that it wraps.
pub enum ErrorView {
    Simple(ErrorKind, Seq<char>),
    IoErr(IoCauseView),
    UrlErr(UrlCauseView),
    HyperErr(TransportCauseView),
    ImportMapErr(Seq<char>),
    Diagnostic(Seq<Seq<char>>),
    JSError(JSErrorView),
}

/// The cause that an error wraps, for the causes that are errors of their
/// own right.
#[derive(Debug)]
pub enum Cause<'a> {
    Io(&'a IoCause),
    Url(&'a UrlCause),
    Http(&'a TransportCause),
}

pub enum CauseView {
    Io(IoCauseView),
    Url(UrlCauseView),
    Http(TransportCauseView),
}

impl<'a> View for Cause<'a> {
    type V = CauseView;

    open spec fn view(&self) -> CauseView {
        match self {
            Cause::Io(cause) => CauseView::Io(cause@),
            Cause::Url(cause) => CauseView::Url(cause@),
            Cause::Http(cause) => CauseView::Http(cause@),
        }
    }
}

impl ErrorView {
    /// The kind of the error. It is `None` only for an I/O failure of a
    /// category, or a URL failure of a reason, that has no kind of its own.
    pub open spec fn classified(self) -> Option<ErrorKind> {
        match self {
            ErrorView::Simple(kind, _) => Some(kind),
            ErrorView::IoErr(cause) => match cause.category {
                Some(category) => Some(io_kind_spec(category)),
                None => None,
            },
            ErrorView::UrlErr(cause) => match cause.reason {
                Some(reason) => Some(url_kind_spec(reason)),
                None => None,
            },
            ErrorView::HyperErr(cause) => Some(cause.kind()),
            ErrorView::ImportMapErr(_) => Some(ErrorKind::ImportMapError),
            ErrorView::Diagnostic(_) => Some(ErrorKind::Diagnostic),
            ErrorView::JSError(_) => Some(ErrorKind::JSError),
        }
    }

    /// The error has a kind.
    pub open spec fn classifiable(self) -> bool {
        self.classified() is Some
    }

    /// The kind of a classifiable error.
    pub open spec fn kind(self) -> ErrorKind
        recommends
            self.classifiable(),
    {
        self.classified()->0
    }

    /// The error as it is shown to a person.
    pub open spec fn text(self) -> Seq<char> {
        match self {
            ErrorView::Simple(_, message) => message,
            ErrorView::IoErr(cause) => cause.text,
            ErrorView::UrlErr(cause) => cause.text,
            ErrorView::HyperErr(cause) => cause.text,
            ErrorView::ImportMapErr(message) => message,
            ErrorView::Diagnostic(messages) => lines(messages, messages.len()),
            ErrorView::JSError(exception) => exception.rendered(),
        }
    }

    /// The short description of the error. For a batch of diagnostics it is
    /// the first message: a batch is never empty.
    pub open spec fn description(self) -> Seq<char>
        recommends
            self matches ErrorView::Diagnostic(messages) ==> messages.len() > 0,
    {
        match self {
            ErrorView::Simple(_, message) => message,
            ErrorView::IoErr(cause) => cause.description,
            ErrorView::UrlErr(cause) => cause.description,
            ErrorView::HyperErr(cause) => cause.description,
            ErrorView::ImportMapErr(message) => message,
            ErrorView::Diagnostic(messages) => messages[0],
            ErrorView::JSError(exception) => exception.message,
        }
    }

    /// The wrapped cause, for an I/O, URL or transport failure; `None` for
    /// every other error.
    pub open spec fn cause(self) -> Option<CauseView> {
        match self {
            ErrorView::IoErr(cause) => Some(CauseView::Io(cause)),
            ErrorView::UrlErr(cause) => Some(CauseView::Url(cause)),
            ErrorView::HyperErr(cause) => Some(CauseView::Http(cause)),
            _ => None,
        }
    }

    /// This error after source-map translation by `getter`: a script
    /// exception translated, every other error as it is.
    pub open spec fn translated<G: SourceMapGetter>(self, getter: &G) -> ErrorView {
        match self {
            ErrorView::JSError(exception) => ErrorView::JSError(exception.translated(getter)),
            _ => self,
        }
    }

    /// What a platform failure becomes: an error of the host's own making,
    /// with the kind of the failure and its message.
    pub open spec fn of_platform(cause: PlatformCauseView) -> ErrorView {
        ErrorView::Simple(cause.kind(), cause.message())
    }

    /// What an address-resolution failure becomes: a fixed invalid-input
    /// error for a syntax failure, the I/O failure itself for a failed
    /// lookup.
    pub open spec fn of_resolve_addr(cause: ResolveAddrErrorView) -> ErrorView {
        match cause {
            ResolveAddrErrorView::Syntax => ErrorView::Simple(
                ErrorKind::InvalidInput,
                "invalid address syntax"@,
            ),
            ResolveAddrErrorView::Resolution(io) => ErrorView::IoErr(io),
        }
    }
}

impl View for DenoError {
    type V = ErrorView;

    closed spec fn view(&self) -> ErrorView {
        match self.repr {
            Repr::Simple(kind, message) => ErrorView::Simple(kind, message@),
            Repr::IoErr(cause) => ErrorView::IoErr(cause@),
            Repr::UrlErr(cause) => ErrorView::UrlErr(cause@),
            Repr::HyperErr(cause) => ErrorView::HyperErr(cause@),
            Repr::ImportMapErr(cause) => ErrorView::ImportMapErr(cause@),
            Repr::Diagnostic(batch) => ErrorView::Diagnostic(batch@),
            Repr::JSError(exception) => ErrorView::JSError(exception@),
        }
    }
}

/// Create a new simple DenoError.
pub fn new(kind: ErrorKind, msg: String) -> (err: DenoError)
    ensures
        err@ == ErrorView::Simple(kind, msg@),
{
    DenoError { repr: Repr::Simple(kind, msg) }
}

impl DenoError {
    /// The kind of the error.
    pub fn kind(&self) -> (kind: ErrorKind)
        requires
            self@.classifiable(),
        ensures
            kind == self@.kind(),
    {
        match &self.repr {
            Repr::Simple(kind, _msg) => *kind,
            Repr::IoErr(err) => match err.category {
                Some(category) => io_kind(category),
                None => unreached(),
            },
            Repr::UrlErr(err) => match err.reason {
                Some(reason) => url_kind(reason),
                None => unreached(),
            },
            Repr::HyperErr(err) => err.kind(),
            Repr::ImportMapErr(_err) => ErrorKind::ImportMapError,
            Repr::Diagnostic(_err) => ErrorKind::Diagnostic,
            Repr::JSError(_err) => ErrorKind::JSError,
        }
    }

    /// The kind of the error, or `None` where the error wraps a failure of
    /// a category that has no kind.
    pub fn checked_kind(&self) -> (kind: Option<ErrorKind>)
        ensures
            kind == self@.classified(),
    {
        let classifiable = match &self.repr {
            Repr::IoErr(err) => err.category.is_some(),
            Repr::UrlErr(err) => err.reason.is_some(),
            _ => true,
        };
        if classifiable {
            Some(self.kind())
        } else {
            None
        }
    }

    /// Translates the positions of a script exception to the original
    /// source; every other error passes through unchanged.
    pub fn apply_source_map<G: SourceMapGetter>(self, getter: &G) -> (mapped: Self)
        ensures
            mapped@ == self@.translated(getter),
    {
        if let Repr::JSError(js_error) = self.repr {
            return DenoError {
                repr: Repr::JSError(crate::source_maps::apply_source_map(&js_error, getter)),
            };
        }
        self
    }

    /// Renders the error for a person to read: a message of the host
    /// verbatim, a wrapped failure as it renders itself, diagnostics one
    /// per line, a script exception with its stack trace in colour.
    pub fn to_string(&self) -> (text: String)
        ensures
            text@ == self@.text(),
    {
        match &self.repr {
            Repr::Simple(_kind, err_str) => err_str.clone(),
            Repr::IoErr(err) => err.text.clone(),
            Repr::UrlErr(err) => err.text.clone(),
            Repr::HyperErr(err) => err.text.clone(),
            Repr::ImportMapErr(err) => err.msg.clone(),
            Repr::Diagnostic(err) => err.render(),
            Repr::JSError(err) => err.render(),
        }
    }

    /// The short description of the error: the message of the host, the
    /// description that a wrapped failure gave of itself, the message of
    /// an import-map failure or of a script exception, the first message
    /// of a batch of diagnostics.
    pub fn description(&self) -> (description: &str)
        ensures
            description@ == self@.description(),
            self@ matches ErrorView::Diagnostic(messages) ==> messages.len() > 0,
    {
        match &self.repr {
            Repr::Simple(_kind, msg) => msg.as_str(),
            Repr::IoErr(err) => err.description.as_str(),
            Repr::UrlErr(err) => err.description.as_str(),
            Repr::HyperErr(err) => err.description.as_str(),
            Repr::ImportMapErr(err) => err.msg.as_str(),
            Repr::Diagnostic(err) => err.first_message(),
            Repr::JSError(err) => err.message.as_str(),
        }
    }

    /// The failure that this error wraps, where it wraps an I/O, URL or
    /// transport failure.
    pub fn cause(&self) -> (cause: Option<Cause<'_>>)
        ensures
            match cause {
                Some(wrapped) => self@.cause() == Some(wrapped@),
                None => self@.cause() is None,
            },
    {
        match &self.repr {
            Repr::Simple(_kind, _msg) => None,
            Repr::IoErr(err) => Some(Cause::Io(err)),
            Repr::UrlErr(err) => Some(Cause::Url(err)),
            Repr::HyperErr(err) => Some(Cause::Http(err)),
            Repr::ImportMapErr(_err) => None,
            Repr::Diagnostic(_err) => None,
            Repr::JSError(_err) => None,
        }
    }
}

impl From<IoCause> for DenoError {
    fn from(err: IoCause) -> (e: Self)
        ensures
            e@ == ErrorView::IoErr(err@),
    {
        Self { repr: Repr::IoErr(err) }
    }
}

impl FromSpecImpl<IoCause> for DenoError {
    open spec fn obeys_from_spec() -> bool {
        true
    }

    closed spec fn from_spec(err: IoCause) -> Self {
        Self { repr: Repr::IoErr(err) }
    }
}

impl From<UrlCause> for DenoError {
    fn from(err: UrlCause) -> (e: Self)
        ensures
            e@ == ErrorView::UrlErr(err@),
    {
        Self { repr: Repr::UrlErr(err) }
    }
}

impl FromSpecImpl<UrlCause> for DenoError {
    open spec fn obeys_from_spec() -> bool {
        true
    }

    closed spec fn from_spec(err: UrlCause) -> Self {
        Self { repr: Repr::UrlErr(err) }
    }
}

impl From<TransportCause> for DenoError {
    fn from(err: TransportCause) -> (e: Self)
        ensures
            e@ == ErrorView::HyperErr(err@),
    {
        Self { repr: Repr::HyperErr(err) }
    }
}

impl FromSpecImpl<TransportCause> for DenoError {
    open spec fn obeys_from_spec() -> bool {
        true
    }

    closed spec fn from_spec(err: TransportCause) -> Self {
        Self { repr: Repr::HyperErr(err) }
    }
}

impl From<ImportMapError> for DenoError {
    fn from(err: ImportMapError) -> (e: Self)
        ensures
            e@ == ErrorView::ImportMapErr(err@),
    {
        Self { repr: Repr::ImportMapErr(err) }
    }
}

impl FromSpecImpl<ImportMapError> for DenoError {
    open spec fn obeys_from_spec() -> bool {
        true
    }

    closed spec fn from_spec(err: ImportMapError) -> Self {
        Self { repr: Repr::ImportMapErr(err) }
    }
}

impl From<Diagnostic> for DenoError {
    fn from(diagnostic: Diagnostic) -> (e: Self)
        ensures
            e@ == ErrorView::Diagnostic(diagnostic@),
    {
        Self { repr: Repr::Diagnostic(diagnostic) }
    }
}

impl FromSpecImpl<Diagnostic> for DenoError {
    open spec fn obeys_from_spec() -> bool {
        true
    }

    closed spec fn from_spec(diagnostic: Diagnostic) -> Self {
        Self { repr: Repr::Diagnostic(diagnostic) }
    }
}

impl From<JSError> for DenoError {
    fn from(err: JSError) -> (e: Self)
        ensures
            e@ == ErrorView::JSError(err@),
    {
        Self { repr: Repr::JSError(err) }
    }
}

impl FromSpecImpl<JSError> for DenoError {
    open spec fn obeys_from_spec() -> bool {
        true
    }

    closed spec fn from_spec(err: JSError) -> Self {
        Self { repr: Repr::JSError(err) }
    }
}

impl From<ResolveAddrError> for DenoError {
    fn from(e: ResolveAddrError) -> (err: Self)
        ensures
            err@ == ErrorView::of_resolve_addr(e@),
    {
        match e {
            ResolveAddrError::Syntax => Self {
                repr: Repr::Simple(ErrorKind::InvalidInput, "invalid address syntax".to_owned()),
            },
            ResolveAddrError::Resolution(io_err) => Self { repr: Repr::IoErr(io_err) },
        }
    }
}

impl FromSpecImpl<ResolveAddrError> for DenoError {
    open spec fn obeys_from_spec() -> bool {
        false
    }

    open spec fn from_spec(e: ResolveAddrError) -> Self {
        arbitrary()
    }
}

impl From<PlatformCause> for DenoError {
    fn from(e: PlatformCause) -> (err: Self)
        ensures
            err@ == ErrorView::of_platform(e@),
    {
        match e {
            PlatformCause::Errno(class, description) => Self {
                repr: Repr::Simple(errno_kind(class), description),
            },
            PlatformCause::Other(text) => Self { repr: Repr::Simple(ErrorKind::Other, text) },
        }
    }
}

impl FromSpecImpl<PlatformCause> for DenoError {
    open spec fn obeys_from_spec() -> bool {
        true
    }

    closed spec fn from_spec(e: PlatformCause) -> Self {
        match e {
            PlatformCause::Errno(class, description) => Self {
                repr: Repr::Simple(crate::causes::errno_kind_spec(class), description),
            },
            PlatformCause::Other(text) => Self { repr: Repr::Simple(ErrorKind::Other, text) },
        }
    }
}

impl From<std::io::Error> for DenoError {
    #[inline]
    fn from(err: std::io::Error) -> (e: Self)
        ensures
            e@ matches ErrorView::IoErr(cause) && cause.category == io_category_of(err)
                && io_renders_as(err, cause.text) && cause.description == io_description_of(err)
                && cause.source == Some(err),
    {
        Self { repr: Repr::IoErr(IoCause::capture(err)) }
    }
}

impl FromSpecImpl<std::io::Error> for DenoError {
    open spec fn obeys_from_spec() -> bool {
        false
    }

    open spec fn from_spec(err: std::io::Error) -> Self {
        arbitrary()
    }
}

impl From<url::ParseError> for DenoError {
    #[inline]
    fn from(err: url::ParseError) -> (e: Self)
        ensures
            e@ matches ErrorView::UrlErr(cause) && cause.reason == url_reason_of(err)
                && cause.reason is Some && url_renders_as(err, cause.text) && cause.description
                == url_description_of(err) && cause.source == Some(err),
    {
        Self { repr: Repr::UrlErr(UrlCause::capture(err)) }
    }
}

impl FromSpecImpl<url::ParseError> for DenoError {
    open spec fn obeys_from_spec() -> bool {
        false
    }

    open spec fn from_spec(err: url::ParseError) -> Self {
        arbitrary()
    }
}

impl From<hyper::Error> for DenoError {
    #[inline]
    fn from(err: hyper::Error) -> (e: Self)
        ensures
            e@ matches ErrorView::HyperErr(cause) && cause.is_parse == hyper_reports_parse(err)
                && cause.is_user == hyper_reports_user(err) && cause.is_canceled
                == hyper_reports_canceled(err) && cause.is_closed == hyper_reports_closed(err)
                && hyper_renders_as(err, cause.text) && cause.description
                == hyper_description_of(err) && cause.source == Some(err),
    {
        Self { repr: Repr::HyperErr(TransportCause::capture(err)) }
    }
}

impl FromSpecImpl<hyper::Error> for DenoError {
    open spec fn obeys_from_spec() -> bool {
        false
    }

    open spec fn from_spec(err: hyper::Error) -> Self {
        arbitrary()
    }
}

impl From<nix::Error> for DenoError {
    fn from(e: nix::Error) -> (err: Self)
        ensures
            match errno_of(e) {
                Some(errno) => err@ == ErrorView::of_platform(
                    PlatformCauseView::Errno(errno_class_of(errno), errno_description_of(errno)),
                ),
                None => err@ matches ErrorView::Simple(kind, text) && kind == ErrorKind::Other
                    && unix_renders_as(e, text),
            },
    {
        DenoError::from(PlatformCause::capture(&e))
    }
}

impl FromSpecImpl<nix::Error> for DenoError {
    open spec fn obeys_from_spec() -> bool {
        false
    }

    open spec fn from_spec(e: nix::Error) -> Self {
        arbitrary()
    }
}

pub fn bad_resource() -> (err: DenoError)
    ensures
        err@ == ErrorView::Simple(ErrorKind::BadResource, "bad resource id"@),
{
    new(ErrorKind::BadResource, "bad resource id".to_owned())
}

pub fn permission_denied() -> (err: DenoError)
    ensures
        err@ == ErrorView::Simple(ErrorKind::PermissionDenied, "permission denied"@),
{
    new(ErrorKind::PermissionDenied, "permission denied".to_owned())
}

pub fn op_not_implemented() -> (err: DenoError)
    ensures
        err@ == ErrorView::Simple(ErrorKind::OpNotAvailable, "op not implemented"@),
{
    new(ErrorKind::OpNotAvailable, "op not implemented".to_owned())
}

pub fn worker_init_failed() -> (err: DenoError)
    ensures
        err@ == ErrorView::Simple(ErrorKind::WorkerInitFailed, "worker init failed"@),
{
    new(ErrorKind::WorkerInitFailed, "worker init failed".to_owned())
}

pub fn no_buffer_specified() -> (err: DenoError)
    ensures
        err@ == ErrorView::Simple(ErrorKind::InvalidInput, "no buffer specified"@),
{
    new(ErrorKind::InvalidInput, "no buffer specified".to_owned())
}

pub fn no_async_support() -> (err: DenoError)
    ensures
        err@ == ErrorView::Simple(ErrorKind::NoAsyncSupport, "op doesn't support async calls"@),
{
    new(ErrorKind::NoAsyncSupport, "op doesn't support async calls".to_owned())
}

pub fn no_sync_support() -> (err: DenoError)
    ensures
        err@ == ErrorView::Simple(ErrorKind::NoSyncSupport, "op doesn't support sync calls"@),
{
    new(ErrorKind::NoSyncSupport, "op doesn't support sync calls".to_owned())
}

/// Passes a result that is known to hold no error. A caller that cannot
/// show so has an error to report, and must not come here.
pub fn err_check(r: Result<(), DenoError>)
    requires
        r is Ok,
{
}

} // verus!
