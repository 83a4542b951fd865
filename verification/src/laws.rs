//! What holds of every error and of every state of the lifecycle.

use vstd::prelude::*;
use crate::causes::{
    errno_kind_spec, io_kind_spec, transport_kind_spec, url_kind_spec, ErrnoClass, IoCategory,
    PlatformCauseView, TransportCauseView, UrlReason,
};
use crate::errors::{DenoError, ErrorView};
use crate::lifecycle::{ActionView, ContextState, EventView, Progress, Role};
use crate::msg::ErrorKind;
use crate::source_maps::SourceMapGetter;

verus! {

/// Classification is total: an error of the host's own making, and an
/// error that wraps a transport failure, an import-map failure, a batch of
/// diagnostics, a script exception, an I/O failure of a listed category or
/// a URL failure of a listed reason, has a kind.
pub proof fn every_listed_cause_has_a_kind(err: ErrorView)
    requires
        err matches ErrorView::IoErr(cause) ==> cause.category is Some,
        err matches ErrorView::UrlErr(cause) ==> cause.reason is Some,
    ensures
        err.classifiable(),
        err.classified() == Some(err.kind()),
{
}

/// Import-map failures, diagnostics and script exceptions each have one
/// fixed kind, whatever they hold.
pub proof fn fixed_kinds(err: ErrorView)
    ensures
        err is ImportMapErr ==> err.classified() == Some(ErrorKind::ImportMapError),
        err is Diagnostic ==> err.classified() == Some(ErrorKind::Diagnostic),
        err is JSError ==> err.classified() == Some(ErrorKind::JSError),
{
}

/// Two different I/O categories never have the same kind.
pub proof fn io_kinds_are_distinct(a: IoCategory, b: IoCategory)
    requires
        a != b,
    ensures
        io_kind_spec(a) != io_kind_spec(b),
{
}

/// Two different URL parse reasons never have the same kind.
pub proof fn url_kinds_are_distinct(a: UrlReason, b: UrlReason)
    requires
        a != b,
    ensures
        url_kind_spec(a) != url_kind_spec(b),
{
}

/// Source-map translation of an error that is no script exception gives
/// the same error back: the same kind and the same rendered text, whatever
/// the map knows.
pub proof fn translation_keeps_other_errors<G: SourceMapGetter>(before: ErrorView, getter: &G)
    requires
        !(before is JSError),
    ensures
        before.translated(getter) == before,
        before.translated(getter).classified() == before.classified(),
        before.translated(getter).text() == before.text(),
{
}

/// Source-map translation never changes the kind of an error, its
/// description or whether it has a cause, and a script exception stays
/// one, with as many frames as before, each with the function name that
/// it had.
pub proof fn translation_keeps_the_kind<G: SourceMapGetter>(before: ErrorView, getter: &G)
    ensures
        before.translated(getter).classified() == before.classified(),
        before.translated(getter).description() == before.description(),
        before.translated(getter).cause() == before.cause(),
        before matches ErrorView::JSError(exception) ==> {
            &&& before.translated(getter) matches ErrorView::JSError(mapped)
            &&& mapped.frames.len() == exception.frames.len()
            &&& forall|i: int|
                0 <= i < exception.frames.len() ==> (#[trigger] mapped.frames[i]).function_name
                    == exception.frames[i].function_name
        },
{
}

/// A map that knows nothing leaves a script exception as it is.
pub proof fn translation_by_an_empty_map<G: SourceMapGetter>(before: ErrorView, getter: &G)
    requires
        forall|script_name: Seq<char>, line: i64, column: i64|
            (#[trigger] getter.answer(script_name, line, column)) is None,
    ensures
        before.translated(getter) == before,
{
    if let ErrorView::JSError(exception) = before {
        assert(exception.translated(getter).frames =~= exception.frames);
    }
}

/// Rendering depends on the error alone: any two renderings of one error
/// are the same text.
pub proof fn rendering_is_repeatable(err: DenoError, first: String, second: String)
    requires
        first@ == err@.text(),
        second@ == err@.text(),
    ensures
        first@ == second@,
{
}

/// The errno for "operation not permitted" becomes a permission-denied
/// error, the one for "invalid argument" an invalid-input error, the one
/// for "no such entity" a not-found error and every other errno a
/// platform error; each is rendered as the description of its errno.
pub proof fn errno_conversion_is_faithful(class: ErrnoClass, description: Seq<char>)
    ensures
        ({
            let err = ErrorView::of_platform(PlatformCauseView::Errno(class, description));
            &&& err.text() == description
            &&& err.classified() == Some(errno_kind_spec(class))
            &&& class == ErrnoClass::NotPermitted ==> err.kind() == ErrorKind::PermissionDenied
            &&& class == ErrnoClass::InvalidArgument ==> err.kind() == ErrorKind::InvalidInput
            &&& class == ErrnoClass::NoSuchEntity ==> err.kind() == ErrorKind::NotFound
            &&& class == ErrnoClass::Other ==> err.kind() == ErrorKind::UnderlyingPlatformError
        }),
{
}

/// A platform failure without an errno becomes an error of kind `Other`
/// that is rendered as the failure renders itself.
pub proof fn other_platform_failures_keep_their_text(text: Seq<char>)
    ensures
        ({
            let err = ErrorView::of_platform(PlatformCauseView::Other(text));
            err.kind() == ErrorKind::Other && err.text() == text
        }),
{
}

/// A transport failure is classified by the first report that holds, in
/// the order parse, user, canceled, closed. So a failure that is reported
/// as a parse failure is one, whatever else is reported of it.
pub proof fn first_transport_report_wins(cause: TransportCauseView)
    ensures
        cause.is_parse ==> ErrorView::HyperErr(cause).kind() == ErrorKind::HttpParse,
        !cause.is_parse && cause.is_user ==> ErrorView::HyperErr(cause).kind()
            == ErrorKind::HttpUser,
        !cause.is_parse && !cause.is_user && cause.is_canceled ==> ErrorView::HyperErr(
            cause,
        ).kind() == ErrorKind::HttpCanceled,
        !cause.is_parse && !cause.is_user && !cause.is_canceled && cause.is_closed
            ==> ErrorView::HyperErr(cause).kind() == ErrorKind::HttpClosed,
        !cause.is_parse && !cause.is_user && !cause.is_canceled && !cause.is_closed
            ==> ErrorView::HyperErr(cause).kind() == ErrorKind::HttpOther,
        ErrorView::HyperErr(cause).kind() == transport_kind_spec(
            cause.is_parse,
            cause.is_user,
            cause.is_canceled,
            cause.is_closed,
        ),
{
}

/// The lifecycle starts well formed and every step keeps it so: no
/// context exists before the panic policy is installed, and the main
/// context does not exist before the compiler context has completed.
pub proof fn lifecycle_stays_well_formed(state: Progress, event: EventView)
    requires
        state.well_formed(),
        state.next(event) is Some,
    ensures
        Progress::initial().well_formed(),
        ({
            let (after, _) = state.next(event)->0;
            after.well_formed()
        }),
{
}

/// The main context is asked for only at the moment at which the compiler
/// context completes, and the process exits with status 0 only when both
/// contexts have completed.
pub proof fn main_follows_compiler(state: Progress, event: EventView)
    requires
        state.well_formed(),
        state.next(event) is Some,
    ensures
        ({
            let (after, action) = state.next(event)->0;
            &&& action == ActionView::Construct(Role::Main) ==> {
                &&& state.compiler == ContextState::Running
                &&& after.compiler == ContextState::Completed
                &&& after.main == ContextState::Uninitialized
            }
            &&& action is Exit ==> {
                &&& after.compiler == ContextState::Completed
                &&& after.main == ContextState::Completed
            }
            &&& action.exit_status() == Some(0i32) <==> action is Exit
        }),
{
}

/// A failure is fatal: the failed bootstrap script, or the failed event
/// loop, of either context ends the process with status 1 and with the
/// error that was reported, and the event loop of that context is not
/// entered afterwards.
pub proof fn failure_is_fatal(state: Progress, event: EventView)
    requires
        state.next(event) is Some,
    ensures
        ({
            let (after, action) = state.next(event)->0;
            &&& event matches EventView::BootstrapFailed(err) ==> action == ActionView::Abort(err)
            &&& event matches EventView::LoopFailed(err) ==> action == ActionView::Abort(err)
            &&& action is Abort <==> (event is BootstrapFailed || event is LoopFailed)
            &&& action is Abort ==> {
                &&& action.exit_status() == Some(1i32)
                &&& after.context(state.active()) == ContextState::Failed
                &&& after.terminal()
            }
        }),
{
}

/// Once the process has ended, nothing more happens.
pub proof fn nothing_follows_the_end(state: Progress, event: EventView)
    requires
        state.well_formed(),
        state.terminal(),
    ensures
        state.next(event) is None,
{
}

} // verus!
