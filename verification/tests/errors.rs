use deno_host::causes::{
    errno_kind, io_kind, transport_kind, url_kind, ErrnoClass, IoCategory, IoCause,
    PlatformCause, TransportCause, UrlCause, UrlReason,
};
use deno_host::diagnostics::{Diagnostic, DiagnosticItem};
use deno_host::errors::{
    bad_resource, err_check, new, no_async_support, no_buffer_specified, no_sync_support,
    op_not_implemented, permission_denied, worker_init_failed, Cause, DenoError, DenoResult,
    ErrorKind,
};
use deno_host::import_map::ImportMapError;
use deno_host::js_errors::{JSError, StackFrame};
use deno_host::resolve_addr::ResolveAddrError;
use deno_host::numerals::{decimal, numeral_of};
use deno_host::source_maps::{
    apply_source_map, Mapping, Position, PositionTable, SourceMapGetter,
};
use std::future::Future;

fn transport(is_parse: bool, is_user: bool, is_canceled: bool, is_closed: bool) -> TransportCause {
    TransportCause {
        is_parse,
        is_user,
        is_canceled,
        is_closed,
        text: String::from("transport failed"),
        description: String::from("transport"),
        source: None,
    }
}

fn frame(function_name: &str, script_name: &str, line: i64, column: i64) -> StackFrame {
    StackFrame {
        line,
        column,
        function_name: String::from(function_name),
        script_name: String::from(script_name),
    }
}

fn exception() -> JSError {
    JSError {
        message: String::from("Error: boom"),
        frames: vec![frame("foo", "gen/a.js", 3, 7), frame("", "gen/b.js", 12, 0)],
    }
}

fn position(script_name: &str, line: i64, column: i64) -> Position {
    Position { script_name: String::from(script_name), line, column }
}

/// Knows the original of one position in `gen/a.js` and of nothing else.
fn one_script_map() -> PositionTable {
    PositionTable {
        mappings: vec![
            Mapping { generated: position("gen/a.js", 3, 7), original: position("src/a.ts", 103, 8) },
            Mapping { generated: position("gen/a.js", 3, 7), original: position("late.ts", 1, 1) },
            Mapping { generated: position("gen/a.js", 12, 0), original: position("src/a.ts", 5, 5) },
        ],
    }
}

#[test]
fn simple_error_keeps_kind_and_message() {
    let err = new(ErrorKind::InvalidInput, String::from("bad config"));
    assert_eq!(err.kind(), ErrorKind::InvalidInput);
    assert_eq!(err.checked_kind(), Some(ErrorKind::InvalidInput));
    assert_eq!(err.to_string(), "bad config");
    assert_eq!(err.description(), "bad config");
    assert!(err.cause().is_none());
}

#[test]
fn host_errors_have_their_kinds_and_messages() {
    let cases: Vec<(DenoError, ErrorKind, &str)> = vec![
        (bad_resource(), ErrorKind::BadResource, "bad resource id"),
        (permission_denied(), ErrorKind::PermissionDenied, "permission denied"),
        (op_not_implemented(), ErrorKind::OpNotAvailable, "op not implemented"),
        (worker_init_failed(), ErrorKind::WorkerInitFailed, "worker init failed"),
        (no_buffer_specified(), ErrorKind::InvalidInput, "no buffer specified"),
        (no_async_support(), ErrorKind::NoAsyncSupport, "op doesn't support async calls"),
        (no_sync_support(), ErrorKind::NoSyncSupport, "op doesn't support sync calls"),
    ];
    for (err, kind, message) in cases {
        assert_eq!(err.kind(), kind);
        assert_eq!(err.to_string(), message);
        assert_eq!(err.description(), message);
        assert!(err.cause().is_none());
    }
}

#[test]
fn io_categories_map_one_to_one() {
    let cases = vec![
        (IoCategory::NotFound, ErrorKind::NotFound),
        (IoCategory::PermissionDenied, ErrorKind::PermissionDenied),
        (IoCategory::ConnectionRefused, ErrorKind::ConnectionRefused),
        (IoCategory::ConnectionReset, ErrorKind::ConnectionReset),
        (IoCategory::ConnectionAborted, ErrorKind::ConnectionAborted),
        (IoCategory::NotConnected, ErrorKind::NotConnected),
        (IoCategory::AddrInUse, ErrorKind::AddrInUse),
        (IoCategory::AddrNotAvailable, ErrorKind::AddrNotAvailable),
        (IoCategory::BrokenPipe, ErrorKind::BrokenPipe),
        (IoCategory::AlreadyExists, ErrorKind::AlreadyExists),
        (IoCategory::WouldBlock, ErrorKind::WouldBlock),
        (IoCategory::InvalidInput, ErrorKind::InvalidInput),
        (IoCategory::InvalidData, ErrorKind::InvalidData),
        (IoCategory::TimedOut, ErrorKind::TimedOut),
        (IoCategory::Interrupted, ErrorKind::Interrupted),
        (IoCategory::WriteZero, ErrorKind::WriteZero),
        (IoCategory::Other, ErrorKind::Other),
        (IoCategory::UnexpectedEof, ErrorKind::UnexpectedEof),
    ];
    for (i, (category, kind)) in cases.iter().enumerate() {
        assert_eq!(io_kind(*category), *kind);
        for (other, _) in cases.iter().skip(i + 1) {
            assert_ne!(io_kind(*category), io_kind(*other));
        }
    }
}

#[test]
fn platform_io_errors_are_classified_by_their_category() {
    let cases = vec![
        (std::io::ErrorKind::NotFound, ErrorKind::NotFound),
        (std::io::ErrorKind::PermissionDenied, ErrorKind::PermissionDenied),
        (std::io::ErrorKind::ConnectionRefused, ErrorKind::ConnectionRefused),
        (std::io::ErrorKind::ConnectionReset, ErrorKind::ConnectionReset),
        (std::io::ErrorKind::ConnectionAborted, ErrorKind::ConnectionAborted),
        (std::io::ErrorKind::NotConnected, ErrorKind::NotConnected),
        (std::io::ErrorKind::AddrInUse, ErrorKind::AddrInUse),
        (std::io::ErrorKind::AddrNotAvailable, ErrorKind::AddrNotAvailable),
        (std::io::ErrorKind::BrokenPipe, ErrorKind::BrokenPipe),
        (std::io::ErrorKind::AlreadyExists, ErrorKind::AlreadyExists),
        (std::io::ErrorKind::WouldBlock, ErrorKind::WouldBlock),
        (std::io::ErrorKind::InvalidInput, ErrorKind::InvalidInput),
        (std::io::ErrorKind::InvalidData, ErrorKind::InvalidData),
        (std::io::ErrorKind::TimedOut, ErrorKind::TimedOut),
        (std::io::ErrorKind::Interrupted, ErrorKind::Interrupted),
        (std::io::ErrorKind::WriteZero, ErrorKind::WriteZero),
        (std::io::ErrorKind::Other, ErrorKind::Other),
        (std::io::ErrorKind::UnexpectedEof, ErrorKind::UnexpectedEof),
    ];
    for (category, kind) in cases {
        let err = DenoError::from(std::io::Error::new(category, "the disk is gone"));
        assert_eq!(err.checked_kind(), Some(kind));
        assert_eq!(err.kind(), kind);
        assert_eq!(err.to_string(), "the disk is gone");
        assert!(matches!(err.cause(), Some(Cause::Io(_))));
    }
}

#[test]
fn io_error_of_the_platform_is_captured() {
    let source = std::io::Error::from_raw_os_error(2);
    let expected = source.to_string();
    let cause = IoCause::capture(source);
    assert_eq!(cause.category, Some(IoCategory::NotFound));
    assert_eq!(cause.text, expected);
    let err = DenoError::from(cause);
    assert_eq!(err.kind(), ErrorKind::NotFound);
    assert_eq!(err.to_string(), expected);
    match err.cause() {
        Some(Cause::Io(wrapped)) => {
            assert_eq!(wrapped.text, expected);
            let kept = wrapped.source.as_ref().unwrap();
            assert_eq!(kept.raw_os_error(), Some(2));
            assert_eq!(kept.kind(), std::io::ErrorKind::NotFound);
        }
        _ => panic!("an I/O failure is its own cause"),
    }
}

#[test]
fn io_error_of_an_unlisted_category_has_no_kind() {
    let err = DenoError::from(std::io::Error::from(std::io::ErrorKind::OutOfMemory));
    assert_eq!(err.checked_kind(), None);
    assert!(matches!(err.cause(), Some(Cause::Io(_))));
    let cause = IoCause {
        category: None,
        text: String::from("strange"),
        description: String::from("strange indeed"),
        source: None,
    };
    let err = DenoError::from(cause);
    assert_eq!(err.checked_kind(), None);
    assert_eq!(err.to_string(), "strange");
    assert_eq!(err.description(), "strange indeed");
}

#[test]
fn url_reasons_map_one_to_one() {
    let cases = vec![
        (url::ParseError::EmptyHost, UrlReason::EmptyHost, ErrorKind::EmptyHost),
        (url::ParseError::IdnaError, UrlReason::IdnaError, ErrorKind::IdnaError),
        (url::ParseError::InvalidPort, UrlReason::InvalidPort, ErrorKind::InvalidPort),
        (
            url::ParseError::InvalidIpv4Address,
            UrlReason::InvalidIpv4Address,
            ErrorKind::InvalidIpv4Address,
        ),
        (
            url::ParseError::InvalidIpv6Address,
            UrlReason::InvalidIpv6Address,
            ErrorKind::InvalidIpv6Address,
        ),
        (
            url::ParseError::InvalidDomainCharacter,
            UrlReason::InvalidDomainCharacter,
            ErrorKind::InvalidDomainCharacter,
        ),
        (
            url::ParseError::RelativeUrlWithoutBase,
            UrlReason::RelativeUrlWithoutBase,
            ErrorKind::RelativeUrlWithoutBase,
        ),
        (
            url::ParseError::RelativeUrlWithCannotBeABaseBase,
            UrlReason::RelativeUrlWithCannotBeABaseBase,
            ErrorKind::RelativeUrlWithCannotBeABaseBase,
        ),
        (
            url::ParseError::SetHostOnCannotBeABaseUrl,
            UrlReason::SetHostOnCannotBeABaseUrl,
            ErrorKind::SetHostOnCannotBeABaseUrl,
        ),
        (url::ParseError::Overflow, UrlReason::Overflow, ErrorKind::Overflow),
    ];
    for (source, reason, kind) in cases {
        assert_eq!(url_kind(reason), kind);
        let cause = UrlCause::capture(source);
        assert_eq!(cause.reason, Some(reason));
        assert_eq!(cause.text, source.to_string());
        assert_eq!(cause.source, Some(source));
        let err = DenoError::from(source);
        assert_eq!(err.kind(), kind);
        assert_eq!(err.to_string(), source.to_string());
        assert!(matches!(err.cause(), Some(Cause::Url(_))));
    }
}

#[test]
fn url_parse_failures_are_classified() {
    let err = DenoError::from(url::Url::parse("/no/base").unwrap_err());
    assert_eq!(err.kind(), ErrorKind::RelativeUrlWithoutBase);
    assert_eq!(err.to_string(), "relative URL without a base");
    let err = DenoError::from(url::Url::parse("http://example.com:99999/").unwrap_err());
    assert_eq!(err.kind(), ErrorKind::InvalidPort);
    assert_eq!(err.to_string(), "invalid port number");
    let err = DenoError::from(url::Url::parse("http://").unwrap_err());
    assert_eq!(err.kind(), ErrorKind::EmptyHost);
}

#[test]
fn url_failure_of_an_unlisted_reason_has_no_kind() {
    let cause = UrlCause {
        reason: None,
        text: String::from("a new reason"),
        description: String::from("new"),
        source: None,
    };
    let err = DenoError::from(cause);
    assert_eq!(err.checked_kind(), None);
    assert_eq!(err.to_string(), "a new reason");
}

#[test]
fn transport_reports_are_tested_in_order() {
    for bits in 0u8..16 {
        let is_parse = bits & 8 != 0;
        let is_user = bits & 4 != 0;
        let is_canceled = bits & 2 != 0;
        let is_closed = bits & 1 != 0;
        let expected = if is_parse {
            ErrorKind::HttpParse
        } else if is_user {
            ErrorKind::HttpUser
        } else if is_canceled {
            ErrorKind::HttpCanceled
        } else if is_closed {
            ErrorKind::HttpClosed
        } else {
            ErrorKind::HttpOther
        };
        assert_eq!(transport_kind(is_parse, is_user, is_canceled, is_closed), expected);
        let cause = transport(is_parse, is_user, is_canceled, is_closed);
        assert_eq!(cause.kind(), expected);
        let err = DenoError::from(cause);
        assert_eq!(err.kind(), expected);
        assert_eq!(err.checked_kind(), Some(expected));
    }
}

#[test]
fn parse_failure_wins_over_cancellation() {
    let err = DenoError::from(transport(true, false, true, false));
    assert_eq!(err.kind(), ErrorKind::HttpParse);
    assert_eq!(err.to_string(), "transport failed");
    assert_eq!(err.description(), "transport");
    match err.cause() {
        Some(Cause::Http(cause)) => assert!(cause.is_parse && cause.is_canceled),
        _ => panic!("a transport failure is its own cause"),
    }
    let err = DenoError::from(transport(false, false, true, true));
    assert_eq!(err.kind(), ErrorKind::HttpCanceled);
    let err = DenoError::from(transport(false, false, false, false));
    assert_eq!(err.kind(), ErrorKind::HttpOther);
}

fn missing_upgrade() -> hyper::Error {
    let mut pending = hyper::upgrade::on(hyper::Response::new(()));
    let mut context = std::task::Context::from_waker(std::task::Waker::noop());
    match std::pin::Pin::new(&mut pending).poll(&mut context) {
        std::task::Poll::Ready(Err(err)) => err,
        _ => panic!("a message without an upgrade cannot be upgraded"),
    }
}

#[test]
fn transport_error_of_the_client_is_captured() {
    let source = missing_upgrade();
    assert!(source.is_user());
    let cause = TransportCause::capture(missing_upgrade());
    assert_eq!(cause.is_parse, source.is_parse());
    assert!(cause.is_user);
    assert_eq!(cause.is_canceled, source.is_canceled());
    assert_eq!(cause.is_closed, source.is_closed());
    assert_eq!(cause.text, source.to_string());
    assert_eq!(cause.text, "no upgrade available");
    assert!(cause.source.as_ref().unwrap().is_user());
    let err = DenoError::from(source);
    assert_eq!(err.kind(), ErrorKind::HttpUser);
    assert_eq!(err.to_string(), "no upgrade available");
    assert!(matches!(err.cause(), Some(Cause::Http(_))));
}

#[test]
fn errno_classes_have_their_kinds() {
    assert_eq!(errno_kind(ErrnoClass::NotPermitted), ErrorKind::PermissionDenied);
    assert_eq!(errno_kind(ErrnoClass::InvalidArgument), ErrorKind::InvalidInput);
    assert_eq!(errno_kind(ErrnoClass::NoSuchEntity), ErrorKind::NotFound);
    assert_eq!(errno_kind(ErrnoClass::Other), ErrorKind::UnderlyingPlatformError);
}

#[test]
fn errno_conversion_is_faithful() {
    let err = DenoError::from(nix::Error::Sys(nix::errno::Errno::EPERM));
    assert_eq!(err.kind(), ErrorKind::PermissionDenied);
    assert_eq!(err.to_string(), "Operation not permitted");
    let err = DenoError::from(nix::Error::Sys(nix::errno::Errno::EINVAL));
    assert_eq!(err.kind(), ErrorKind::InvalidInput);
    assert_eq!(err.to_string(), "Invalid argument");
    let err = DenoError::from(nix::Error::Sys(nix::errno::Errno::ENOENT));
    assert_eq!(err.kind(), ErrorKind::NotFound);
    assert_eq!(err.to_string(), "No such file or directory");
    let err = DenoError::from(nix::Error::Sys(nix::errno::Errno::EIO));
    assert_eq!(err.kind(), ErrorKind::UnderlyingPlatformError);
    assert_eq!(err.to_string(), nix::errno::Errno::EIO.desc());
    assert_eq!(err.to_string(), "I/O error");
    assert_eq!(err.description(), "I/O error");
    assert!(err.cause().is_none());
}

#[test]
fn platform_failure_without_errno_is_other() {
    let err = DenoError::from(nix::Error::InvalidPath);
    assert_eq!(err.kind(), ErrorKind::Other);
    assert_eq!(err.to_string(), "Invalid path");
    let err = DenoError::from(nix::Error::UnsupportedOperation);
    assert_eq!(err.kind(), ErrorKind::Other);
    assert_eq!(err.to_string(), "Unsupported Operation");
    let err = DenoError::from(PlatformCause::Other(String::from("no luck")));
    assert_eq!(err.kind(), ErrorKind::Other);
    assert_eq!(err.to_string(), "no luck");
}

#[test]
fn platform_cause_is_captured() {
    match PlatformCause::capture(&nix::Error::Sys(nix::errno::Errno::EACCES)) {
        PlatformCause::Errno(class, description) => {
            assert_eq!(class, ErrnoClass::Other);
            assert_eq!(description, "Permission denied");
        }
        PlatformCause::Other(_) => panic!("an errno was lost"),
    }
    match PlatformCause::capture(&nix::Error::InvalidUtf8) {
        PlatformCause::Other(text) => assert_eq!(text, "Invalid UTF-8 string"),
        PlatformCause::Errno(_, _) => panic!("no errno was there"),
    }
    let err = DenoError::from(PlatformCause::Errno(
        ErrnoClass::NotPermitted,
        String::from("Operation not permitted"),
    ));
    assert_eq!(err.kind(), ErrorKind::PermissionDenied);
    assert_eq!(err.to_string(), "Operation not permitted");
}

#[test]
fn resolve_addr_failures_convert() {
    let err = DenoError::from(ResolveAddrError::Syntax);
    assert_eq!(err.kind(), ErrorKind::InvalidInput);
    assert_eq!(err.to_string(), "invalid address syntax");
    assert!(err.cause().is_none());
    let lookup = std::io::Error::new(std::io::ErrorKind::TimedOut, "lookup timed out");
    let err = DenoError::from(ResolveAddrError::Resolution(IoCause::capture(lookup)));
    assert_eq!(err.kind(), ErrorKind::TimedOut);
    assert_eq!(err.to_string(), "lookup timed out");
    assert!(matches!(err.cause(), Some(Cause::Io(_))));
}

#[test]
fn import_map_error_is_opaque() {
    let source = ImportMapError::new("cannot map \"x\"");
    assert_eq!(source.msg, "cannot map \"x\"");
    let err = DenoError::from(source);
    assert_eq!(err.kind(), ErrorKind::ImportMapError);
    assert_eq!(err.to_string(), "cannot map \"x\"");
    assert_eq!(err.description(), "cannot map \"x\"");
    assert!(err.cause().is_none());
}

#[test]
fn diagnostics_render_one_per_line() {
    let items = vec![
        DiagnosticItem { message: String::from("first") },
        DiagnosticItem { message: String::from("second") },
        DiagnosticItem { message: String::from("third") },
    ];
    let batch = Diagnostic::new(items).unwrap();
    assert_eq!(batch.first_message(), "first");
    assert_eq!(batch.render(), "first\nsecond\nthird");
    let err = DenoError::from(batch);
    assert_eq!(err.kind(), ErrorKind::Diagnostic);
    assert_eq!(err.to_string(), "first\nsecond\nthird");
    assert_eq!(err.description(), "first");
    assert!(err.cause().is_none());
}

#[test]
fn diagnostics_of_one_item_render_without_line_end() {
    let batch = Diagnostic::new(vec![DiagnosticItem { message: String::from("only") }]).unwrap();
    assert_eq!(batch.render(), "only");
    assert_eq!(batch.items().len(), 1);
    assert_eq!(batch.items()[0].message, "only");
    assert!(Diagnostic::new(Vec::new()).is_none());
}

#[test]
fn script_exception_renders_its_trace_in_colour() {
    let err = DenoError::from(exception());
    assert_eq!(err.kind(), ErrorKind::JSError);
    assert_eq!(err.description(), "Error: boom");
    assert!(err.cause().is_none());
    assert_eq!(
        err.to_string(),
        "\x1b[1mError: boom\x1b[0m\n    at \x1b[1m\x1b[3mfoo\x1b[0m (\x1b[36mgen/a.js\x1b[0m:\x1b[33m3\x1b[0m:\x1b[33m7\x1b[0m)\n    at \x1b[36mgen/b.js\x1b[0m:\x1b[33m12\x1b[0m:\x1b[33m0\x1b[0m"
    );
}

#[test]
fn stack_frame_renders_its_location() {
    let at = frame("main", "x.js", -4, 1234567890123);
    assert_eq!(at.location(), "\x1b[36mx.js\x1b[0m:\x1b[33m-4\x1b[0m:\x1b[33m1234567890123\x1b[0m");
    assert_eq!(at.render(), format!("    at \x1b[1m\x1b[3mmain\x1b[0m ({})", at.location()));
    let bare = frame("", "x.js", 1, 2);
    assert_eq!(bare.render(), format!("    at {}", bare.location()));
    let no_frames = JSError { message: String::from("m"), frames: Vec::new() };
    assert_eq!(no_frames.render(), "\x1b[1mm\x1b[0m");
}

#[test]
fn stack_frame_is_relocated_by_the_answer() {
    let at = frame("foo", "gen/a.js", 3, 7);
    let same = at.relocated(None);
    assert_eq!((same.line, same.column), (3, 7));
    assert_eq!(same.function_name, "foo");
    assert_eq!(same.script_name, "gen/a.js");
    let moved =
        at.relocated(Some(Position { script_name: String::from("src/a.ts"), line: 30, column: 2 }));
    assert_eq!((moved.line, moved.column), (30, 2));
    assert_eq!(moved.function_name, "foo");
    assert_eq!(moved.script_name, "src/a.ts");
}

#[test]
fn source_map_rewrites_the_frames_it_knows() {
    let mapped = apply_source_map(&exception(), &one_script_map());
    assert_eq!(mapped.message, "Error: boom");
    assert_eq!(mapped.frames.len(), 2);
    assert_eq!(mapped.frames[0].script_name, "src/a.ts");
    assert_eq!((mapped.frames[0].line, mapped.frames[0].column), (103, 8));
    assert_eq!(mapped.frames[0].function_name, "foo");
    assert_eq!(mapped.frames[1].script_name, "gen/b.js");
    assert_eq!((mapped.frames[1].line, mapped.frames[1].column), (12, 0));

    let err = DenoError::from(exception()).apply_source_map(&one_script_map());
    assert_eq!(err.kind(), ErrorKind::JSError);
    assert_eq!(err.description(), "Error: boom");
    assert_eq!(
        err.to_string(),
        "\x1b[1mError: boom\x1b[0m\n    at \x1b[1m\x1b[3mfoo\x1b[0m (\x1b[36msrc/a.ts\x1b[0m:\x1b[33m103\x1b[0m:\x1b[33m8\x1b[0m)\n    at \x1b[36mgen/b.js\x1b[0m:\x1b[33m12\x1b[0m:\x1b[33m0\x1b[0m"
    );
    let untouched = DenoError::from(exception()).apply_source_map(&PositionTable::empty());
    assert_eq!(untouched.to_string(), DenoError::from(exception()).to_string());
}

#[test]
fn source_map_leaves_other_errors_alone() {
    let make: Vec<fn() -> DenoError> = vec![
        || new(ErrorKind::InvalidInput, String::from("bad config")),
        || DenoError::from(std::io::Error::new(std::io::ErrorKind::BrokenPipe, "gen/a.js")),
        || DenoError::from(url::ParseError::EmptyHost),
        || DenoError::from(transport(false, true, false, false)),
        || DenoError::from(ImportMapError::new("gen/a.js")),
        || {
            DenoError::from(
                Diagnostic::new(vec![DiagnosticItem { message: String::from("gen/a.js") }])
                    .unwrap(),
            )
        },
        || DenoError::from(nix::Error::Sys(nix::errno::Errno::EPERM)),
    ];
    for build in make {
        let before = build();
        let after = build().apply_source_map(&one_script_map());
        assert_eq!(after.checked_kind(), before.checked_kind());
        assert_eq!(after.to_string(), before.to_string());
        assert_eq!(after.description(), before.description());
        assert_eq!(after.cause().is_some(), before.cause().is_some());
    }
}

#[test]
fn rendering_twice_gives_the_same_text() {
    let errors = vec![
        new(ErrorKind::Other, String::from("twice")),
        DenoError::from(std::io::Error::from_raw_os_error(13)),
        DenoError::from(url::ParseError::IdnaError),
        DenoError::from(missing_upgrade()),
        DenoError::from(exception()),
        DenoError::from(
            Diagnostic::new(vec![
                DiagnosticItem { message: String::from("a") },
                DiagnosticItem { message: String::from("b") },
            ])
            .unwrap(),
        ),
    ];
    for err in errors.iter() {
        assert_eq!(err.to_string(), err.to_string());
        assert_eq!(err.description(), err.description());
    }
}

#[test]
fn err_check_passes_success() {
    let ok: DenoResult<()> = Ok(());
    err_check(ok);
}

#[test]
#[allow(deprecated)]
fn foreign_descriptions_are_kept() {
    let source = std::io::Error::new(std::io::ErrorKind::NotFound, "gone");
    let expected = String::from(std::error::Error::description(&source));
    assert_eq!(DenoError::from(source).description(), expected);
    let source = url::ParseError::InvalidPort;
    let expected = String::from(std::error::Error::description(&source));
    assert_eq!(DenoError::from(source).description(), expected);
    let source = missing_upgrade();
    let expected = String::from(std::error::Error::description(&source));
    assert_eq!(DenoError::from(source).description(), expected);
}

#[test]
fn table_answers_with_the_first_line_that_lists_the_position() {
    let table = one_script_map();
    let found = table.original_position("gen/a.js", 3, 7).unwrap();
    assert_eq!(found.script_name, "src/a.ts");
    assert_eq!((found.line, found.column), (103, 8));
    let found = table.original_position("gen/a.js", 12, 0).unwrap();
    assert_eq!((found.script_name.as_str(), found.line, found.column), ("src/a.ts", 5, 5));
    assert!(table.original_position("gen/a.js", 3, 8).is_none());
    assert!(table.original_position("gen/a.js", 4, 7).is_none());
    assert!(table.original_position("gen/b.js", 3, 7).is_none());
    assert!(PositionTable::empty().original_position("gen/a.js", 3, 7).is_none());
}

#[test]
fn translated_exception_renders_as_its_translation_renders() {
    let map = one_script_map();
    let through_error = DenoError::from(exception()).apply_source_map(&map);
    let through_exception = DenoError::from(apply_source_map(&exception(), &map));
    assert_eq!(through_error.kind(), ErrorKind::JSError);
    assert!(through_error.cause().is_none());
    assert_eq!(through_error.to_string(), through_exception.to_string());
    assert_ne!(through_error.to_string(), DenoError::from(exception()).to_string());
}

#[test]
fn numerals_are_decimal() {
    assert_eq!(numeral_of(0), "0");
    assert_eq!(numeral_of(7), "7");
    assert_eq!(numeral_of(10), "10");
    assert_eq!(numeral_of(1234567890), "1234567890");
    assert_eq!(numeral_of(u64::MAX), "18446744073709551615");
    assert_eq!(decimal(0), "0");
    assert_eq!(decimal(-1), "-1");
    assert_eq!(decimal(-905), "-905");
    assert_eq!(decimal(i64::MAX), "9223372036854775807");
    assert_eq!(decimal(i64::MIN), "-9223372036854775808");
    for n in [-1000i64, -99, -10, -9, 9, 10, 11, 99, 100, 101, 65535] {
        assert_eq!(decimal(n), n.to_string());
    }
}

#[test]
fn captured_text_is_the_rendering_of_the_foreign_error() {
    let source = std::io::Error::from_raw_os_error(13);
    let expected = source.to_string();
    assert!(!expected.is_empty());
    assert_eq!(IoCause::capture(source).text, expected);
    assert_eq!(UrlCause::capture(url::ParseError::Overflow).text, "URLs more than 4 GB are not supported");
    assert_eq!(TransportCause::capture(missing_upgrade()).text, "no upgrade available");
    match PlatformCause::capture(&nix::Error::UnsupportedOperation) {
        PlatformCause::Other(text) => assert_eq!(text, "Unsupported Operation"),
        PlatformCause::Errno(_, _) => panic!("no errno was there"),
    }
}

#[test]
fn parser_errors_always_have_a_reason() {
    for input in ["", "http://", "http://[::1", "http://1.2.3.4.5.6:x/", "//x", "http://a b/"] {
        if let Err(source) = url::Url::parse(input) {
            let expected = source.to_string();
            let err = DenoError::from(source);
            assert!(err.checked_kind().is_some());
            assert_eq!(err.to_string(), expected);
        }
    }
}
