//! Exit codes, and the classification of failures through layers of context.

use nbox::error::{is_broken_pipe, is_not_found, ErrorChain, ErrorLink, NboxError};

fn typed(e: NboxError) -> ErrorChain {
    ErrorChain::new(ErrorLink::Typed(e))
}

fn note(text: &str) -> ErrorChain {
    ErrorChain::new(ErrorLink::Note(text.into()))
}

fn io(broken_pipe: bool, message: &str) -> ErrorChain {
    ErrorChain::new(ErrorLink::Io { broken_pipe, message: message.into() })
}

fn ambiguous() -> NboxError {
    NboxError::Ambiguous {
        noun: "device".into(),
        value: "edge".into(),
        matches: "edge01, edge02".into(),
    }
}

#[test]
fn exit_codes_are_stable() {
    assert_eq!(NboxError::Usage("x".into()).exit_code(), 2);
    assert_eq!(NboxError::Authentication(String::new()).exit_code(), 3);
    assert_eq!(NboxError::PermissionDenied(String::new()).exit_code(), 3);
    assert_eq!(NboxError::NotFound("x".into()).exit_code(), 4);
    assert_eq!(ambiguous().exit_code(), 5);
    assert_eq!(NboxError::Api { status: 500, body: "boom".into() }.exit_code(), 1);
}

#[test]
fn exit_code_is_found_through_a_wrapped_chain() {
    let err = typed(NboxError::NotFound("no device".into())).context("while looking up device");
    assert_eq!(NboxError::exit_code_for(&err), 4);
}

#[test]
fn every_variant_keeps_its_code_when_wrapped_in_context() {
    let cases: [(NboxError, i32); 8] = [
        (NboxError::Usage("bad combo".into()), 2),
        (NboxError::Authentication(String::new()), 3),
        (NboxError::PermissionDenied(String::new()), 3),
        (NboxError::NotFound("nope".into()), 4),
        (ambiguous(), 5),
        (NboxError::Api { status: 502, body: "bad gateway".into() }, 1),
        (NboxError::StalePrecondition(String::new()), 1),
        (NboxError::WriteValidation("description: required".into()), 1),
    ];
    for (variant, code) in cases {
        let err = typed(variant).context("while looking up the object");
        assert_eq!(NboxError::exit_code_for(&err), code, "wrapped variant lost its code");
    }
}

#[test]
fn exit_code_survives_multiple_context_layers() {
    let err = typed(NboxError::Authentication(String::new()))
        .context("authenticating to NetBox")
        .context("running `nbox device edge01`")
        .context("dispatching command");
    assert_eq!(NboxError::exit_code_for(&err), 3);
}

#[test]
fn typed_error_under_untyped_outer_context_is_still_found() {
    let err = typed(NboxError::PermissionDenied(String::new()))
        .context("fetching /api/dcim/sites/")
        .context("running `nbox site iad1`");
    assert_eq!(NboxError::exit_code_for(&err), 3);
}

#[test]
fn untyped_error_defaults_to_one() {
    let err = note("some generic failure");
    assert_eq!(NboxError::exit_code_for(&err), 1);
}

#[test]
fn untyped_error_with_context_still_defaults_to_one() {
    let err = note("disk full").context("writing cache").context("running command");
    assert_eq!(NboxError::exit_code_for(&err), 1);
}

#[test]
fn broken_pipe_is_detected_directly_and_through_context() {
    let bare = io(true, "broken pipe");
    assert!(is_broken_pipe(&bare));

    let wrapped = io(true, "broken pipe")
        .context("writing output")
        .context("running `nbox completions bash`");
    assert!(is_broken_pipe(&wrapped));
}

#[test]
fn non_broken_pipe_io_errors_are_not_classified_as_broken_pipe() {
    let other = io(false, "denied").context("writing output");
    assert!(!is_broken_pipe(&other));

    let untyped = note("some non-IO failure");
    assert!(!is_broken_pipe(&untyped));
}

#[test]
fn messages_name_the_failure() {
    let cases: [(NboxError, &str); 8] = [
        (NboxError::Usage("bad combo".into()), "bad combo"),
        (
            NboxError::Authentication(": Invalid token".into()),
            "authentication failed (HTTP 401): Invalid token — check the token for this profile",
        ),
        (
            NboxError::PermissionDenied(String::new()),
            "permission denied (HTTP 403) — check the token or permissions for this profile",
        ),
        (NboxError::NotFound("no device".into()), "no device"),
        (
            ambiguous(),
            "device \"edge\" is ambiguous — matches: edge01, edge02\n\nBe more specific, or use an ID.",
        ),
        (
            NboxError::StalePrecondition("!".into()),
            "not applied: object changed in NetBox; re-run dry-run!",
        ),
        (
            NboxError::WriteValidation("description: required".into()),
            "not applied: NetBox rejected the patch: description: required",
        ),
        (
            NboxError::Api { status: 502, body: "bad gateway".into() },
            "NetBox API request failed: HTTP 502: bad gateway",
        ),
    ];
    for (error, text) in cases {
        assert_eq!(error.message(), text);
    }
}

#[test]
fn only_a_not_found_is_a_not_found() {
    assert!(is_not_found(&typed(NboxError::NotFound("x".into())).context("outer")));
    assert!(!is_not_found(&typed(ambiguous()).context("outer")));
    assert!(!is_not_found(&note("x")));
}
