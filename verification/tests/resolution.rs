use cargo_hf2::artifact::{resolve, BuildEvent, Resolver};
use cargo_hf2::error::Error;
use cargo_hf2::status::ExitStatus;

fn ok() -> ExitStatus {
    ExitStatus::new(Some(0), None)
}

fn exe(path: &str) -> BuildEvent {
    BuildEvent::CompilerArtifact { executable_path: Some(path.to_string()) }
}

fn library() -> BuildEvent {
    BuildEvent::CompilerArtifact { executable_path: None }
}

fn said(text: &str) -> BuildEvent {
    BuildEvent::CompilerMessage { rendered_text: Some(text.to_string()) }
}

fn silent() -> BuildEvent {
    BuildEvent::CompilerMessage { rendered_text: None }
}

#[test]
fn no_executable_is_no_artifact() {
    let events = vec![library(), said("warning: a\n"), BuildEvent::Other, library()];
    let r = resolve(&events, &ok());
    assert_eq!(r.outcome, Err(Error::NoArtifact));
    assert_eq!(r.diagnostics, vec!["warning: a\n".to_string()]);
}

#[test]
fn empty_report_is_no_artifact() {
    let r = resolve(&Vec::new(), &ok());
    assert_eq!(r.outcome, Err(Error::NoArtifact));
    assert!(r.diagnostics.is_empty());
}

#[test]
fn two_executables_are_ambiguous() {
    let events = vec![exe("/t/a"), exe("/t/b")];
    assert_eq!(resolve(&events, &ok()).outcome, Err(Error::AmbiguousArtifact));
}

#[test]
fn two_executables_are_ambiguous_among_other_events() {
    let events = vec![
        said("one"),
        library(),
        exe("/t/a"),
        BuildEvent::Other,
        said("two"),
        silent(),
        exe("/t/b"),
        said("three"),
        exe("/t/c"),
    ];
    let r = resolve(&events, &ok());
    assert_eq!(r.outcome, Err(Error::AmbiguousArtifact));
    assert_eq!(r.diagnostics, vec!["one".to_string(), "two".to_string()]);
}

#[test]
fn same_path_twice_is_ambiguous() {
    let events = vec![exe("/t/a"), exe("/t/a")];
    assert_eq!(resolve(&events, &ok()).outcome, Err(Error::AmbiguousArtifact));
}

#[test]
fn ambiguity_comes_before_a_failed_build() {
    let events = vec![exe("/t/a"), exe("/t/b")];
    let failed = ExitStatus::new(Some(101), None);
    assert_eq!(resolve(&events, &failed).outcome, Err(Error::AmbiguousArtifact));
}

#[test]
fn one_executable_is_resolved_unchanged() {
    let path = "/home/me/proj/target/thumbv6m-none-eabi/debug/blinky é";
    let events = vec![
        said("warning: unused\n"),
        library(),
        BuildEvent::Other,
        exe(path),
        silent(),
        said("warning: dead code\n"),
        BuildEvent::Other,
    ];
    let r = resolve(&events, &ok());
    assert_eq!(r.outcome, Ok(path.to_string()));
    assert_eq!(r.diagnostics, vec!["warning: unused\n".to_string(), "warning: dead code\n".to_string()]);
}

#[test]
fn diagnostics_keep_their_order() {
    let events = vec![said("c"), said("a"), silent(), said("b"), exe("/x"), said("a")];
    let r = resolve(&events, &ok());
    assert_eq!(r.diagnostics, vec!["c".to_string(), "a".to_string(), "b".to_string(), "a".to_string()]);
}

#[test]
fn failed_build_is_reported_even_with_an_executable() {
    let events = vec![said("error: no\n"), exe("/t/stale")];
    let failed = ExitStatus::new(Some(101), None);
    let r = resolve(&events, &failed);
    assert_eq!(r.outcome, Err(Error::BuildFailed(101)));
    assert_eq!(r.diagnostics, vec!["error: no\n".to_string()]);
}

#[test]
fn failed_build_without_executable() {
    let killed = ExitStatus::new(None, Some(9));
    assert_eq!(resolve(&vec![library()], &killed).outcome, Err(Error::BuildFailed(9)));
    let unknown = ExitStatus::new(None, None);
    assert_eq!(resolve(&Vec::new(), &unknown).outcome, Err(Error::BuildFailed(1)));
}

#[test]
fn slot_is_filled_once() {
    let mut slot = Resolver::new();
    assert_eq!(slot.target, None);
    assert_eq!(slot.feed(&said("hello")), Ok(Some("hello".to_string())));
    assert_eq!(slot.feed(&silent()), Ok(None));
    assert_eq!(slot.feed(&library()), Ok(None));
    assert_eq!(slot.feed(&BuildEvent::Other), Ok(None));
    assert_eq!(slot.target, None);
    assert_eq!(slot.finish(&ok()), Err(Error::NoArtifact));
    assert_eq!(slot.feed(&exe("/t/a")), Ok(None));
    assert_eq!(slot.target, Some("/t/a".to_string()));
    assert_eq!(slot.finish(&ok()), Ok("/t/a".to_string()));
    assert_eq!(slot.feed(&exe("/t/b")), Err(Error::AmbiguousArtifact));
    assert_eq!(slot.target, Some("/t/a".to_string()));
    assert_eq!(slot.feed(&said("later")), Ok(Some("later".to_string())));
    assert_eq!(slot.finish(&ExitStatus::new(Some(2), None)), Err(Error::BuildFailed(2)));
}

#[test]
fn events_say_whether_they_announce_an_executable() {
    assert!(exe("/t/a").has_executable());
    assert!(!library().has_executable());
    assert!(!said("x").has_executable());
    assert!(!BuildEvent::Other.has_executable());
}

#[test]
fn exit_status_policy() {
    assert!(ExitStatus::new(Some(0), None).success());
    assert!(!ExitStatus::new(Some(1), None).success());
    assert!(!ExitStatus::new(None, Some(15)).success());
    assert!(!ExitStatus::new(None, None).success());
    assert_eq!(ExitStatus::new(Some(101), None).exit_code(), 101);
    assert_eq!(ExitStatus::new(Some(-3), None).exit_code(), -3);
    assert_eq!(ExitStatus::new(None, Some(15)).exit_code(), 15);
    assert_eq!(ExitStatus::new(None, None).exit_code(), 1);
    assert_eq!(ExitStatus::new(Some(0), None).exit_code(), 0);
}

#[test]
fn status_keeps_what_can_be() {
    let exited = ExitStatus::new(Some(3), None);
    assert_eq!((exited.code(), exited.signal()), (Some(3), None));
    let killed = ExitStatus::new(None, Some(9));
    assert_eq!((killed.code(), killed.signal()), (None, Some(9)));
    let both = ExitStatus::new(Some(3), Some(9));
    assert_eq!((both.code(), both.signal()), (Some(3), None));
    assert_eq!(both.exit_code(), 3);
    let unknown = ExitStatus::new(None, None);
    assert_eq!((unknown.code(), unknown.signal()), (None, None));
}

#[test]
fn signal_below_one_is_no_signal() {
    for number in [0, -1, i32::MIN] {
        let status = ExitStatus::new(None, Some(number));
        assert_eq!((status.code(), status.signal()), (None, None));
        assert!(!status.success());
        assert_eq!(status.exit_code(), 1);
        assert_eq!(resolve(&Vec::new(), &status).outcome, Err(Error::BuildFailed(1)));
    }
    assert_eq!(ExitStatus::new(None, Some(1)).exit_code(), 1);
    assert_eq!(ExitStatus::new(None, Some(i32::MAX)).exit_code(), i32::MAX);
}

#[test]
fn errors_give_the_code_to_end_with() {
    assert_eq!(Error::BuildFailed(101).exit_code(), 101);
    assert_eq!(Error::BuildFailed(9).exit_code(), 9);
    assert_eq!(Error::BuildFailed(-1).exit_code(), -1);
    assert_eq!(Error::BuildFailed(0).exit_code(), 1);
    for e in [
        Error::MalformedArguments,
        Error::BuildToolUnavailable,
        Error::AmbiguousArtifact,
        Error::NoArtifact,
        Error::DeviceNotFound,
        Error::ConversionFailed,
        Error::DeviceQueryFailed,
        Error::FlashFailed,
    ] {
        assert_eq!(e.exit_code(), 1);
    }
}
