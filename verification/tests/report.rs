use cargo_hf2::error::Error;
use cargo_hf2::status::ExitStatus;
use cargo_hf2::nesting::{is_shallow, measure, NESTING_LIMIT};
use cargo_hf2::stream::resolve_stream;

fn ok() -> ExitStatus {
    ExitStatus::new(Some(0), None)
}

fn artifact(name: &str, executable: Option<&str>) -> String {
    let executable = match executable {
        Some(path) => format!("\"{}\"", path),
        None => "null".to_string(),
    };
    format!(
        "{{\"reason\":\"compiler-artifact\",\"package_id\":\"{n} 0.1.0 (path+file:///w/{n})\",\"manifest_path\":\"/w/{n}/Cargo.toml\",\"target\":{{\"kind\":[\"bin\"],\"crate_types\":[\"bin\"],\"name\":\"{n}\",\"src_path\":\"/w/{n}/src/main.rs\",\"edition\":\"2018\",\"doctest\":false}},\"profile\":{{\"opt_level\":\"0\",\"debuginfo\":2,\"debug_assertions\":true,\"overflow_checks\":true,\"test\":false}},\"features\":[],\"filenames\":[\"/w/target/debug/{n}\"],\"executable\":{e},\"fresh\":false}}",
        n = name,
        e = executable
    )
}

fn message(rendered: Option<&str>) -> String {
    let rendered = match rendered {
        Some(text) => format!("\"{}\"", text),
        None => "null".to_string(),
    };
    format!(
        "{{\"reason\":\"compiler-message\",\"package_id\":\"demo 0.1.0 (path+file:///w/demo)\",\"manifest_path\":\"/w/demo/Cargo.toml\",\"target\":{{\"kind\":[\"bin\"],\"crate_types\":[\"bin\"],\"name\":\"demo\",\"src_path\":\"/w/demo/src/main.rs\",\"edition\":\"2018\",\"doctest\":false}},\"message\":{{\"message\":\"unused variable\",\"code\":null,\"level\":\"warning\",\"spans\":[],\"children\":[],\"rendered\":{r}}}}}",
        r = rendered
    )
}

const FINISHED: &str = "{\"reason\":\"build-finished\",\"success\":true}";

#[test]
fn report_with_one_executable() {
    let report = [
        artifact("dep", None),
        message(Some("warning: unused variable\\n")),
        artifact("demo", Some("/w/target/debug/demo")),
        FINISHED.to_string(),
    ]
    .join("\n");
    let r = resolve_stream(&report, &ok()).unwrap();
    assert_eq!(r.outcome, Ok("/w/target/debug/demo".to_string()));
    assert_eq!(r.diagnostics, vec!["warning: unused variable\n".to_string()]);
}

#[test]
fn report_with_two_executables() {
    let report = [
        message(Some("first")),
        artifact("one", Some("/w/target/debug/one")),
        message(Some("second")),
        artifact("two", Some("/w/target/debug/two")),
        message(Some("third")),
        FINISHED.to_string(),
    ]
    .join("\n");
    let r = resolve_stream(&report, &ok()).unwrap();
    assert_eq!(r.outcome, Err(Error::AmbiguousArtifact));
    assert_eq!(r.diagnostics, vec!["first".to_string(), "second".to_string()]);
}

#[test]
fn report_without_executable() {
    let report = [artifact("dep", None), message(None), FINISHED.to_string()].join("\n");
    let r = resolve_stream(&report, &ok()).unwrap();
    assert_eq!(r.outcome, Err(Error::NoArtifact));
    assert!(r.diagnostics.is_empty());
}

#[test]
fn empty_report() {
    let r = resolve_stream("", &ok()).unwrap();
    assert_eq!(r.outcome, Err(Error::NoArtifact));
    assert!(r.diagnostics.is_empty());
}

#[test]
fn lines_of_plain_text_are_passed_over() {
    let report = [
        "   Compiling demo v0.1.0".to_string(),
        "{ not json".to_string(),
        String::new(),
        artifact("demo", Some("/w/target/debug/demo")),
        "{\"reason\":\"something-new\"}".to_string(),
    ]
    .join("\n");
    let r = resolve_stream(&report, &ok()).unwrap();
    assert_eq!(r.outcome, Ok("/w/target/debug/demo".to_string()));
    assert!(r.diagnostics.is_empty());
}

#[test]
fn diagnostics_of_a_report_keep_their_order() {
    let report = [
        message(Some("c")),
        message(None),
        message(Some("a")),
        artifact("demo", Some("/w/target/debug/demo")),
        message(Some("b")),
    ]
    .join("\n");
    let r = resolve_stream(&report, &ok()).unwrap();
    assert_eq!(r.diagnostics, vec!["c".to_string(), "a".to_string(), "b".to_string()]);
}

#[test]
fn failed_build_of_a_report() {
    let report = [message(Some("error: mismatched types")), artifact("demo", Some("/w/target/debug/demo"))].join("\n");
    let r = resolve_stream(&report, &ExitStatus::new(Some(101), None)).unwrap();
    assert_eq!(r.outcome, Err(Error::BuildFailed(101)));
    assert_eq!(r.diagnostics, vec!["error: mismatched types".to_string()]);
}

#[test]
fn trailing_newline_and_carriage_returns() {
    let report = format!("{}\n", artifact("demo", Some("/w/target/debug/demo")));
    assert_eq!(resolve_stream(&report, &ok()).unwrap().outcome, Ok("/w/target/debug/demo".to_string()));
}

fn nested(levels: usize) -> String {
    format!("{{\"x\":{}{}}}", "[".repeat(levels - 1), "]".repeat(levels - 1))
}

#[test]
fn nesting_is_measured_line_by_line() {
    assert_eq!(measure(""), 0);
    assert_eq!(measure("plain text"), 0);
    assert_eq!(measure("{}"), 1);
    assert_eq!(measure("{\"a\":[1,[2,{\"b\":[]}]]}"), 5);
    assert_eq!(measure("[[\n[[[\n["), 3);
    assert_eq!(measure("[[[]]][[]]{}"), 3);
    assert_eq!(measure("]]]][["), 2);
    assert_eq!(measure(&nested(1)), 1);
    assert_eq!(measure(&nested(40)), 40);
}

#[test]
fn brackets_in_string_literals_do_not_count() {
    assert_eq!(measure("{\"a\":\"[[[[{{{{\"}"), 1);
    assert_eq!(measure("{\"a\":\"}}}}\",\"b\":[[]]}"), 3);
    assert_eq!(measure("{\"a\":\"\\\"[[[\",\"b\":[]}"), 2);
    assert_eq!(measure("{\"a\":\"\\\\\",\"b\":[[]]}"), 3);
    assert_eq!(measure("\"[[[\n[["), 2);
    assert_eq!(measure("{\"é[\":[\"ü\",[\"]\"]]}"), 3);
}

#[test]
fn measure_stops_one_past_the_limit() {
    assert_eq!(NESTING_LIMIT, 127);
    assert_eq!(measure(&nested(127)), 127);
    assert!(is_shallow(&nested(127)));
    assert_eq!(measure(&nested(128)), 128);
    assert!(!is_shallow(&nested(128)));
    assert_eq!(measure(&nested(5000)), 128);
    assert!(!is_shallow(&"[".repeat(100000)));
    assert!(is_shallow(&"[]".repeat(100000)));
    assert!(is_shallow(&"[\n".repeat(100000)));
}

#[test]
fn report_nested_to_the_limit_is_read() {
    let report = [nested(127), artifact("demo", Some("/w/target/debug/demo")), nested(127)].join("\n");
    let r = resolve_stream(&report, &ok()).unwrap();
    assert_eq!(r.outcome, Ok("/w/target/debug/demo".to_string()));
    assert!(r.diagnostics.is_empty());
}

#[test]
fn report_nested_beyond_the_limit_is_not_read() {
    let deep = format!("{{\"x\":{}", "[".repeat(50000));
    assert!(resolve_stream(&deep, &ok()).is_none());
    let report = [artifact("demo", Some("/w/target/debug/demo")), nested(128)].join("\n");
    assert!(resolve_stream(&report, &ok()).is_none());
    let failed = ExitStatus::new(Some(101), None);
    assert!(resolve_stream(&deep, &failed).is_none());
}

#[test]
fn deep_brackets_inside_a_rendered_text_are_read() {
    let text = "{".repeat(500);
    let report = [message(Some(&text)), artifact("demo", Some("/w/target/debug/demo"))].join("\n");
    let r = resolve_stream(&report, &ok()).unwrap();
    assert_eq!(r.outcome, Ok("/w/target/debug/demo".to_string()));
    assert_eq!(r.diagnostics, vec![text]);
}
