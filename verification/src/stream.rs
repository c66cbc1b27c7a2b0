//! Reading the build tool's report: one JSON record per line, as
//! `cargo build --message-format json` writes them.

use vstd::prelude::*;
use vstd::string::StringSliceAdditionalSpecFns;
use cargo_metadata::Message;
use crate::artifact::{consumed, diagnostics, outcome_is, resolve, verdict};
use crate::artifact::{BuildEvent, Resolution};
use crate::error::Error;
use crate::nesting::{is_shallow, shallow};
use crate::status::ExitStatus;
use crate::text::texts;

verus! {

/// The events that a report holds, line by line. The report's grammar is
/// that of `cargo_metadata::Message::parse_stream`; this name stands for
/// what that function reads out of a given text, and says no more.
pub uninterp spec fn stream_events(report: Seq<char>) -> Seq<BuildEvent>;

/// Reads the events out of a report.
///
/// Trusted: calls `cargo_metadata::Message::parse_stream` on the report's
/// bytes and keeps of each message what the resolution reads: of a
/// compiler artifact the path of its executable, of a compiler message its
/// rendered text. Every other message, a line of plain text among them,
/// becomes [`BuildEvent::Other`].
///
/// The parser reads each line with its guard against deep recursion
/// switched off, and goes one call deeper for each bracket that a line
/// opens inside another: a line that nests without bound ends the process
/// with a stack overflow. So only reports in which no line nests deeper
/// than [`crate::nesting::NESTING_LIMIT`] are admitted, which is the depth
/// that the JSON reader underneath accepts when its guard is on.
///
/// The parser reports a failure only for bytes that are not UTF-8, which a
/// `&str` never holds; the arm for it is there for the type's sake.
///
/// The contract claims only that the result is determined by the text,
/// which holds since the parser reads nothing else.
#[verifier::external_body]
fn read_events(report: &str) -> (events: Vec<BuildEvent>)
    requires
        shallow(report.spec_bytes()),
    ensures
        events@ == stream_events(report@),
{
    Message::parse_stream(report.as_bytes())
        .map(|line| match line {
            Ok(Message::CompilerArtifact(artifact)) => BuildEvent::CompilerArtifact {
                executable_path: artifact.executable.map(|path| path.into_string()),
            },
            Ok(Message::CompilerMessage(said)) => BuildEvent::CompilerMessage {
                rendered_text: said.message.rendered,
            },
            Ok(_) => BuildEvent::Other,
            Err(_) => BuildEvent::Other,
        })
        .collect()
}

/// Reads a report and resolves it: the events are those that the report
/// holds, and what is made of them is what [`resolve`] makes of them. A
/// report with a line that nests deeper than
/// [`crate::nesting::NESTING_LIMIT`] is not read at all: the result is
/// `None` for it, and for no other.
pub fn resolve_stream(report: &str, status: &ExitStatus) -> (resolution: Option<Resolution>)
    ensures
        resolution is Some <==> shallow(report.spec_bytes()),
        match resolution {
            Some(found) => {
                &&& outcome_is(found.outcome, verdict(stream_events(report@), *status))
                &&& texts(found.diagnostics@) == diagnostics(
                    stream_events(report@).take(consumed(stream_events(report@))),
                )
                &&& found.outcome != Err::<String, Error>(Error::BuildFailed(0))
            },
            None => true,
        },
{
    if !is_shallow(report) {
        return None;
    }
    let events = read_events(report);
    Some(resolve(&events, status))
}

} // verus!
