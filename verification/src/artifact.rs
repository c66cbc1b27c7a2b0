//! Resolution of the one executable that a build produced, from the events
//! that the build tool reported.

use vstd::prelude::*;
use crate::error::Error;
use crate::status::ExitStatus;
use crate::text::texts;

verus! {

/// One record of the build tool's report.
#[derive(Debug)]
pub enum BuildEvent {
    /// A file was produced. It is an executable where a path is given.
    CompilerArtifact { executable_path: Option<String> },
    /// The compiler has something to say. The text is given as the compiler
    /// would print it, where it rendered one.
    CompilerMessage { rendered_text: Option<String> },
    /// Anything else.
    Other,
}

impl BuildEvent {
    /// The path of the executable that this event announces, if it announces
    /// one.
    pub open spec fn executable(self) -> Option<Seq<char>> {
        match self {
            BuildEvent::CompilerArtifact { executable_path: Some(path) } => Some(path@),
            _ => None,
        }
    }

    /// The diagnostic text that this event carries, if it carries one.
    pub open spec fn rendered(self) -> Option<Seq<char>> {
        match self {
            BuildEvent::CompilerMessage { rendered_text: Some(text) } => Some(text@),
            _ => None,
        }
    }

    /// Whether this event announces an executable.
    pub fn has_executable(&self) -> (yes: bool)
        ensures
            yes == self.executable().is_some(),
    {
        match self {
            BuildEvent::CompilerArtifact { executable_path: Some(_) } => true,
            _ => false,
        }
    }
}

/// The paths of the executables that `events` announce, in order.
pub open spec fn executables(events: Seq<BuildEvent>) -> Seq<Seq<char>>
    decreases events.len(),
{
    if events.len() == 0 {
        Seq::empty()
    } else {
        let before = executables(events.drop_last());
        match events.last().executable() {
            Some(path) => before.push(path),
            None => before,
        }
    }
}

/// The diagnostic texts that `events` carry, in order.
pub open spec fn diagnostics(events: Seq<BuildEvent>) -> Seq<Seq<char>>
    decreases events.len(),
{
    if events.len() == 0 {
        Seq::empty()
    } else {
        let before = diagnostics(events.drop_last());
        match events.last().rendered() {
            Some(text) => before.push(text),
            None => before,
        }
    }
}

/// The positions in `events` of the events that carry a diagnostic text, in
/// order.
pub open spec fn diagnostic_positions(events: Seq<BuildEvent>) -> Seq<int>
    decreases events.len(),
{
    if events.len() == 0 {
        Seq::empty()
    } else {
        let before = diagnostic_positions(events.drop_last());
        match events.last().rendered() {
            Some(_) => before.push(events.len() - 1),
            None => before,
        }
    }
}

/// How many events are looked at: all of them, or, where a second executable
/// is announced, those up to and including that announcement.
pub open spec fn consumed(events: Seq<BuildEvent>) -> int
    decreases events.len(),
{
    if events.len() == 0 {
        0
    } else if executables(events.drop_last()).len() >= 2 {
        consumed(events.drop_last())
    } else {
        events.len() as int
    }
}

/// What a run resolves to: more than one executable is ambiguous whatever
/// else holds; then a failed build is reported with its status code, also
/// where it left an executable behind; then a build without an executable
/// has nothing to flash; what remains is the one executable's path.
pub open spec fn verdict(events: Seq<BuildEvent>, status: ExitStatus) -> Result<Seq<char>, Error> {
    let found = executables(events);
    if found.len() >= 2 {
        Err(Error::AmbiguousArtifact)
    } else if !status.spec_success() {
        Err(Error::BuildFailed(status.spec_exit_code()))
    } else if found.len() == 0 {
        Err(Error::NoArtifact)
    } else {
        Ok(found[0])
    }
}

/// The executables of a prefix are a prefix of the executables.
pub proof fn lemma_executables_prefix(events: Seq<BuildEvent>, k: int)
    requires
        0 <= k <= events.len(),
    ensures
        executables(events.take(k)).len() <= executables(events).len(),
        executables(events.take(k)) == executables(events).take(
            executables(events.take(k)).len() as int,
        ),
    decreases events.len() - k,
{
    if k == events.len() {
        assert(events.take(k) =~= events);
        assert(executables(events).take(executables(events).len() as int) =~= executables(events));
    } else {
        lemma_executables_prefix(events.drop_last(), k);
        assert(events.drop_last().take(k) =~= events.take(k));
        let short = executables(events.take(k));
        assert(executables(events).take(short.len() as int) =~= executables(
            events.drop_last(),
        ).take(short.len() as int));
    }
}

/// Once a prefix announces its second executable with its last event, that
/// prefix is what is looked at, whatever follows.
pub proof fn lemma_consumed_at_second(events: Seq<BuildEvent>, k: int)
    requires
        1 <= k <= events.len(),
        executables(events.take(k)).len() >= 2,
        executables(events.take(k - 1)).len() < 2,
    ensures
        consumed(events) == k,
    decreases events.len() - k,
{
    if k == events.len() {
        assert(events.take(k) =~= events);
        assert(events.drop_last() =~= events.take(k - 1));
    } else {
        let shorter = events.drop_last();
        assert(shorter.take(k) =~= events.take(k));
        assert(shorter.take(k - 1) =~= events.take(k - 1));
        lemma_executables_prefix(shorter, k);
        lemma_consumed_at_second(shorter, k);
    }
}

/// Without an announcement of an executable there is none to resolve: a
/// successful build then ends in [`Error::NoArtifact`].
pub proof fn lemma_no_executable(events: Seq<BuildEvent>, status: ExitStatus)
    requires
        forall|i: int| 0 <= i < events.len() ==> (#[trigger] events[i]).executable() is None,
    ensures
        executables(events).len() == 0,
        status.spec_success() ==> verdict(events, status) == Err::<Seq<char>, Error>(
            Error::NoArtifact,
        ),
    decreases events.len(),
{
    if events.len() > 0 {
        let shorter = events.drop_last();
        assert forall|i: int| 0 <= i < shorter.len() implies (#[trigger] shorter[i]).executable()
            is None by {
            assert(shorter[i] == events[i]);
        }
        lemma_no_executable(shorter, status);
    }
}

/// Two announcements of an executable are ambiguous, whatever stands
/// between and around them and however the build ended.
pub proof fn lemma_two_executables(events: Seq<BuildEvent>, status: ExitStatus, i: int, j: int)
    requires
        0 <= i < j < events.len(),
        events[i].executable() is Some,
        events[j].executable() is Some,
    ensures
        executables(events).len() >= 2,
        verdict(events, status) == Err::<Seq<char>, Error>(Error::AmbiguousArtifact),
{
    let upto_i = events.take(i + 1);
    let upto_j = events.take(j + 1);
    assert(upto_i.last() == events[i]);
    assert(upto_j.last() == events[j]);
    assert(upto_j.drop_last() =~= events.take(j));
    assert(executables(upto_i).len() >= 1);
    lemma_executables_prefix(events.take(j), i + 1);
    assert(events.take(j).take(i + 1) =~= upto_i);
    assert(executables(upto_j).len() >= 2);
    lemma_executables_prefix(events, j + 1);
}

/// A single announcement of an executable resolves to its path, unchanged,
/// whatever other events surround it, provided the build succeeded.
pub proof fn lemma_one_executable(events: Seq<BuildEvent>, status: ExitStatus, k: int)
    requires
        0 <= k < events.len(),
        events[k].executable() is Some,
        forall|i: int|
            0 <= i < events.len() && i != k ==> (#[trigger] events[i]).executable() is None,
    ensures
        executables(events) == seq![events[k].executable().unwrap()],
        status.spec_success() ==> verdict(events, status) == Ok::<Seq<char>, Error>(
            events[k].executable().unwrap(),
        ),
    decreases events.len(),
{
    let shorter = events.drop_last();
    if k == events.len() - 1 {
        assert forall|i: int| 0 <= i < shorter.len() implies (#[trigger] shorter[i]).executable()
            is None by {
            assert(shorter[i] == events[i]);
        }
        lemma_no_executable(shorter, status);
        assert(executables(events) =~= seq![events[k].executable().unwrap()]);
    } else {
        assert(shorter[k] == events[k]);
        assert forall|i: int| 0 <= i < shorter.len() && i != k implies (
        #[trigger] shorter[i]).executable() is None by {
            assert(shorter[i] == events[i]);
        }
        lemma_one_executable(shorter, status, k);
        assert(events.last() == events[events.len() - 1]);
    }
}

/// Diagnostics keep the order of their events: the texts are those of the
/// events at [`diagnostic_positions`], which ascend and leave out no event
/// that carries a text.
pub proof fn lemma_diagnostics_in_order(events: Seq<BuildEvent>)
    ensures
        diagnostic_positions(events).len() == diagnostics(events).len(),
        forall|i: int|
            0 <= i < diagnostics(events).len() ==> {
                let at = #[trigger] diagnostic_positions(events)[i];
                0 <= at < events.len() && events[at].rendered() == Some(diagnostics(events)[i])
            },
        forall|i: int, j: int|
            0 <= i < j < diagnostics(events).len() ==> diagnostic_positions(events)[i]
                < diagnostic_positions(events)[j],
        forall|at: int|
            0 <= at < events.len() && (#[trigger] events[at]).rendered() is Some
                ==> diagnostic_positions(events).contains(at),
    decreases events.len(),
{
    if events.len() > 0 {
        let shorter = events.drop_last();
        let last = events.len() - 1;
        lemma_diagnostics_in_order(shorter);
        let before = diagnostic_positions(shorter);
        let now = diagnostic_positions(events);
        assert forall|i: int| 0 <= i < before.len() implies 0 <= #[trigger] before[i] < last by {}
        assert forall|i: int| 0 <= i < diagnostics(events).len() implies {
            let at = #[trigger] now[i];
            0 <= at < events.len() && events[at].rendered() == Some(diagnostics(events)[i])
        } by {
            if i < before.len() {
                assert(now[i] == before[i]);
                assert(shorter[before[i]] == events[before[i]]);
            }
        }
        assert forall|i: int, j: int| 0 <= i < j < diagnostics(events).len() implies now[i]
            < now[j] by {
            assert(now[i] == before[i]);
            if j < before.len() {
                assert(now[j] == before[j]);
            }
        }
        assert forall|at: int|
            0 <= at < events.len() && (#[trigger] events[at]).rendered() is Some implies now.contains(
            at,
        ) by {
            if at < last {
                assert(shorter[at] == events[at]);
                let i = choose|i: int| 0 <= i < before.len() && before[i] == at;
                assert(now[i] == at);
            } else {
                assert(now[now.len() - 1] == at);
            }
        }
    }
}

/// The one slot that the events of a build are folded into: the path of the
/// executable announced so far, if any. It is filled at most once.
#[derive(Debug)]
pub struct Resolver {
    pub target: Option<String>,
}

/// The outcome of looking at a whole report.
#[derive(Debug)]
pub struct Resolution {
    /// The diagnostic texts to show, in the order to show them.
    pub diagnostics: Vec<String>,
    /// The path of the executable to flash, or why there is none.
    pub outcome: Result<String, Error>,
}

impl Resolver {
    /// The path held so far.
    pub open spec fn found(self) -> Option<Seq<char>> {
        match self.target {
            Some(path) => Some(path@),
            None => None,
        }
    }

    /// Whether this is the state reached from the empty slot by the events
    /// of `seen`, none of which was refused.
    pub open spec fn holds(self, seen: Seq<BuildEvent>) -> bool {
        let found = executables(seen);
        &&& found.len() <= 1
        &&& self.found() == if found.len() == 1 {
            Some(found[0])
        } else {
            None
        }
    }

    /// The empty slot.
    pub fn new() -> (fresh: Resolver)
        ensures
            fresh.found() is None,
            fresh.holds(Seq::empty()),
    {
        Resolver { target: None }
    }

    /// Takes in the next event. An announcement of an executable fills the
    /// slot, and is refused with [`Error::AmbiguousArtifact`] where the slot
    /// is filled already. Any other event leaves the slot as it is. The
    /// result is the diagnostic text to show now, if the event carries one.
    pub fn feed(&mut self, event: &BuildEvent) -> (shown: Result<Option<String>, Error>)
        ensures
            match event.executable() {
                Some(path) => if old(self).found() is Some {
                    &&& shown == Err::<Option<String>, Error>(Error::AmbiguousArtifact)
                    &&& final(self).found() == old(self).found()
                } else {
                    &&& shown == Ok::<Option<String>, Error>(None)
                    &&& final(self).found() == Some(path)
                },
                None => {
                    &&& final(self).found() == old(self).found()
                    &&& match shown {
                        Ok(Some(text)) => event.rendered() == Some(text@),
                        Ok(None) => event.rendered() is None,
                        Err(_) => false,
                    }
                },
            },
    {
        match event {
            BuildEvent::CompilerArtifact { executable_path: Some(path) } => {
                if self.target.is_some() {
                    Err(Error::AmbiguousArtifact)
                } else {
                    self.target = Some(path.clone());
                    Ok(None)
                }
            },
            BuildEvent::CompilerMessage { rendered_text: Some(text) } => Ok(Some(text.clone())),
            _ => Ok(None),
        }
    }

    /// Closes the report once every event was taken in: a failed build is
    /// reported with the status code to end with, whatever the slot holds; a
    /// successful one gives the path in the slot, or
    /// [`Error::NoArtifact`] where the slot is empty.
    pub fn finish(&self, status: &ExitStatus) -> (outcome: Result<String, Error>)
        ensures
            match outcome {
                Ok(path) => status.spec_success() && self.found() == Some(path@),
                Err(e) => if status.spec_success() {
                    e == Error::NoArtifact && self.found() is None
                } else {
                    e == Error::BuildFailed(status.spec_exit_code()) && status.spec_exit_code() != 0
                },
            },
    {
        if !status.success() {
            return Err(Error::BuildFailed(status.exit_code()));
        }
        match &self.target {
            Some(path) => Ok(path.clone()),
            None => Err(Error::NoArtifact),
        }
    }
}

/// Whether `outcome` is `expected`, text for text.
pub open spec fn outcome_is(outcome: Result<String, Error>, expected: Result<Seq<char>, Error>) -> bool {
    match outcome {
        Ok(path) => expected == Ok::<Seq<char>, Error>(path@),
        Err(e) => expected == Err::<Seq<char>, Error>(e),
    }
}

/// Looks at the events of a build in order, once. The diagnostics are those
/// of the events looked at, in their order; the outcome is the
/// [`verdict`]. Nothing after the announcement of a second executable is
/// looked at. A failed build is never reported with the code zero.
pub fn resolve(events: &Vec<BuildEvent>, status: &ExitStatus) -> (resolution: Resolution)
    ensures
        outcome_is(resolution.outcome, verdict(events@, *status)),
        texts(resolution.diagnostics@) == diagnostics(events@.take(consumed(events@))),
        resolution.outcome != Err::<String, Error>(Error::BuildFailed(0)),
{
    let mut slot = Resolver::new();
    let mut shown: Vec<String> = Vec::new();
    let mut i: usize = 0;
    assert(texts(shown@) =~= diagnostics(events@.take(0)));
    while i < events.len()
        invariant
            i <= events.len(),
            slot.holds(events@.take(i as int)),
            texts(shown@) == diagnostics(events@.take(i as int)),
        decreases events.len() - i,
    {
        let ghost seen = events@.take(i as int);
        let ghost next = events@.take(i + 1);
        assert(next.drop_last() =~= seen);
        assert(next.last() == events[i as int]);
        let ghost before = texts(shown@);
        match slot.feed(&events[i]) {
            Err(e) => {
                proof {
                    lemma_executables_prefix(events@, i + 1);
                    lemma_consumed_at_second(events@, i + 1);
                }
                return Resolution { diagnostics: shown, outcome: Err(e) };
            },
            Ok(Some(text)) => {
                shown.push(text);
                assert(texts(shown@) =~= before.push(text@));
            },
            Ok(None) => {},
        }
        i = i + 1;
    }
    assert(events@.take(i as int) =~= events@);
    proof {
        if events.len() > 0 {
            lemma_executables_prefix(events@, events.len() - 1);
            assert(events@.take(events.len() - 1) =~= events@.drop_last());
        }
    }
    let outcome = slot.finish(status);
    Resolution { diagnostics: shown, outcome }
}

} // verus!
