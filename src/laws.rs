use vstd::prelude::*;

use crate::session::{holds, SessionView};
use crate::tool::{basename_of, Tool};
use crate::workflow::{
    advance_spec, start_spec, Command, Effect, Event, Outcome, Stage, ToolError,
    Workflow,
};

verus! {

/// The run after its start, where the fetcher, if it was asked for, succeeds.
pub open spec fn with_fetch_success(start: (Workflow, SessionView, Effect)) -> (Workflow, SessionView, Effect) {
    match start.2 {
        Effect::Fetch { .. } => advance_spec(start.0, start.1, Event::Fetched(Ok(()))),
        _ => start,
    }
}

/// Whether an effect asks the fetcher for work.
pub open spec fn calls_fetcher(e: Effect) -> bool {
    e is Fetch
}

proof fn lemma_recorded_is_available(tool: Tool, s: SessionView)
    ensures
        (SessionView {
            cache: s.cache.push(basename_of(tool.kind, tool.version.text())),
            ..s
        }).available(tool),
{
    let name = basename_of(tool.kind, tool.version.text());
    let c = s.cache.push(name);
    assert(c[s.cache.len() as int] == name);
    assert(holds(c, name));
}

/// Once `fetch` has run and the fetcher, if it was asked, succeeded, the
/// version is available in the cache and the run ends in success.
pub proof fn lemma_fetch_then_available(tool: Tool, s: SessionView)
    ensures
        with_fetch_success(start_spec(Command::Fetch, tool, s)).1.available(tool),
        with_fetch_success(start_spec(Command::Fetch, tool, s)).2 is Finish,
        with_fetch_success(start_spec(Command::Fetch, tool, s)).2->Finish_0 is Ok,
{
    lemma_recorded_is_available(tool, s);
}

/// `fetch` is idempotent: a first run asks the fetcher at most once, and a
/// second run right after a successful first one does not ask it at all; it
/// reports the version as already present and changes nothing.
pub proof fn lemma_fetch_idempotent(tool: Tool, s: SessionView)
    ensures
        ({
            let first = with_fetch_success(start_spec(Command::Fetch, tool, s));
            let second = start_spec(Command::Fetch, tool, first.1);
            &&& !calls_fetcher(first.2)
            &&& !calls_fetcher(second.2)
            &&& second.1 == first.1
            &&& second.2 == Effect::Finish(Ok(Outcome::Fetched { already: true }))
        }),
{
    lemma_fetch_then_available(tool, s);
}

/// `install` makes the version the active one of its kind in the toolchain,
/// whatever was active before, and only after the version is materialized;
/// the other kinds and the project are left alone.
pub proof fn lemma_install_activates(tool: Tool, s: SessionView)
    ensures
        ({
            let run = with_fetch_success(start_spec(Command::Install, tool, s));
            &&& run.1.toolchain.get(tool.kind) == Some(tool.version)
            &&& run.1.toolchain == s.toolchain.with(tool.kind, Some(tool.version))
            &&& run.1.project == s.project
            &&& run.1.available(tool)
            &&& run.2 == Effect::SaveToolchain
        }),
{
    lemma_recorded_is_available(tool, s);
}

/// `pin` with no project context fails with `NotInPackage` at once: it does
/// not call the fetcher and changes nothing.
pub proof fn lemma_pin_outside_project(tool: Tool, s: SessionView)
    requires
        s.project.is_none(),
    ensures
        start_spec(Command::Pin, tool, s).1 == s,
        start_spec(Command::Pin, tool, s).2 == Effect::Finish(Err(ToolError::NotInPackage)),
        start_spec(Command::Pin, tool, s).0.stage == Stage::Done,
        !calls_fetcher(start_spec(Command::Pin, tool, s).2),
{
}

/// `pin` inside a project pins the version for its kind in the project,
/// over any earlier pin, once the version is materialized, and leaves the
/// toolchain as it was.
pub proof fn lemma_pin_in_project(tool: Tool, s: SessionView)
    requires
        s.project.is_some(),
    ensures
        ({
            let run = with_fetch_success(start_spec(Command::Pin, tool, s));
            &&& run.1.project == Some(s.project.unwrap().with(tool.kind, Some(tool.version)))
            &&& run.1.project.unwrap().get(tool.kind) == Some(tool.version)
            &&& run.1.toolchain == s.toolchain
            &&& run.1.available(tool)
            &&& run.2 == Effect::SaveProject
        }),
{
    lemma_recorded_is_available(tool, s);
}

} // verus!
