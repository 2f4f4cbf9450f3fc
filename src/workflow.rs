use vstd::prelude::*;

use crate::session::{clone_version_opt, Session, SessionView};
use crate::tool::{basename_of, Tool, ToolKind, Yarn};
use crate::version::Version;

verus! {

/// The three entry actions of the workflow.
#[derive(PartialEq, Eq, Structural, Clone, Copy, Debug)]
pub enum Command {
    /// Make sure the version is materialized in the tool cache.
    Fetch,
    /// Fetch, then make the version the globally active one for its kind.
    Install,
    /// Fetch, then pin the version in the current project.
    Pin,
}

/// Where a run of the workflow stands.
#[derive(PartialEq, Eq, Structural, Clone, Copy, Debug)]
pub enum Stage {
    /// Waiting for the fetcher to materialize the version.
    Fetching,
    /// Waiting for the activation record to be persisted.
    Saving,
    /// Finished, with success or failure.
    Done,
}

/// What the outside world reports back to a waiting workflow.
pub enum Event {
    /// The fetcher finished; its error, if any, is opaque here.
    Fetched(Result<(), String>),
    /// The changed activation record was persisted, or could not be.
    Saved(Result<(), String>),
}

/// A successful end of a run.
pub enum Outcome {
    /// The version is materialized; `already` tells whether it was before
    /// the run (no fetch was made).
    Fetched { already: bool },
    /// The version is globally active. `project_version` is what the current
    /// project pins for the same kind, shown for information only.
    Installed { project_version: Option<Version> },
    /// The version is pinned in the current project.
    Pinned,
}

/// A failed end of a run.
pub enum ToolError {
    /// The fetcher could not materialize the version.
    FetchFailed(String),
    /// A pin was asked for outside of any project.
    NotInPackage,
    /// The activation record could not be persisted.
    StorageError(String),
}

/// What the workflow asks the outside world to do next.
pub enum Effect {
    /// Materialize `version` of `kind` in the tool cache, from `source` when
    /// a hook gives one; then report `Event::Fetched`.
    Fetch { kind: ToolKind, version: Version, source: Option<String> },
    /// Persist the session's toolchain; then report `Event::Saved`.
    SaveToolchain,
    /// Persist the session's project pins; then report `Event::Saved`.
    SaveProject,
    /// The run is over, with this result.
    Finish(Result<Outcome, ToolError>),
}

/// One run of `fetch`, `install` or `pin` for one tool instance.
pub struct Workflow {
    pub command: Command,
    pub tool: Tool,
    pub stage: Stage,
    /// Whether the version was found in the cache without fetching.
    pub already_fetched: bool,
}

impl Workflow {
    /// Only `install` and `pin` ever wait for a save.
    pub open spec fn wf(self) -> bool {
        self.stage == Stage::Saving ==> self.command != Command::Fetch
    }

    /// Whether `event` is the one that the workflow waits for.
    pub open spec fn expects(self, event: Event) -> bool {
        match event {
            Event::Fetched(_) => self.stage == Stage::Fetching,
            Event::Saved(_) => self.stage == Stage::Saving,
        }
    }
}

/// The step taken once the version is known to be materialized: `fetch`
/// is done, `install` writes the toolchain, `pin` writes the project's pins.
pub open spec fn activate_spec(w: Workflow, s: SessionView) -> (Workflow, SessionView, Effect) {
    match w.command {
        Command::Fetch => (
            Workflow { stage: Stage::Done, ..w },
            s,
            Effect::Finish(Ok(Outcome::Fetched { already: w.already_fetched })),
        ),
        Command::Install => (
            Workflow { stage: Stage::Saving, ..w },
            SessionView { toolchain: s.toolchain.with(w.tool.kind, Some(w.tool.version)), ..s },
            Effect::SaveToolchain,
        ),
        Command::Pin => match s.project {
            Some(p) => (
                Workflow { stage: Stage::Saving, ..w },
                SessionView { project: Some(p.with(w.tool.kind, Some(w.tool.version))), ..s },
                Effect::SaveProject,
            ),
            None => (
                Workflow { stage: Stage::Done, ..w },
                s,
                Effect::Finish(Err(ToolError::NotInPackage)),
            ),
        },
    }
}

/// The start of a run: a pin outside of any project fails before anything
/// else; a version already in the cache is activated at once; any other is
/// handed to the fetcher, with the hook's source for its kind.
pub open spec fn start_spec(command: Command, tool: Tool, s: SessionView) -> (Workflow, SessionView, Effect) {
    if command == Command::Pin && s.project.is_none() {
        (
            Workflow { command, tool, stage: Stage::Done, already_fetched: false },
            s,
            Effect::Finish(Err(ToolError::NotInPackage)),
        )
    } else if s.available(tool) {
        activate_spec(Workflow { command, tool, stage: Stage::Fetching, already_fetched: true }, s)
    } else {
        (
            Workflow { command, tool, stage: Stage::Fetching, already_fetched: false },
            s,
            Effect::Fetch { kind: tool.kind, version: tool.version, source: s.hooks.source(tool.kind) },
        )
    }
}

/// One step on an event that the workflow waits for: a successful fetch is
/// recorded in the cache and followed by activation; a failure ends the run
/// with the failure as it came; a successful save ends the run.
pub open spec fn advance_spec(w: Workflow, s: SessionView, event: Event) -> (Workflow, SessionView, Effect) {
    match event {
        Event::Fetched(Ok(_)) => activate_spec(
            w,
            SessionView { cache: s.cache.push(basename_of(w.tool.kind, w.tool.version.text())), ..s },
        ),
        Event::Fetched(Err(m)) => (
            Workflow { stage: Stage::Done, ..w },
            s,
            Effect::Finish(Err(ToolError::FetchFailed(m))),
        ),
        Event::Saved(Ok(_)) => (
            Workflow { stage: Stage::Done, ..w },
            s,
            Effect::Finish(Ok(
                if w.command == Command::Install {
                    Outcome::Installed {
                        project_version: match s.project {
                            Some(p) => p.get(w.tool.kind),
                            None => None,
                        },
                    }
                } else {
                    Outcome::Pinned
                },
            )),
        ),
        Event::Saved(Err(m)) => (
            Workflow { stage: Stage::Done, ..w },
            s,
            Effect::Finish(Err(ToolError::StorageError(m))),
        ),
    }
}

impl Workflow {
    /// Activation once the version is materialized.
    fn activate(&mut self, session: &mut Session) -> (r: Effect)
        ensures
            (*final(self), final(session)@, r) == activate_spec(*old(self), old(session)@),
    {
        match self.command {
            Command::Fetch => {
                self.stage = Stage::Done;
                Effect::Finish(Ok(Outcome::Fetched { already: self.already_fetched }))
            },
            Command::Install => {
                session.toolchain.set_active(self.tool.kind, Some(self.tool.version.clone()));
                self.stage = Stage::Saving;
                Effect::SaveToolchain
            },
            Command::Pin => {
                match &mut session.project {
                    Some(p) => {
                        p.set_active(self.tool.kind, Some(self.tool.version.clone()));
                        self.stage = Stage::Saving;
                        Effect::SaveProject
                    },
                    None => {
                        self.stage = Stage::Done;
                        Effect::Finish(Err(ToolError::NotInPackage))
                    },
                }
            },
        }
    }

    /// Starts a run of `command` for `tool`.
    pub fn start(command: Command, tool: Tool, session: &mut Session) -> (r: (Workflow, Effect))
        ensures
            (r.0, final(session)@, r.1) == start_spec(command, tool, old(session)@),
            r.0.wf(),
    {
        if command == Command::Pin && session.project.is_none() {
            return (
                Workflow { command, tool, stage: Stage::Done, already_fetched: false },
                Effect::Finish(Err(ToolError::NotInPackage)),
            );
        }
        if session.is_available(&tool) {
            let mut w = Workflow { command, tool, stage: Stage::Fetching, already_fetched: true };
            let e = w.activate(session);
            (w, e)
        } else {
            let kind = tool.kind;
            let version = tool.version.clone();
            let source = session.hooks.source_for(kind);
            (
                Workflow { command, tool, stage: Stage::Fetching, already_fetched: false },
                Effect::Fetch { kind, version, source },
            )
        }
    }

    /// Takes the event that the run waits for and returns what to do next.
    pub fn advance(&mut self, session: &mut Session, event: Event) -> (r: Effect)
        requires
            old(self).wf(),
            old(self).expects(event),
        ensures
            (*final(self), final(session)@, r) == advance_spec(*old(self), old(session)@, event),
            final(self).wf(),
    {
        match event {
            Event::Fetched(Ok(_)) => {
                let name = self.tool.kind.archive_basename(self.tool.version.to_string().as_str());
                session.inventory.record(name);
                self.activate(session)
            },
            Event::Fetched(Err(m)) => {
                self.stage = Stage::Done;
                Effect::Finish(Err(ToolError::FetchFailed(m)))
            },
            Event::Saved(Ok(_)) => {
                self.stage = Stage::Done;
                if self.command == Command::Install {
                    let project_version = match &session.project {
                        Some(p) => p.active(self.tool.kind),
                        None => None,
                    };
                    Effect::Finish(Ok(Outcome::Installed { project_version }))
                } else {
                    Effect::Finish(Ok(Outcome::Pinned))
                }
            },
            Event::Saved(Err(m)) => {
                self.stage = Stage::Done;
                Effect::Finish(Err(ToolError::StorageError(m)))
            },
        }
    }
}

impl Yarn {
    /// Starts `fetch` for this Yarn version.
    pub fn fetch(self, session: &mut Session) -> (r: (Workflow, Effect))
        ensures
            (r.0, final(session)@, r.1) == start_spec(
                Command::Fetch,
                Tool { kind: ToolKind::Yarn, version: self.version },
                old(session)@,
            ),
            r.0.wf(),
    {
        Workflow::start(Command::Fetch, self.into_tool(), session)
    }

    /// Starts `install` for this Yarn version.
    pub fn install(self, session: &mut Session) -> (r: (Workflow, Effect))
        ensures
            (r.0, final(session)@, r.1) == start_spec(
                Command::Install,
                Tool { kind: ToolKind::Yarn, version: self.version },
                old(session)@,
            ),
            r.0.wf(),
    {
        Workflow::start(Command::Install, self.into_tool(), session)
    }

    /// Starts `pin` for this Yarn version.
    pub fn pin(self, session: &mut Session) -> (r: (Workflow, Effect))
        ensures
            (r.0, final(session)@, r.1) == start_spec(
                Command::Pin,
                Tool { kind: ToolKind::Yarn, version: self.version },
                old(session)@,
            ),
            r.0.wf(),
    {
        Workflow::start(Command::Pin, self.into_tool(), session)
    }
}

} // verus!
