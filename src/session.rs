use vstd::prelude::*;

use crate::tool::{basename_of, Tool, ToolKind};
use crate::version::Version;

verus! {

/// A copy of an optional version that is equal to it.
pub fn clone_version_opt(v: &Option<Version>) -> (r: Option<Version>)
    ensures
        r == *v,
{
    match v {
        Some(x) => Some(x.clone()),
        None => None,
    }
}

/// For each tool kind, at most one version. It records the globally active
/// versions (the toolchain) and, separately, a project's pinned versions.
pub struct Platform {
    pub node: Option<Version>,
    pub npm: Option<Version>,
    pub yarn: Option<Version>,
}

impl Platform {
    /// The version recorded for `kind`.
    pub open spec fn get(self, kind: ToolKind) -> Option<Version> {
        match kind {
            ToolKind::Node => self.node,
            ToolKind::Npm => self.npm,
            ToolKind::Yarn => self.yarn,
        }
    }

    /// This record with the version of `kind` replaced by `v`; the other
    /// kinds are left as they are.
    pub open spec fn with(self, kind: ToolKind, v: Option<Version>) -> Platform {
        match kind {
            ToolKind::Node => Platform { node: v, ..self },
            ToolKind::Npm => Platform { npm: v, ..self },
            ToolKind::Yarn => Platform { yarn: v, ..self },
        }
    }

    /// A record with no version for any kind.
    pub fn empty() -> (r: Platform)
        ensures
            forall|k: ToolKind| (#[trigger] r.get(k)).is_none(),
    {
        Platform { node: None, npm: None, yarn: None }
    }

    /// The version recorded for `kind`.
    pub fn active(&self, kind: ToolKind) -> (r: Option<Version>)
        ensures
            r == self.get(kind),
    {
        match kind {
            ToolKind::Node => clone_version_opt(&self.node),
            ToolKind::Npm => clone_version_opt(&self.npm),
            ToolKind::Yarn => clone_version_opt(&self.yarn),
        }
    }

    /// Records `v` for `kind`, overwriting what was there, without reading
    /// or touching the other kinds.
    pub fn set_active(&mut self, kind: ToolKind, v: Option<Version>)
        ensures
            *final(self) == old(self).with(kind, v),
    {
        match kind {
            ToolKind::Node => self.node = v,
            ToolKind::Npm => self.npm = v,
            ToolKind::Yarn => self.yarn = v,
        }
    }
}

/// Per-kind override of the source that the fetcher downloads from (a
/// mirror, for instance); `None` means the fetcher's default source.
pub struct Hooks {
    pub node: Option<String>,
    pub npm: Option<String>,
    pub yarn: Option<String>,
}

impl Hooks {
    pub open spec fn source(self, kind: ToolKind) -> Option<String> {
        match kind {
            ToolKind::Node => self.node,
            ToolKind::Npm => self.npm,
            ToolKind::Yarn => self.yarn,
        }
    }

    /// No override for any kind.
    pub fn none() -> (r: Hooks)
        ensures
            forall|k: ToolKind| (#[trigger] r.source(k)).is_none(),
    {
        Hooks { node: None, npm: None, yarn: None }
    }

    /// The fetch source configured for `kind`, if any.
    pub fn source_for(&self, kind: ToolKind) -> (r: Option<String>)
        ensures
            r == self.source(kind),
    {
        let s = match kind {
            ToolKind::Node => &self.node,
            ToolKind::Npm => &self.npm,
            ToolKind::Yarn => &self.yarn,
        };
        match s {
            Some(x) => Some(x.clone()),
            None => None,
        }
    }
}

/// What the local tool cache holds: the archive base names
/// (`<kind>-v<version>`) of the versions that are materialized on disk.
pub struct Inventory {
    pub entries: Vec<String>,
}

/// Whether the list of cache entries holds `name`.
pub open spec fn holds(entries: Seq<Seq<char>>, name: Seq<char>) -> bool {
    exists|i: int| 0 <= i < entries.len() && entries[i] == name
}

impl View for Inventory {
    type V = Seq<Seq<char>>;

    open spec fn view(&self) -> Seq<Seq<char>> {
        self.entries@.map_values(|s: String| s@)
    }
}

impl Inventory {
    /// An empty cache.
    pub fn new() -> (r: Inventory)
        ensures
            r@.len() == 0,
    {
        Inventory { entries: Vec::new() }
    }

    /// Whether an entry of the cache is named `name`.
    pub fn contains(&self, name: &String) -> (r: bool)
        ensures
            r == holds(self@, name@),
    {
        let mut i: usize = 0;
        while i < self.entries.len()
            invariant
                0 <= i <= self.entries@.len(),
                self@.len() == self.entries@.len(),
                forall|j: int| 0 <= j < i ==> self@[j] != name@,
            decreases self.entries@.len() - i,
        {
            if self.entries[i] == *name {
                assert(self@[i as int] == name@);
                return true;
            }
            i = i + 1;
        }
        false
    }

    /// Whether `version` of `kind` is materialized in the cache. Absence is a
    /// plain `false`, never an error.
    pub fn is_available(&self, kind: ToolKind, version: &Version) -> (r: bool)
        ensures
            r == holds(self@, basename_of(kind, version.text())),
    {
        let name = kind.archive_basename(version.to_string().as_str());
        self.contains(&name)
    }

    /// Records that the archive `name` is now materialized in the cache.
    pub fn record(&mut self, name: String)
        ensures
            final(self)@ == old(self)@.push(name@),
    {
        self.entries.push(name);
        assert(final(self)@ =~= old(self)@.push(name@));
    }
}

/// The mathematical state of a session: the global toolchain, the optional
/// project's pins, the fetch hooks and the names held by the tool cache.
pub struct SessionView {
    pub toolchain: Platform,
    pub project: Option<Platform>,
    pub hooks: Hooks,
    pub cache: Seq<Seq<char>>,
}

impl SessionView {
    /// Whether the tool's version is materialized in the cache.
    pub open spec fn available(self, tool: Tool) -> bool {
        holds(self.cache, basename_of(tool.kind, tool.version.text()))
    }
}

/// The state that the workflow reads and writes during one process: the
/// toolchain's active versions, the project context when the working
/// directory is inside a project, the fetch hooks and the tool cache.
pub struct Session {
    pub toolchain: Platform,
    pub project: Option<Platform>,
    pub hooks: Hooks,
    pub inventory: Inventory,
}

impl View for Session {
    type V = SessionView;

    open spec fn view(&self) -> SessionView {
        SessionView {
            toolchain: self.toolchain,
            project: self.project,
            hooks: self.hooks,
            cache: self.inventory@,
        }
    }
}

impl Session {
    pub fn new(toolchain: Platform, project: Option<Platform>, hooks: Hooks, inventory: Inventory) -> (r: Session)
        ensures
            r.toolchain == toolchain,
            r.project == project,
            r.hooks == hooks,
            r.inventory == inventory,
    {
        Session { toolchain, project, hooks, inventory }
    }

    /// Whether the tool's version is materialized in the cache.
    pub fn is_available(&self, tool: &Tool) -> (r: bool)
        ensures
            r == self@.available(*tool),
    {
        self.inventory.is_available(tool.kind, &tool.version)
    }
}

} // verus!
