use vstd::prelude::*;
use vstd::string::StringExecFns;

use crate::version::Version;

verus! {

/// The kinds of installable tools that share the fetch / install / pin workflow.
#[derive(PartialEq, Eq, Structural, Clone, Copy, Debug)]
pub enum ToolKind {
    Node,
    Npm,
    Yarn,
}

/// The name of a tool kind, as it appears in archive names and messages.
pub open spec fn kind_name(kind: ToolKind) -> Seq<char> {
    match kind {
        ToolKind::Node => "node"@,
        ToolKind::Npm => "npm"@,
        ToolKind::Yarn => "yarn"@,
    }
}

/// The archive base name of a version of a tool: `<kind>-v<version>`.
pub open spec fn basename_of(kind: ToolKind, version: Seq<char>) -> Seq<char> {
    kind_name(kind) + "-v"@ + version
}

/// The archive file name of a version of a tool: `<kind>-v<version>.tar.gz`.
pub open spec fn filename_of(kind: ToolKind, version: Seq<char>) -> Seq<char> {
    basename_of(kind, version) + ".tar.gz"@
}

impl ToolKind {
    pub fn name(&self) -> (r: &'static str)
        ensures
            r@ == kind_name(*self),
    {
        match self {
            ToolKind::Node => "node",
            ToolKind::Npm => "npm",
            ToolKind::Yarn => "yarn",
        }
    }

    /// The archive base name of `version` for this kind.
    pub fn archive_basename(&self, version: &str) -> (r: String)
        ensures
            r@ == basename_of(*self, version@),
    {
        let mut s = String::from_str(self.name());
        s.append("-v");
        s.append(version);
        s
    }

    /// The archive file name of `version` for this kind.
    pub fn archive_filename(&self, version: &str) -> (r: String)
        ensures
            r@ == filename_of(*self, version@),
    {
        let mut s = self.archive_basename(version);
        s.append(".tar.gz");
        s
    }
}

/// One concrete, resolved version of a tool kind: the unit of work of the
/// fetch / install / pin workflow.
pub struct Tool {
    pub kind: ToolKind,
    pub version: Version,
}

impl Tool {
    /// How the tool is shown to users: `<kind> v<version>`.
    pub open spec fn display_text(self) -> Seq<char> {
        kind_name(self.kind) + " v"@ + self.version.text()
    }

    pub fn to_string(&self) -> (r: String)
        ensures
            r@ == self.display_text(),
    {
        let mut s = String::from_str(self.kind.name());
        s.append(" v");
        s.append(self.version.to_string().as_str());
        s
    }
}

/// The Yarn package manager at one concrete version.
pub struct Yarn {
    pub version: Version,
}

impl Yarn {
    pub fn new(version: Version) -> (r: Yarn)
        ensures
            r.version == version,
    {
        Yarn { version }
    }

    /// The archive base name of a Yarn version: `yarn-v<version>`.
    pub fn archive_basename(version: &str) -> (r: String)
        ensures
            r@ == basename_of(ToolKind::Yarn, version@),
            r@ == "yarn"@ + "-v"@ + version@,
    {
        ToolKind::Yarn.archive_basename(version)
    }

    /// The archive file name of a Yarn version: `yarn-v<version>.tar.gz`.
    pub fn archive_filename(version: &str) -> (r: String)
        ensures
            r@ == filename_of(ToolKind::Yarn, version@),
            r@ == "yarn"@ + "-v"@ + version@ + ".tar.gz"@,
    {
        ToolKind::Yarn.archive_filename(version)
    }

    /// This Yarn version as a tool instance of the generic workflow.
    pub fn into_tool(self) -> (r: Tool)
        ensures
            r.kind == ToolKind::Yarn,
            r.version == self.version,
    {
        Tool { kind: ToolKind::Yarn, version: self.version }
    }

    /// How this Yarn version is shown to users: `yarn v<version>`.
    pub fn to_string(&self) -> (r: String)
        ensures
            r@ == "yarn"@ + " v"@ + self.version.text(),
    {
        let mut s = String::from_str("yarn");
        s.append(" v");
        s.append(self.version.to_string().as_str());
        s
    }
}

} // verus!
