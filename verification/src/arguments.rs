//! The command model: the closed set of subcommands the tool understands and
//! the fixed vocabulary of commit categories.

use vstd::prelude::*;

verus! {

/// One of the thirteen commit categories. Every category has a name and a
/// decorative glyph; see `crate::git::kind_name` and `crate::git::kind_glyph`.
#[derive(Clone, Copy, Debug, PartialEq, Eq, Structural)]
pub enum GitCommitKind {
    Clean,
    Deploy,
    Documentation,
    Feature,
    Fix,
    Init,
    Library,
    Patch,
    Performance,
    Revert,
    Rework,
    Style,
    Test,
}

/// The commit category given as thirteen flags. The command-line front end
/// guarantees that exactly one flag is set; the builder nevertheless gives a
/// defined answer for every value (see `selected_kind`).
#[derive(Clone, Copy, Debug)]
pub struct GitCommitKindFlags {
    pub clean: bool,
    pub deploy: bool,
    pub documentation: bool,
    pub feature: bool,
    pub fix: bool,
    pub init: bool,
    pub library: bool,
    pub patch: bool,
    pub performance: bool,
    pub revert: bool,
    pub rework: bool,
    pub style: bool,
    pub test: bool,
}

/// A parsed subcommand together with its parameters, constructed once from
/// user input and consumed once by the argument builder.
#[derive(Debug)]
pub enum GitCommand {
    Commit { message: String, kind: GitCommitKindFlags },
    Add { content: Vec<String> },
    Push { content: Vec<String> },
}

/// The whole parsed command line.
#[derive(Debug)]
pub struct Arguments {
    pub command: GitCommand,
}

/// The category a set of flags selects: the first set flag, in the fixed
/// order of the vocabulary. When exactly one flag is set — the invariant the
/// front end enforces — this is that flag's category; when none is set there
/// is no selection.
pub open spec fn selected_kind(flags: GitCommitKindFlags) -> Option<GitCommitKind> {
    if flags.clean {
        Some(GitCommitKind::Clean)
    } else if flags.deploy {
        Some(GitCommitKind::Deploy)
    } else if flags.documentation {
        Some(GitCommitKind::Documentation)
    } else if flags.feature {
        Some(GitCommitKind::Feature)
    } else if flags.fix {
        Some(GitCommitKind::Fix)
    } else if flags.init {
        Some(GitCommitKind::Init)
    } else if flags.library {
        Some(GitCommitKind::Library)
    } else if flags.patch {
        Some(GitCommitKind::Patch)
    } else if flags.performance {
        Some(GitCommitKind::Performance)
    } else if flags.revert {
        Some(GitCommitKind::Revert)
    } else if flags.rework {
        Some(GitCommitKind::Rework)
    } else if flags.style {
        Some(GitCommitKind::Style)
    } else if flags.test {
        Some(GitCommitKind::Test)
    } else {
        None
    }
}

} // verus!
