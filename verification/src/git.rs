//! The category registry and the argument builder: pure functions from a
//! parsed command to the literal argument vector for the external tool.

use vstd::prelude::*;
use vstd::string::{StringExecFns, StrSliceExecFns};
use crate::arguments::{GitCommitKind, GitCommitKindFlags, GitCommand, selected_kind};

verus! {

/// Why no argument vector could be built.
#[derive(Clone, Copy, Debug, PartialEq, Eq, Structural)]
pub enum BuildError {
    /// The command carries no usable category selection.
    UnsupportedCommand,
    /// A push with no explicit refs needs the current branch, and no
    /// branch-query output was available.
    BranchUnavailable,
}

/// The views of a sequence of strings.
pub open spec fn strings_view(v: Seq<String>) -> Seq<Seq<char>> {
    v.map_values(|s: String| s@)
}

/// The view of an optional string.
pub open spec fn option_view(o: Option<String>) -> Option<Seq<char>> {
    match o {
        Some(s) => Some(s@),
        None => None,
    }
}

/// A built argument vector, by its views.
pub open spec fn args_result_view(r: Result<Vec<String>, BuildError>) -> Result<
    Seq<Seq<char>>,
    BuildError,
> {
    match r {
        Ok(v) => Ok(strings_view(v@)),
        Err(e) => Err(e),
    }
}

/// The name of a category, as it appears in a decorated commit message.
pub open spec fn kind_name(kind: GitCommitKind) -> Seq<char> {
    match kind {
        GitCommitKind::Clean => "clean"@,
        GitCommitKind::Deploy => "deploy"@,
        GitCommitKind::Documentation => "documentation"@,
        GitCommitKind::Feature => "feature"@,
        GitCommitKind::Fix => "fix"@,
        GitCommitKind::Init => "init"@,
        GitCommitKind::Library => "library"@,
        GitCommitKind::Patch => "patch"@,
        GitCommitKind::Performance => "performance"@,
        GitCommitKind::Revert => "revert"@,
        GitCommitKind::Rework => "rework"@,
        GitCommitKind::Style => "style"@,
        GitCommitKind::Test => "test"@,
    }
}

/// The decorative glyph of a category, prepended to commit messages.
pub open spec fn kind_glyph(kind: GitCommitKind) -> Seq<char> {
    match kind {
        GitCommitKind::Clean => "🧽"@,
        GitCommitKind::Deploy => "🚀"@,
        GitCommitKind::Documentation => "📃"@,
        GitCommitKind::Feature => "🌱"@,
        GitCommitKind::Fix => "🔧"@,
        GitCommitKind::Init => "🎀"@,
        GitCommitKind::Library => "📚"@,
        GitCommitKind::Patch => "🐜"@,
        GitCommitKind::Performance => "🌡"@,
        GitCommitKind::Revert => "♻️"@,
        GitCommitKind::Rework => "🔸"@,
        GitCommitKind::Style => "🧁"@,
        GitCommitKind::Test => "🧪"@,
    }
}

/// The category registry: every category has a name and a glyph, with no
/// possibility of a missing entry.
pub fn get_kind_details(kind: GitCommitKind) -> (r: (String, String))
    ensures
        r.0@ == kind_name(kind),
        r.1@ == kind_glyph(kind),
{
    match kind {
        GitCommitKind::Clean => ("clean".to_owned(), "🧽".to_owned()),
        GitCommitKind::Deploy => ("deploy".to_owned(), "🚀".to_owned()),
        GitCommitKind::Documentation => ("documentation".to_owned(), "📃".to_owned()),
        GitCommitKind::Feature => ("feature".to_owned(), "🌱".to_owned()),
        GitCommitKind::Fix => ("fix".to_owned(), "🔧".to_owned()),
        GitCommitKind::Init => ("init".to_owned(), "🎀".to_owned()),
        GitCommitKind::Library => ("library".to_owned(), "📚".to_owned()),
        GitCommitKind::Patch => ("patch".to_owned(), "🐜".to_owned()),
        GitCommitKind::Performance => ("performance".to_owned(), "🌡".to_owned()),
        GitCommitKind::Revert => ("revert".to_owned(), "♻️".to_owned()),
        GitCommitKind::Rework => ("rework".to_owned(), "🔸".to_owned()),
        GitCommitKind::Style => ("style".to_owned(), "🧁".to_owned()),
        GitCommitKind::Test => ("test".to_owned(), "🧪".to_owned()),
    }
}

/// The category a set of flags selects, as name and glyph: the registry entry
/// of `selected_kind`, or nothing when no flag is set.
pub fn get_commit_kind(kind: &GitCommitKindFlags) -> (r: Option<(String, String)>)
    ensures
        match selected_kind(*kind) {
            Some(k) => r matches Some(p) && p.0@ == kind_name(k) && p.1@ == kind_glyph(k),
            None => r is None,
        },
{
    if kind.clean {
        Some(get_kind_details(GitCommitKind::Clean))
    } else if kind.deploy {
        Some(get_kind_details(GitCommitKind::Deploy))
    } else if kind.documentation {
        Some(get_kind_details(GitCommitKind::Documentation))
    } else if kind.feature {
        Some(get_kind_details(GitCommitKind::Feature))
    } else if kind.fix {
        Some(get_kind_details(GitCommitKind::Fix))
    } else if kind.init {
        Some(get_kind_details(GitCommitKind::Init))
    } else if kind.library {
        Some(get_kind_details(GitCommitKind::Library))
    } else if kind.patch {
        Some(get_kind_details(GitCommitKind::Patch))
    } else if kind.performance {
        Some(get_kind_details(GitCommitKind::Performance))
    } else if kind.revert {
        Some(get_kind_details(GitCommitKind::Revert))
    } else if kind.rework {
        Some(get_kind_details(GitCommitKind::Rework))
    } else if kind.style {
        Some(get_kind_details(GitCommitKind::Style))
    } else if kind.test {
        Some(get_kind_details(GitCommitKind::Test))
    } else {
        None
    }
}

/// A decorated commit message: the category's glyph, a space, the category's
/// name, the literal separator `: `, then the message itself.
pub open spec fn commit_message(kind: GitCommitKind, message: Seq<char>) -> Seq<char> {
    kind_glyph(kind) + " "@ + kind_name(kind) + ": "@ + message
}

/// What building a commit command yields: exactly
/// `["commit", "-m", "<glyph> <name>: <message>"]` when a category is
/// selected, and the unsupported-command error when none is.
pub open spec fn commit_args_spec(message: Seq<char>, kind: GitCommitKindFlags) -> Result<
    Seq<Seq<char>>,
    BuildError,
> {
    match selected_kind(kind) {
        Some(k) => Ok(seq!["commit"@, "-m"@, commit_message(k, message)]),
        None => Err(BuildError::UnsupportedCommand),
    }
}

/// Builds the argument vector for a commit.
pub fn get_commit_arguments(message: &String, kind: &GitCommitKindFlags) -> (r: Result<
    Vec<String>,
    BuildError,
>)
    ensures
        args_result_view(r) == commit_args_spec(message@, *kind),
{
    match get_commit_kind(kind) {
        Some((kind_str, emoji)) => {
            let mut text = emoji;
            text.append(" ");
            text.append(kind_str.as_str());
            text.append(": ");
            text.append(message.as_str());
            let mut args: Vec<String> = Vec::new();
            args.push("commit".to_owned());
            args.push("-m".to_owned());
            args.push(text);
            proof {
                let k = selected_kind(*kind)->Some_0;
                assert(strings_view(args@) =~~= (seq![
                    "commit"@,
                    "-m"@,
                    commit_message(k, message@),
                ]));
            }
            Ok(args)
        },
        None => Err(BuildError::UnsupportedCommand),
    }
}

/// What building an add command yields: `["add", ...paths]`, or `["add", "."]`
/// when no path is given.
pub open spec fn add_args_spec(content: Seq<Seq<char>>) -> Seq<Seq<char>> {
    if content.len() == 0 {
        seq!["add"@, "."@]
    } else {
        seq!["add"@] + content
    }
}

/// Builds the argument vector for an add.
pub fn get_add_arguments(content: &Vec<String>) -> (args: Vec<String>)
    ensures
        strings_view(args@) == add_args_spec(strings_view(content@)),
{
    let mut args: Vec<String> = Vec::new();
    args.push("add".to_owned());
    if content.len() == 0 {
        args.push(".".to_owned());
        proof {
            assert(strings_view(args@) =~~= add_args_spec(strings_view(content@)));
        }
    } else {
        let mut i: usize = 0;
        while i < content.len()
            invariant
                i <= content@.len(),
                args@.len() == i + 1,
                args@[0]@ == "add"@,
                forall|j: int| 0 <= j < i ==> args@[j + 1]@ == content@[j]@,
            decreases content@.len() - i,
        {
            args.push(content[i].clone());
            i += 1;
        }
        proof {
            assert(strings_view(args@) =~~= add_args_spec(strings_view(content@)));
        }
    }
    args
}

/// A character the branch query's output may end in without it belonging to
/// the branch name.
pub open spec fn is_branch_whitespace(c: char) -> bool {
    c == ' ' || c == '\t' || c == '\n' || c == '\r'
}

/// `s` with its longest whitespace suffix removed.
pub open spec fn trimmed_end(s: Seq<char>) -> Seq<char>
    decreases s.len(),
{
    if s.len() > 0 && is_branch_whitespace(s.last()) {
        trimmed_end(s.drop_last())
    } else {
        s
    }
}

fn is_whitespace_char(c: char) -> (r: bool)
    ensures
        r == is_branch_whitespace(c),
{
    c == ' ' || c == '\t' || c == '\n' || c == '\r'
}

/// The current branch name as the branch query's standard output gives it,
/// with trailing whitespace (in particular the final newline) removed.
pub fn current_branch_from_output(output: &String) -> (r: String)
    ensures
        r@ == trimmed_end(output@),
{
    let s = output.as_str();
    let mut end: usize = s.unicode_len();
    proof {
        assert(s@.subrange(0, end as int) =~= s@);
    }
    while end > 0 && is_whitespace_char(s.get_char(end - 1))
        invariant
            end <= s@.len(),
            trimmed_end(s@) == trimmed_end(s@.subrange(0, end as int)),
        decreases end,
    {
        proof {
            assert(s@.subrange(0, end as int).drop_last() =~= s@.subrange(0, end - 1));
        }
        end = end - 1;
    }
    proof {
        assert(trimmed_end(s@.subrange(0, end as int)) == s@.subrange(0, end as int));
    }
    s.substring_char(0, end).to_owned()
}

/// What building a push command yields: `["push", ...refs]` when refs are
/// given; with no refs, `["push", <branch>]` where the branch name is the
/// query's output trimmed, or the branch-unavailable error when the query's
/// output is missing.
pub open spec fn push_args_spec(
    content: Seq<Seq<char>>,
    branch_output: Option<Seq<char>>,
) -> Result<Seq<Seq<char>>, BuildError> {
    if content.len() > 0 {
        Ok(seq!["push"@] + content)
    } else {
        match branch_output {
            Some(out) => Ok(seq!["push"@, trimmed_end(out)]),
            None => Err(BuildError::BranchUnavailable),
        }
    }
}

/// Builds the argument vector for a push. `branch_output` is the raw standard
/// output of the current-branch query, which is consulted only when `content`
/// is empty.
pub fn get_push_arguments(content: &Vec<String>, branch_output: &Option<String>) -> (r: Result<
    Vec<String>,
    BuildError,
>)
    ensures
        args_result_view(r) == push_args_spec(strings_view(content@), option_view(*branch_output)),
{
    let mut args: Vec<String> = Vec::new();
    args.push("push".to_owned());
    if content.len() > 0 {
        let mut i: usize = 0;
        while i < content.len()
            invariant
                i <= content@.len(),
                args@.len() == i + 1,
                args@[0]@ == "push"@,
                forall|j: int| 0 <= j < i ==> args@[j + 1]@ == content@[j]@,
            decreases content@.len() - i,
        {
            args.push(content[i].clone());
            i += 1;
        }
        proof {
            assert(strings_view(args@) =~~= (seq!["push"@] + strings_view(content@)));
        }
        Ok(args)
    } else {
        match branch_output {
            Some(out) => {
                args.push(current_branch_from_output(out));
                proof {
                    assert(strings_view(args@) =~~= (seq!["push"@, trimmed_end(out@)]));
                }
                Ok(args)
            },
            None => Err(BuildError::BranchUnavailable),
        }
    }
}

/// Whether a command needs the current-branch query before its argument
/// vector can be built: only a push with no explicit refs does.
pub open spec fn needs_branch_query(command: GitCommand) -> bool {
    command matches GitCommand::Push { content } && content@.len() == 0
}

/// Tells the caller whether to run the current-branch query first.
pub fn needs_current_branch(command: &GitCommand) -> (r: bool)
    ensures
        r == needs_branch_query(*command),
{
    match command {
        GitCommand::Push { content } => content.len() == 0,
        _ => false,
    }
}

/// What building any command yields.
pub open spec fn build_arguments_spec(
    command: GitCommand,
    branch_output: Option<Seq<char>>,
) -> Result<Seq<Seq<char>>, BuildError> {
    match command {
        GitCommand::Commit { message, kind } => commit_args_spec(message@, kind),
        GitCommand::Add { content } => Ok(add_args_spec(strings_view(content@))),
        GitCommand::Push { content } => push_args_spec(strings_view(content@), branch_output),
    }
}

/// The argument builder: turns a parsed command into the literal argument
/// vector for the external tool. `branch_output` is the raw standard output
/// of the current-branch query, consulted only for a push with no refs.
pub fn build_arguments(command: &GitCommand, branch_output: &Option<String>) -> (r: Result<
    Vec<String>,
    BuildError,
>)
    ensures
        args_result_view(r) == build_arguments_spec(*command, option_view(*branch_output)),
{
    match command {
        GitCommand::Commit { message, kind } => get_commit_arguments(message, kind),
        GitCommand::Add { content } => Ok(get_add_arguments(content)),
        GitCommand::Push { content } => get_push_arguments(content, branch_output),
    }
}

/// What an error reads as when surfaced to the user.
pub open spec fn error_message(e: BuildError) -> Seq<char> {
    match e {
        BuildError::UnsupportedCommand => "Unsupported command"@,
        BuildError::BranchUnavailable => "could not determine the current branch"@,
    }
}

impl BuildError {
    /// The descriptive text surfaced to the user for this error.
    pub fn message(&self) -> (r: String)
        ensures
            r@ == error_message(*self),
    {
        match self {
            BuildError::UnsupportedCommand => "Unsupported command".to_owned(),
            BuildError::BranchUnavailable => "could not determine the current branch".to_owned(),
        }
    }
}

} // verus!
