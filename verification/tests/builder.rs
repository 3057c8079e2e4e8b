use gith::arguments::{Arguments, GitCommand, GitCommitKind, GitCommitKindFlags};
use gith::git::{
    build_arguments, current_branch_from_output, get_add_arguments, get_commit_arguments,
    get_commit_kind, get_kind_details, get_push_arguments, needs_current_branch, BuildError,
};

fn no_flags() -> GitCommitKindFlags {
    GitCommitKindFlags {
        clean: false,
        deploy: false,
        documentation: false,
        feature: false,
        fix: false,
        init: false,
        library: false,
        patch: false,
        performance: false,
        revert: false,
        rework: false,
        style: false,
        test: false,
    }
}

fn flags_of(kind: GitCommitKind) -> GitCommitKindFlags {
    let mut f = no_flags();
    match kind {
        GitCommitKind::Clean => f.clean = true,
        GitCommitKind::Deploy => f.deploy = true,
        GitCommitKind::Documentation => f.documentation = true,
        GitCommitKind::Feature => f.feature = true,
        GitCommitKind::Fix => f.fix = true,
        GitCommitKind::Init => f.init = true,
        GitCommitKind::Library => f.library = true,
        GitCommitKind::Patch => f.patch = true,
        GitCommitKind::Performance => f.performance = true,
        GitCommitKind::Revert => f.revert = true,
        GitCommitKind::Rework => f.rework = true,
        GitCommitKind::Style => f.style = true,
        GitCommitKind::Test => f.test = true,
    }
    f
}

const ALL_KINDS: [(GitCommitKind, &str, &str); 13] = [
    (GitCommitKind::Clean, "clean", "🧽"),
    (GitCommitKind::Deploy, "deploy", "🚀"),
    (GitCommitKind::Documentation, "documentation", "📃"),
    (GitCommitKind::Feature, "feature", "🌱"),
    (GitCommitKind::Fix, "fix", "🔧"),
    (GitCommitKind::Init, "init", "🎀"),
    (GitCommitKind::Library, "library", "📚"),
    (GitCommitKind::Patch, "patch", "🐜"),
    (GitCommitKind::Performance, "performance", "🌡"),
    (GitCommitKind::Revert, "revert", "♻️"),
    (GitCommitKind::Rework, "rework", "🔸"),
    (GitCommitKind::Style, "style", "🧁"),
    (GitCommitKind::Test, "test", "🧪"),
];

#[test]
fn registry_has_every_category() {
    for (kind, name, glyph) in ALL_KINDS {
        let (n, g) = get_kind_details(kind);
        assert_eq!(n, name);
        assert_eq!(g, glyph);
    }
}

#[test]
fn commit_output_for_every_category() {
    for (kind, name, glyph) in ALL_KINDS {
        let message = String::from("a change");
        let args = get_commit_arguments(&message, &flags_of(kind)).unwrap();
        let expected_message = format!("{} {}: {}", glyph, name, "a change");
        assert_eq!(args, vec!["commit".to_string(), "-m".to_string(), expected_message]);
    }
}

#[test]
fn commit_feature_example() {
    let args = get_commit_arguments(
        &String::from("add login"),
        &flags_of(GitCommitKind::Feature),
    )
    .unwrap();
    assert_eq!(
        args,
        vec![
            "commit".to_string(),
            "-m".to_string(),
            "🌱 feature: add login".to_string()
        ]
    );
}

#[test]
fn commit_without_category_is_rejected() {
    let r = get_commit_arguments(&String::from("a change"), &no_flags());
    assert_eq!(r, Err(BuildError::UnsupportedCommand));
}

#[test]
fn commit_kind_lookup() {
    assert_eq!(
        get_commit_kind(&flags_of(GitCommitKind::Fix)),
        Some(("fix".to_string(), "🔧".to_string()))
    );
    assert_eq!(get_commit_kind(&no_flags()), None);
}

#[test]
fn add_with_no_paths_defaults_to_dot() {
    let args = get_add_arguments(&Vec::new());
    assert_eq!(args, vec!["add".to_string(), ".".to_string()]);
}

#[test]
fn add_with_paths_keeps_them_in_order() {
    let args = get_add_arguments(&vec!["x".to_string(), "y".to_string()]);
    assert_eq!(args, vec!["add".to_string(), "x".to_string(), "y".to_string()]);
}

#[test]
fn push_with_refs_keeps_them_in_order() {
    let args = get_push_arguments(&vec!["origin".to_string(), "main".to_string()], &None).unwrap();
    assert_eq!(
        args,
        vec!["push".to_string(), "origin".to_string(), "main".to_string()]
    );
}

#[test]
fn push_without_refs_uses_trimmed_branch() {
    let args = get_push_arguments(&Vec::new(), &Some("main\n".to_string())).unwrap();
    assert_eq!(args, vec!["push".to_string(), "main".to_string()]);
}

#[test]
fn push_without_refs_and_without_branch_fails() {
    let r = get_push_arguments(&Vec::new(), &None);
    assert_eq!(r, Err(BuildError::BranchUnavailable));
}

#[test]
fn branch_output_trimming() {
    assert_eq!(current_branch_from_output(&"main\n".to_string()), "main");
    assert_eq!(current_branch_from_output(&"main".to_string()), "main");
    assert_eq!(
        current_branch_from_output(&"feature/x \t\r\n".to_string()),
        "feature/x"
    );
    assert_eq!(current_branch_from_output(&"".to_string()), "");
    assert_eq!(current_branch_from_output(&"\n\n".to_string()), "");
    assert_eq!(current_branch_from_output(&" a b ".to_string()), " a b");
}

#[test]
fn branch_query_is_needed_only_for_bare_push() {
    assert!(needs_current_branch(&GitCommand::Push { content: Vec::new() }));
    assert!(!needs_current_branch(&GitCommand::Push {
        content: vec!["origin".to_string()]
    }));
    assert!(!needs_current_branch(&GitCommand::Add { content: Vec::new() }));
    assert!(!needs_current_branch(&GitCommand::Commit {
        message: "m".to_string(),
        kind: no_flags(),
    }));
}

#[test]
fn build_arguments_dispatches_commit() {
    let arguments = Arguments {
        command: GitCommand::Commit {
            message: "tidy up".to_string(),
            kind: flags_of(GitCommitKind::Clean),
        },
    };
    let args = build_arguments(&arguments.command, &None).unwrap();
    assert_eq!(
        args,
        vec![
            "commit".to_string(),
            "-m".to_string(),
            "🧽 clean: tidy up".to_string()
        ]
    );
}

#[test]
fn build_arguments_dispatches_add() {
    let arguments = Arguments {
        command: GitCommand::Add { content: Vec::new() },
    };
    let args = build_arguments(&arguments.command, &None).unwrap();
    assert_eq!(args, vec!["add".to_string(), ".".to_string()]);
}

#[test]
fn build_arguments_dispatches_push() {
    let arguments = Arguments {
        command: GitCommand::Push { content: Vec::new() },
    };
    let args = build_arguments(&arguments.command, &Some("develop\n".to_string())).unwrap();
    assert_eq!(args, vec!["push".to_string(), "develop".to_string()]);
}

#[test]
fn error_messages_are_descriptive() {
    assert_eq!(BuildError::UnsupportedCommand.message(), "Unsupported command");
    assert_eq!(
        BuildError::BranchUnavailable.message(),
        "could not determine the current branch"
    );
}
