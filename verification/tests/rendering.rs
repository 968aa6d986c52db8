use committer::config::{default_model, Config, DEFAULT_MODEL};
use committer::render::{
    branch_echo_line, branch_header_lines, branch_hint, branch_prompt, commit_invalid_hint,
    commit_prompt_text, pr_hint, pr_prompt, uncommitted_hint, uncommitted_preview,
    uncommitted_prompt, ChangeSet,
};
use committer::ui::{uncommitted_step, UncommittedAction, UncommittedStep};

#[test]
fn triage_preview_shows_only_staged_section() {
    let changes = ChangeSet {
        staged: vec!["a.txt".to_string()],
        unstaged: vec![],
    };
    let lines = uncommitted_preview(&changes);
    assert_eq!(
        lines,
        vec![
            "",
            "⚠ Uncommitted changes won't be included in this PR",
            "",
            "Staged:",
            "a.txt",
            "",
        ]
    );
    assert!(matches!(
        uncommitted_step("s"),
        UncommittedStep::Decide(UncommittedAction::Skip)
    ));
}

#[test]
fn triage_preview_shows_both_sections() {
    let changes = ChangeSet {
        staged: vec!["a.txt".to_string(), "b.txt".to_string()],
        unstaged: vec!["c.txt".to_string()],
    };
    let lines = uncommitted_preview(&changes);
    assert_eq!(
        lines,
        vec![
            "",
            "⚠ Uncommitted changes won't be included in this PR",
            "",
            "Staged:",
            "a.txt",
            "b.txt",
            "",
            "Unstaged:",
            "c.txt",
            "",
        ]
    );
}

#[test]
fn triage_preview_omits_empty_sections() {
    let changes = ChangeSet {
        staged: vec![],
        unstaged: vec![],
    };
    let lines = uncommitted_preview(&changes);
    assert_eq!(
        lines,
        vec!["", "⚠ Uncommitted changes won't be included in this PR", ""]
    );
}

#[test]
fn branch_header_lines_follow_flag() {
    let shown = branch_header_lines("main", "feature-x", "new work", true);
    assert_eq!(
        shown,
        vec![
            "",
            "⚠ Branch mismatch detected",
            "  Current: main",
            "  Suggested: feature-x",
            "  Reason: new work",
            "",
        ]
    );
    let hidden = branch_header_lines("main", "feature-x", "new work", false);
    assert!(hidden.is_empty());
}

#[test]
fn branch_echo_names_the_branch() {
    assert_eq!(branch_echo_line("feature-y"), "  Branch: feature-y");
}

#[test]
fn prompts_and_hints_match_expected_text() {
    assert_eq!(uncommitted_prompt(), "[c]ommit first  [s]kip  [q]uit: ");
    assert_eq!(uncommitted_hint(), "Please enter c, s, or q");
    assert_eq!(branch_prompt(), "Create branch? [y/n/e] ");
    assert_eq!(branch_hint(), "Please enter y, n, or e");
    assert_eq!(pr_prompt(), "Create PR? [y/n/e] ");
    assert_eq!(pr_hint(), "Please enter y, n, or e");
}

#[test]
fn commit_prompt_and_hint_depend_on_diversion() {
    assert_eq!(commit_prompt_text(true), "Commit? [y/n/e/b] ");
    assert_eq!(commit_prompt_text(false), "Commit? [y/n/e] ");
    assert_eq!(commit_invalid_hint(true), "Please enter y, n, e, or b");
    assert_eq!(commit_invalid_hint(false), "Please enter y, n, or e");
}

#[test]
fn default_config_matches_documented_defaults() {
    let config = Config::default();
    assert!(!config.auto_commit);
    assert!(!config.commit_after_branch);
    assert_eq!(config.model, "google/gemini-3-flash-preview");
    assert!(!config.verbose);
    assert_eq!(default_model(), "google/gemini-3-flash-preview");
    assert_eq!(DEFAULT_MODEL, "google/gemini-3-flash-preview");
}
