use committer::ui::{
    branch_step, commit_step, edited_or_current, pr_step, uncommitted_step, BranchAction,
    BranchStep, CommitAction, CommitStep, PrAction, PrStep, UncommittedAction, UncommittedStep,
};
use committer::ui::{pr_init, PrState};

fn branch_decides_create(suggestion: &str, input: &str) -> Option<String> {
    let s = suggestion.to_string();
    match branch_step(&s, input) {
        BranchStep::Decide(BranchAction::Create(name)) => Some(name),
        _ => None,
    }
}

#[test]
fn yes_forms_equivalent_in_branch_loop() {
    for input in ["y", "Y", "yes", "YES"] {
        let name = branch_decides_create("feature-x", input);
        assert_eq!(name.as_deref(), Some("feature-x"), "input {:?}", input);
    }
}

#[test]
fn yes_forms_equivalent_in_commit_loop() {
    for input in ["y", "Y", "yes", "YES", " yEs "] {
        let msg = "fix: thing".to_string();
        match commit_step(&msg, false, input) {
            CommitStep::Decide(CommitAction::Commit(m)) => assert_eq!(m, "fix: thing"),
            _ => panic!("input {:?} did not commit", input),
        }
    }
}

#[test]
fn yes_forms_equivalent_in_pr_loop() {
    for input in ["y", "Y", "yes", "YES"] {
        let state = pr_init("T", "B");
        match pr_step(&state, input) {
            PrStep::Decide(PrAction::Create(t, b)) => {
                assert_eq!(t, "T");
                assert_eq!(b, "B");
            }
            _ => panic!("input {:?} did not create", input),
        }
    }
}

#[test]
fn invalid_tokens_do_not_terminate_any_loop() {
    for input in ["", "x", "yess", "commitx", " maybe ", "?", "yn"] {
        assert!(matches!(uncommitted_step(input), UncommittedStep::Invalid), "{:?}", input);
        let s = "feature-x".to_string();
        assert!(matches!(branch_step(&s, input), BranchStep::Invalid), "{:?}", input);
        let m = "msg".to_string();
        assert!(matches!(commit_step(&m, true, input), CommitStep::Invalid), "{:?}", input);
        let state = PrState {
            title: "T".to_string(),
            body: "B".to_string(),
            prev_lines: 4,
        };
        assert!(matches!(pr_step(&state, input), PrStep::Invalid), "{:?}", input);
    }
}

#[test]
fn tokens_are_trimmed_and_case_folded() {
    assert!(matches!(
        uncommitted_step("  COMMIT  "),
        UncommittedStep::Decide(UncommittedAction::Commit)
    ));
    assert!(matches!(
        uncommitted_step("\tQ\n"),
        UncommittedStep::Decide(UncommittedAction::Quit)
    ));
    let s = "feature-x".to_string();
    assert!(matches!(
        branch_step(&s, " No "),
        BranchStep::Decide(BranchAction::Skip)
    ));
    assert!(matches!(branch_step(&s, "Edit\n"), BranchStep::RequestEdit));
}

#[test]
fn triage_decides_each_token() {
    assert!(matches!(
        uncommitted_step("c"),
        UncommittedStep::Decide(UncommittedAction::Commit)
    ));
    assert!(matches!(
        uncommitted_step("s"),
        UncommittedStep::Decide(UncommittedAction::Skip)
    ));
    assert!(matches!(
        uncommitted_step("skip"),
        UncommittedStep::Decide(UncommittedAction::Skip)
    ));
    assert!(matches!(
        uncommitted_step("quit"),
        UncommittedStep::Decide(UncommittedAction::Quit)
    ));
}

#[test]
fn branch_loop_edit_then_yes_uses_edited_name() {
    let mut suggestion = "feature-x".to_string();
    match branch_step(&suggestion, "e") {
        BranchStep::RequestEdit => {
            suggestion = edited_or_current(suggestion, Some("feature-y".to_string()));
        }
        _ => panic!("edit token should request an edit"),
    }
    assert_eq!(suggestion, "feature-y");
    match branch_step(&suggestion, "y") {
        BranchStep::Decide(BranchAction::Create(name)) => assert_eq!(name, "feature-y"),
        _ => panic!("yes token should create"),
    }
}

#[test]
fn commit_branch_token_invalid_when_diversion_disabled() {
    let msg = "msg".to_string();
    assert!(matches!(commit_step(&msg, false, "b"), CommitStep::Invalid));
    assert!(matches!(commit_step(&msg, false, "branch"), CommitStep::Invalid));
}

#[test]
fn commit_branch_token_diverts_when_enabled() {
    let msg = "msg".to_string();
    match commit_step(&msg, true, "b") {
        CommitStep::Decide(CommitAction::CreateBranch(m)) => assert_eq!(m, "msg"),
        _ => panic!("branch token should divert"),
    }
    match commit_step(&msg, true, "BRANCH") {
        CommitStep::Decide(CommitAction::CreateBranch(m)) => assert_eq!(m, "msg"),
        _ => panic!("branch word should divert"),
    }
}

#[test]
fn commit_no_and_cancel() {
    let msg = "msg".to_string();
    assert!(matches!(
        commit_step(&msg, true, "n"),
        CommitStep::Decide(CommitAction::Cancel)
    ));
    assert!(matches!(
        commit_step(&msg, false, "no"),
        CommitStep::Decide(CommitAction::Cancel)
    ));
    assert!(matches!(commit_step(&msg, false, "e"), CommitStep::RequestEdit));
}

#[test]
fn editor_result_replaces_or_keeps_draft() {
    let kept = edited_or_current("old".to_string(), None);
    assert_eq!(kept, "old");
    let replaced = edited_or_current("old".to_string(), Some("new".to_string()));
    assert_eq!(replaced, "new");
    let identical = edited_or_current("same".to_string(), Some("same".to_string()));
    assert_eq!(identical, "same");
}
