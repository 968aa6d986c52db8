use vstd::prelude::*;

use crate::text::join_from;
use crate::text::join_spec;
use crate::text::lemma_join_cons;
use crate::text::lemma_join_lines_len;
use crate::text::lemma_lines_len_le;
use crate::text::lemma_trim_len;
use crate::text::lines_spec;
use crate::text::matches_ci;
use crate::text::matches_token;
use crate::text::split_lines;
use crate::text::trim_spec;
use crate::text::trim_str;

verus! {

// The tokens each loop accepts, after trimming, compared ignoring ASCII case.

pub open spec fn is_yes_tok(t: Seq<char>) -> bool {
    matches_ci(t, "y"@) || matches_ci(t, "yes"@)
}

pub open spec fn is_no_tok(t: Seq<char>) -> bool {
    matches_ci(t, "n"@) || matches_ci(t, "no"@)
}

pub open spec fn is_edit_tok(t: Seq<char>) -> bool {
    matches_ci(t, "e"@) || matches_ci(t, "edit"@)
}

pub open spec fn is_commit_tok(t: Seq<char>) -> bool {
    matches_ci(t, "c"@) || matches_ci(t, "commit"@)
}

pub open spec fn is_skip_tok(t: Seq<char>) -> bool {
    matches_ci(t, "s"@) || matches_ci(t, "skip"@)
}

pub open spec fn is_quit_tok(t: Seq<char>) -> bool {
    matches_ci(t, "q"@) || matches_ci(t, "quit"@)
}

pub open spec fn is_branch_tok(t: Seq<char>) -> bool {
    matches_ci(t, "b"@) || matches_ci(t, "branch"@)
}

/// The draft after an edit: the editor's result when it produced one, the
/// untouched draft when it failed or the user declined.
pub open spec fn edit_result_spec(current: Seq<char>, edited: Option<Seq<char>>) -> Seq<char> {
    match edited {
        Some(t) => t,
        None => current,
    }
}

// The decision loops.  Each loop's one-iteration behaviour is a pure step
// function from the current draft and one input token to an outcome; the
// unverified shell around the library reads input, performs the requested
// edit or output, and feeds results back in.

/// How to handle uncommitted changes before opening a pull request.
#[derive(Clone, Copy, Debug, PartialEq, Eq, Structural)]
pub enum UncommittedAction {
    Commit,
    Skip,
    Quit,
}

/// One iteration of the uncommitted-changes triage loop: either a terminal
/// decision, or an invalid token that keeps the loop going.
#[derive(Clone, Copy, Debug, PartialEq, Eq, Structural)]
pub enum UncommittedStep {
    Decide(UncommittedAction),
    Invalid,
}

pub open spec fn uncommitted_step_spec(input: Seq<char>) -> UncommittedStep {
    let t = trim_spec(input);
    if is_commit_tok(t) {
        UncommittedStep::Decide(UncommittedAction::Commit)
    } else if is_skip_tok(t) {
        UncommittedStep::Decide(UncommittedAction::Skip)
    } else if is_quit_tok(t) {
        UncommittedStep::Decide(UncommittedAction::Quit)
    } else {
        UncommittedStep::Invalid
    }
}

/// Map one line of input to a triage outcome.  Only a recognised token
/// terminates the loop; anything else asks the caller to re-prompt.
pub fn uncommitted_step(input: &str) -> (r: UncommittedStep)
    ensures
        r == uncommitted_step_spec(input@),
{
    let t = trim_str(input);
    if matches_token(t, "c") || matches_token(t, "commit") {
        UncommittedStep::Decide(UncommittedAction::Commit)
    } else if matches_token(t, "s") || matches_token(t, "skip") {
        UncommittedStep::Decide(UncommittedAction::Skip)
    } else if matches_token(t, "q") || matches_token(t, "quit") {
        UncommittedStep::Decide(UncommittedAction::Quit)
    } else {
        UncommittedStep::Invalid
    }
}

/// Decision of the branch-creation loop.
#[derive(Debug)]
pub enum BranchAction {
    Create(String),
    Skip,
}

/// One iteration of the branch loop.
#[derive(Debug)]
pub enum BranchStep {
    Decide(BranchAction),
    RequestEdit,
    Invalid,
}

/// Spec-level outcome of one branch-loop iteration.
pub enum BranchOutcome {
    Create(Seq<char>),
    SkipBranch,
    EditRequest,
    Rejected,
}

pub open spec fn branch_step_spec(suggestion: Seq<char>, input: Seq<char>) -> BranchOutcome {
    let t = trim_spec(input);
    if is_yes_tok(t) {
        BranchOutcome::Create(suggestion)
    } else if is_no_tok(t) {
        BranchOutcome::SkipBranch
    } else if is_edit_tok(t) {
        BranchOutcome::EditRequest
    } else {
        BranchOutcome::Rejected
    }
}

pub open spec fn branch_step_matches(r: BranchStep, o: BranchOutcome) -> bool {
    match o {
        BranchOutcome::Create(s) => r matches BranchStep::Decide(BranchAction::Create(v)) && v@
            == s,
        BranchOutcome::SkipBranch => r matches BranchStep::Decide(BranchAction::Skip),
        BranchOutcome::EditRequest => r matches BranchStep::RequestEdit,
        BranchOutcome::Rejected => r matches BranchStep::Invalid,
    }
}

/// Map one line of input to a branch-loop outcome.  A yes token carries the
/// current suggestion out as the branch name to create.
pub fn branch_step(current_suggestion: &String, input: &str) -> (r: BranchStep)
    ensures
        branch_step_matches(r, branch_step_spec(current_suggestion@, input@)),
{
    let t = trim_str(input);
    if matches_token(t, "y") || matches_token(t, "yes") {
        BranchStep::Decide(BranchAction::Create(current_suggestion.clone()))
    } else if matches_token(t, "n") || matches_token(t, "no") {
        BranchStep::Decide(BranchAction::Skip)
    } else if matches_token(t, "e") || matches_token(t, "edit") {
        BranchStep::RequestEdit
    } else {
        BranchStep::Invalid
    }
}

/// Decision of the commit-confirmation loop.
#[derive(Debug)]
pub enum CommitAction {
    Commit(String),
    Cancel,
    CreateBranch(String),
}

/// One iteration of the commit loop.
#[derive(Debug)]
pub enum CommitStep {
    Decide(CommitAction),
    RequestEdit,
    Invalid,
}

/// Spec-level outcome of one commit-loop iteration.
pub enum CommitOutcome {
    DoCommit(Seq<char>),
    Cancelled,
    EditRequest,
    Divert(Seq<char>),
    Rejected,
}

pub open spec fn commit_step_spec(
    message: Seq<char>,
    show_branch_option: bool,
    input: Seq<char>,
) -> CommitOutcome {
    let t = trim_spec(input);
    if is_yes_tok(t) {
        CommitOutcome::DoCommit(message)
    } else if is_no_tok(t) {
        CommitOutcome::Cancelled
    } else if is_edit_tok(t) {
        CommitOutcome::EditRequest
    } else if show_branch_option && is_branch_tok(t) {
        CommitOutcome::Divert(message)
    } else {
        CommitOutcome::Rejected
    }
}

pub open spec fn commit_step_matches(r: CommitStep, o: CommitOutcome) -> bool {
    match o {
        CommitOutcome::DoCommit(s) => r matches CommitStep::Decide(CommitAction::Commit(v)) && v@
            == s,
        CommitOutcome::Cancelled => r matches CommitStep::Decide(CommitAction::Cancel),
        CommitOutcome::EditRequest => r matches CommitStep::RequestEdit,
        CommitOutcome::Divert(s) => r matches CommitStep::Decide(CommitAction::CreateBranch(v))
            && v@ == s,
        CommitOutcome::Rejected => r matches CommitStep::Invalid,
    }
}

/// Map one line of input to a commit-loop outcome.  The branch token counts
/// only when diversion to branch creation is enabled.
pub fn commit_step(current_message: &String, show_branch_option: bool, input: &str) -> (r:
    CommitStep)
    ensures
        commit_step_matches(
            r,
            commit_step_spec(current_message@, show_branch_option, input@),
        ),
{
    let t = trim_str(input);
    if matches_token(t, "y") || matches_token(t, "yes") {
        CommitStep::Decide(CommitAction::Commit(current_message.clone()))
    } else if matches_token(t, "n") || matches_token(t, "no") {
        CommitStep::Decide(CommitAction::Cancel)
    } else if matches_token(t, "e") || matches_token(t, "edit") {
        CommitStep::RequestEdit
    } else if show_branch_option && (matches_token(t, "b") || matches_token(t, "branch")) {
        CommitStep::Decide(CommitAction::CreateBranch(current_message.clone()))
    } else {
        CommitStep::Invalid
    }
}

/// The edited draft an editor hands back, or the current draft when the
/// editor failed or the user declined the edit.
pub fn edited_or_current(current: String, edited: Option<String>) -> (r: String)
    ensures
        r@ == edit_result_spec(current@, opt_view(edited)),
{
    match edited {
        Some(t) => t,
        None => current,
    }
}

pub open spec fn opt_view(o: Option<String>) -> Option<Seq<char>> {
    match o {
        Some(t) => Some(t@),
        None => None,
    }
}

// The pull-request confirmation loop.  Its draft is a title and a body; an
// edit round-trips both through one buffer, and the preview on screen is
// erased and redrawn in place, so the loop also tracks how many terminal
// lines the visible preview occupies.

/// Decision of the pull-request loop.
#[derive(Debug)]
pub enum PrAction {
    Create(String, String),
    Cancel,
}

/// One iteration of the pull-request loop.
#[derive(Debug)]
pub enum PrStep {
    Decide(PrAction),
    RequestEdit,
    Invalid,
}

/// Spec-level outcome of one pull-request-loop iteration.
pub enum PrOutcome {
    CreatePr(Seq<char>, Seq<char>),
    Cancelled,
    EditRequest,
    Rejected,
}

/// Draft of the pull-request loop: the title and body under discussion, and
/// the number of terminal lines the preview currently on screen occupies
/// (title, blank separator, body lines, plus the prompt line printed after
/// the initial preview).
#[derive(Debug)]
pub struct PrState {
    pub title: String,
    pub body: String,
    pub prev_lines: usize,
}

/// The erase count of the next redraw, `prev_lines + 2`, must fit in usize.
pub open spec fn pr_wf(s: PrState) -> bool {
    s.prev_lines + 2 <= usize::MAX
}

pub open spec fn pr_step_spec(title: Seq<char>, body: Seq<char>, input: Seq<char>) -> PrOutcome {
    let t = trim_spec(input);
    if is_yes_tok(t) {
        PrOutcome::CreatePr(title, body)
    } else if is_no_tok(t) {
        PrOutcome::Cancelled
    } else if is_edit_tok(t) {
        PrOutcome::EditRequest
    } else {
        PrOutcome::Rejected
    }
}

pub open spec fn pr_step_matches(r: PrStep, o: PrOutcome) -> bool {
    match o {
        PrOutcome::CreatePr(t, b) => r matches PrStep::Decide(PrAction::Create(vt, vb)) && vt@
            == t && vb@ == b,
        PrOutcome::Cancelled => r matches PrStep::Decide(PrAction::Cancel),
        PrOutcome::EditRequest => r matches PrStep::RequestEdit,
        PrOutcome::Rejected => r matches PrStep::Invalid,
    }
}

/// Map one line of input to a pull-request-loop outcome.
pub fn pr_step(state: &PrState, input: &str) -> (r: PrStep)
    ensures
        pr_step_matches(r, pr_step_spec(state.title@, state.body@, input@)),
{
    let t = trim_str(input);
    if matches_token(t, "y") || matches_token(t, "yes") {
        PrStep::Decide(PrAction::Create(state.title.clone(), state.body.clone()))
    } else if matches_token(t, "n") || matches_token(t, "no") {
        PrStep::Decide(PrAction::Cancel)
    } else if matches_token(t, "e") || matches_token(t, "edit") {
        PrStep::RequestEdit
    } else {
        PrStep::Invalid
    }
}

/// Title and body combined into one edit buffer, separated by a blank line.
pub open spec fn combine_spec(title: Seq<char>, body: Seq<char>) -> Seq<char> {
    title + seq!['\n', '\n'] + body
}

/// The preview as printed after a redraw: title, blank line, body, and a
/// trailing newline.
pub open spec fn preview_spec(title: Seq<char>, body: Seq<char>) -> Seq<char> {
    title + seq!['\n', '\n'] + body + seq!['\n']
}

/// The title recovered from an edited buffer: its first line, trimmed.
pub open spec fn split_title_spec(text: Seq<char>) -> Seq<char> {
    let ls = lines_spec(text);
    if ls.len() == 0 {
        Seq::empty()
    } else {
        trim_spec(ls[0])
    }
}

/// The body recovered from an edited buffer: every line after the second
/// (the line after the title is discarded whatever it holds), rejoined with
/// `'\n'` and trimmed.
pub open spec fn split_body_spec(text: Seq<char>) -> Seq<char> {
    let ls = lines_spec(text);
    if ls.len() >= 2 {
        trim_spec(join_spec(ls.skip(2)))
    } else {
        Seq::empty()
    }
}

/// Title and body joined by a blank line, the buffer handed to the editor.
pub fn combine(title: &str, body: &str) -> (r: String)
    ensures
        r@ == combine_spec(title@, body@),
{
    let mut r = String::from_str(title);
    r.append("\n\n");
    r.append(body);
    proof {
        reveal_strlit("\n\n");
        assert(r@ =~= combine_spec(title@, body@));
    }
    r
}

/// The preview text printed after a redraw.
pub fn build_preview(title: &str, body: &str) -> (r: String)
    ensures
        r@ == preview_spec(title@, body@),
{
    let mut r = combine(title, body);
    r.append("\n");
    proof {
        reveal_strlit("\n");
        assert(r@ =~= preview_spec(title@, body@));
    }
    r
}

/// The draft at entry to the pull-request loop: the proposed title and body,
/// with the line count of the initial preview plus its prompt line.
pub fn pr_init(title: &str, body: &str) -> (r: PrState)
    requires
        title@.len() + body@.len() + 8 <= usize::MAX,
    ensures
        r.title@ == title@,
        r.body@ == body@,
        r.prev_lines == lines_spec(combine_spec(title@, body@)).len() + 1,
        pr_wf(r),
{
    let combined = combine(title, body);
    let ls = split_lines(combined.as_str());
    proof {
        lemma_lines_len_le(combined@);
        assert(ls@.map_values(|l: String| l@).len() == ls@.len());
    }
    PrState {
        title: String::from_str(title),
        body: String::from_str(body),
        prev_lines: ls.len() + 1,
    }
}

/// What one completed edit of the pull-request draft asks the terminal to
/// do: erase `erase_lines` lines upward, print `preview`, and carry on with
/// `state`.
#[derive(Debug)]
pub struct PrRedraw {
    pub state: PrState,
    pub erase_lines: usize,
    pub preview: String,
}

/// Apply the result of an edit to the pull-request draft.  The edited buffer
/// (or, when the editor yielded nothing, the combined unedited draft) is
/// split back into title and body; the redraw erases exactly the previous
/// preview plus the prompt and input lines, and the recorded line count is
/// exactly that of the fresh preview.
pub fn pr_apply_edit(state: PrState, edited: Option<String>) -> (r: PrRedraw)
    requires
        pr_wf(state),
        state.title@.len() + state.body@.len() + 8 <= usize::MAX,
        edited matches Some(t) ==> t@.len() + 8 <= usize::MAX,
    ensures
        ({
            let text = edit_result_spec(
                combine_spec(state.title@, state.body@),
                opt_view(edited),
            );
            &&& r.state.title@ == split_title_spec(text)
            &&& r.state.body@ == split_body_spec(text)
            &&& r.preview@ == preview_spec(r.state.title@, r.state.body@)
            &&& r.erase_lines == state.prev_lines + 2
            &&& r.state.prev_lines == lines_spec(r.preview@).len()
            &&& pr_wf(r.state)
        }),
{
    let erase_lines = state.prev_lines + 2;
    let combined = combine(state.title.as_str(), state.body.as_str());
    let text = edited_or_current(combined, edited);
    let ghost tv = text@;
    let ls = split_lines(text.as_str());
    let title = if ls.len() > 0 {
        String::from_str(trim_str(ls[0].as_str()))
    } else {
        String::new()
    };
    let joined = join_from(&ls, 2);
    let body = String::from_str(trim_str(joined.as_str()));
    proof {
        let m = lines_spec(tv);
        assert(ls@.map_values(|l: String| l@) == m);
        assert(ls@.len() == m.len());
        if m.len() > 0 {
            assert(ls@.map_values(|l: String| l@)[0] == ls@[0]@);
            lemma_trim_len(m[0]);
        }
        if m.len() >= 2 {
            lemma_trim_len(join_spec(m.skip(2)));
        }
        assert(title@ == split_title_spec(tv));
        assert(body@ == split_body_spec(tv));
        // The new preview cannot outgrow the edited text by more than the
        // three framing newlines, so the next erase count still fits.
        lemma_join_lines_len(tv);
        if m.len() >= 2 {
            lemma_join_cons(m);
            assert(m.drop_first() =~= m.skip(1));
            if m.len() >= 3 {
                lemma_join_cons(m.skip(1));
                assert(m.skip(1).drop_first() =~= m.skip(2));
            } else {
                assert(m.skip(2) =~= Seq::<Seq<char>>::empty());
            }
        }
        assert(title@.len() + body@.len() <= tv.len());
    }
    let preview = build_preview(title.as_str(), body.as_str());
    let pls = split_lines(preview.as_str());
    proof {
        lemma_lines_len_le(preview@);
        assert(pls@.map_values(|l: String| l@).len() == pls@.len());
    }
    PrRedraw {
        state: PrState { title, body, prev_lines: pls.len() },
        erase_lines,
        preview,
    }
}

} // verus!
