use vstd::prelude::*;

use crate::text::char_matches_lower;
use crate::text::is_ws;
use crate::text::lemma_trim_fixed;
use crate::text::lemma_trim_no_ws;
use crate::text::lemma_first_nl_is;
use crate::text::lemma_join_lines_id;
use crate::text::lines_spec;
use crate::text::matches_ci;
use crate::text::no_crlf;
use crate::text::strip_cr;
use crate::text::trim_spec;
use crate::ui::BranchOutcome;
use crate::ui::CommitOutcome;
use crate::ui::PrOutcome;
use crate::ui::UncommittedStep;
use crate::ui::branch_step_spec;
use crate::ui::combine_spec;
use crate::ui::commit_step_spec;
use crate::ui::edit_result_spec;
use crate::ui::is_branch_tok;
use crate::ui::is_commit_tok;
use crate::ui::is_edit_tok;
use crate::ui::is_no_tok;
use crate::ui::is_quit_tok;
use crate::ui::is_skip_tok;
use crate::ui::is_yes_tok;
use crate::ui::pr_step_spec;
use crate::ui::split_body_spec;
use crate::ui::split_title_spec;
use crate::ui::uncommitted_step_spec;

verus! {

// Laws of the decision loops, stated once over the step specifications.

/// The concrete forms of the yes token — letter or word, lower or upper
/// case — all belong to the yes set after trimming.
pub proof fn lemma_yes_token_forms()
    ensures
        is_yes_tok(trim_spec("y"@)),
        is_yes_tok(trim_spec("Y"@)),
        is_yes_tok(trim_spec("yes"@)),
        is_yes_tok(trim_spec("YES"@)),
{
    reveal_strlit("y");
    reveal_strlit("Y");
    reveal_strlit("yes");
    reveal_strlit("YES");
    assert(!is_ws('y') && !is_ws('Y') && !is_ws('e') && !is_ws('E') && !is_ws('s') && !is_ws(
        'S',
    ));
    lemma_trim_no_ws("y"@);
    lemma_trim_no_ws("Y"@);
    lemma_trim_no_ws("yes"@);
    lemma_trim_no_ws("YES"@);
    assert(matches_ci("y"@, "y"@));
    assert(matches_ci("Y"@, "y"@));
    assert(matches_ci("yes"@, "yes"@));
    assert(matches_ci("YES"@, "yes"@));
}

/// Any two tokens of the yes set drive each confirmation loop to the same
/// terminal decision: create the branch, commit the message, or open the
/// pull request, each carrying the current draft unchanged.
pub proof fn lemma_yes_forms_equivalent(
    suggestion: Seq<char>,
    message: Seq<char>,
    show_branch_option: bool,
    title: Seq<char>,
    body: Seq<char>,
    a: Seq<char>,
    b: Seq<char>,
)
    requires
        is_yes_tok(trim_spec(a)),
        is_yes_tok(trim_spec(b)),
    ensures
        branch_step_spec(suggestion, a) == branch_step_spec(suggestion, b),
        branch_step_spec(suggestion, a) == BranchOutcome::Create(suggestion),
        commit_step_spec(message, show_branch_option, a) == commit_step_spec(
            message,
            show_branch_option,
            b,
        ),
        commit_step_spec(message, show_branch_option, a) == CommitOutcome::DoCommit(message),
        pr_step_spec(title, body, a) == pr_step_spec(title, body, b),
        pr_step_spec(title, body, a) == PrOutcome::CreatePr(title, body),
{
}

/// A token outside the triage loop's accepted set does not terminate it.
pub proof fn lemma_uncommitted_rejects_unknown(input: Seq<char>)
    requires
        !is_commit_tok(trim_spec(input)),
        !is_skip_tok(trim_spec(input)),
        !is_quit_tok(trim_spec(input)),
    ensures
        uncommitted_step_spec(input) == UncommittedStep::Invalid,
{
}

/// A token outside the branch loop's accepted set does not terminate it and
/// requests no edit, so the suggestion in hand stays as it was.
pub proof fn lemma_branch_rejects_unknown(suggestion: Seq<char>, input: Seq<char>)
    requires
        !is_yes_tok(trim_spec(input)),
        !is_no_tok(trim_spec(input)),
        !is_edit_tok(trim_spec(input)),
    ensures
        branch_step_spec(suggestion, input) == BranchOutcome::Rejected,
{
}

/// A token outside the commit loop's accepted set — which contains the
/// branch token only when diversion is enabled — does not terminate it and
/// requests no edit, so the message in hand stays as it was.
pub proof fn lemma_commit_rejects_unknown(
    message: Seq<char>,
    show_branch_option: bool,
    input: Seq<char>,
)
    requires
        !is_yes_tok(trim_spec(input)),
        !is_no_tok(trim_spec(input)),
        !is_edit_tok(trim_spec(input)),
        show_branch_option ==> !is_branch_tok(trim_spec(input)),
    ensures
        commit_step_spec(message, show_branch_option, input) == CommitOutcome::Rejected,
{
}

/// A token outside the pull-request loop's accepted set does not terminate
/// it and requests no edit, so title and body in hand stay as they were.
pub proof fn lemma_pr_rejects_unknown(title: Seq<char>, body: Seq<char>, input: Seq<char>)
    requires
        !is_yes_tok(trim_spec(input)),
        !is_no_tok(trim_spec(input)),
        !is_edit_tok(trim_spec(input)),
    ensures
        pr_step_spec(title, body, input) == PrOutcome::Rejected,
{
}

/// A branch token terminates the commit loop only when diversion is
/// enabled; with it disabled the token is invalid like any other.
pub proof fn lemma_commit_branch_token_needs_option(message: Seq<char>, input: Seq<char>)
    requires
        is_branch_tok(trim_spec(input)),
    ensures
        commit_step_spec(message, false, input) == CommitOutcome::Rejected,
        commit_step_spec(message, true, input) == CommitOutcome::Divert(message),
{
    let t = trim_spec(input);
    reveal_strlit("b");
    reveal_strlit("branch");
    reveal_strlit("y");
    reveal_strlit("yes");
    reveal_strlit("n");
    reveal_strlit("no");
    reveal_strlit("e");
    reveal_strlit("edit");
    if matches_ci(t, "b"@) {
        assert(t.len() == 1);
        assert(char_matches_lower(t[0], "b"@[0]));
        assert("b"@[0] == 'b');
        assert('b' as u32 == 0x62 && 'y' as u32 == 0x79 && 'n' as u32 == 0x6E && 'e' as u32
            == 0x65);
        assert(t[0] as u32 == 0x62 || t[0] as u32 == 0x42);
        assert(!char_matches_lower(t[0], "y"@[0]));
        assert(!char_matches_lower(t[0], "n"@[0]));
        assert(!char_matches_lower(t[0], "e"@[0]));
        assert(!matches_ci(t, "y"@));
        assert(!matches_ci(t, "n"@));
        assert(!matches_ci(t, "e"@));
    } else {
        assert(matches_ci(t, "branch"@));
        assert(t.len() == 6);
    }
}

/// Supplying the identical text back from an editor leaves a single-string
/// draft content-equal, as does an editor that yields nothing.
pub proof fn lemma_edit_identity(current: Seq<char>)
    ensures
        edit_result_spec(current, Some(current)) == current,
        edit_result_spec(current, None) == current,
{
}

/// Editing the combined pull-request draft and handing it back unchanged
/// leaves title and body content-equal: splitting undoes combining.  This
/// needs the draft in the form the split itself produces — a single-line,
/// trimmed title and a trimmed body with no `"\r\n"` pair.
pub proof fn lemma_pr_edit_idempotent(title: Seq<char>, body: Seq<char>)
    requires
        trim_spec(title) == title,
        !title.contains('\n'),
        trim_spec(body) == body,
        no_crlf(body),
    ensures
        split_title_spec(combine_spec(title, body)) == title,
        split_body_spec(combine_spec(title, body)) == body,
{
    let c = combine_spec(title, body);
    let n = title.len() as int;
    assert(c.len() == title.len() + 2 + body.len());
    assert(c[n] == '\n');
    assert forall|k: int| 0 <= k < n implies c[k] != '\n' by {
        assert(c[k] == title[k]);
        assert(!title.contains('\n'));
        if title[k] == '\n' {
            assert(title.contains('\n'));
        }
    }
    lemma_first_nl_is(c, n);
    let raw0 = c.subrange(0, n);
    assert(raw0 =~= title);
    if title.len() > 0 {
        lemma_trim_fixed(title);
        assert(is_ws('\r'));
        assert(title.last() != '\r');
    }
    assert(strip_cr(title) == title);
    let rest1 = c.subrange(n + 1, c.len() as int);
    assert(rest1.len() == 1 + body.len());
    assert(rest1[0] == '\n');
    lemma_first_nl_is(rest1, 0);
    assert(lines_spec(rest1) == seq![strip_cr(rest1.subrange(0, 0))] + lines_spec(
        rest1.subrange(1, rest1.len() as int),
    ));
    assert(rest1.subrange(0, 0) =~= Seq::<char>::empty());
    assert(strip_cr(Seq::<char>::empty()) == Seq::<char>::empty());
    assert(rest1.subrange(1, rest1.len() as int) =~= body);
    let ls = lines_spec(c);
    assert(ls == seq![title] + (seq![Seq::<char>::empty()] + lines_spec(body)));
    assert(ls.len() == 2 + lines_spec(body).len());
    assert(ls[0] == title);
    assert(split_title_spec(c) == trim_spec(title));
    assert(ls.skip(2) =~= lines_spec(body));
    if body.len() > 0 {
        lemma_trim_fixed(body);
        assert(is_ws('\n'));
        assert(body.last() != '\n');
    }
    lemma_join_lines_id(body);
    assert(split_body_spec(c) == trim_spec(body));
}

} // verus!
