use vstd::prelude::*;

verus! {

// What each loop prints: preview blocks and prompt lines, computed here as
// lists of lines or single strings so the caller only has to write them out.

/// The staged and unstaged file paths of the working tree, as the git layer
/// reports them.  Read-only to the loops.
#[derive(Debug)]
pub struct ChangeSet {
    pub staged: Vec<String>,
    pub unstaged: Vec<String>,
}

/// A file-list section: header, one line per file, then a blank line — or
/// nothing at all when there are no files.
pub open spec fn file_section_spec(header: Seq<char>, files: Seq<Seq<char>>) -> Seq<Seq<char>> {
    if files.len() > 0 {
        seq![header] + files + seq![Seq::<char>::empty()]
    } else {
        Seq::empty()
    }
}

/// The lines shown before the triage prompt: a warning framed by blank
/// lines, then the staged and unstaged sections, each only if non-empty.
pub open spec fn uncommitted_preview_spec(
    staged: Seq<Seq<char>>,
    unstaged: Seq<Seq<char>>,
) -> Seq<Seq<char>> {
    seq![
        Seq::<char>::empty(),
        "⚠ Uncommitted changes won't be included in this PR"@,
        Seq::<char>::empty(),
    ] + file_section_spec("Staged:"@, staged) + file_section_spec("Unstaged:"@, unstaged)
}

fn push_section(out: &mut Vec<String>, header: &str, files: &Vec<String>)
    ensures
        final(out)@.map_values(|l: String| l@) == old(out)@.map_values(|l: String| l@)
            + file_section_spec(header@, files@.map_values(|f: String| f@)),
{
    let ghost base = out@.map_values(|l: String| l@);
    let ghost fv = files@.map_values(|f: String| f@);
    if files.len() > 0 {
        out.push(String::from_str(header));
        proof {
            assert(out@.map_values(|l: String| l@) =~= base + seq![header@]);
        }
        let mut i: usize = 0;
        while i < files.len()
            invariant
                0 <= i <= files@.len(),
                fv == files@.map_values(|f: String| f@),
                out@.map_values(|l: String| l@) =~= base + seq![header@] + fv.subrange(
                    0,
                    i as int,
                ),
            decreases files@.len() - i,
        {
            let ghost pre = out@.map_values(|l: String| l@);
            out.push(files[i].clone());
            proof {
                assert(files@.map_values(|f: String| f@)[i as int] == files@[i as int]@);
                assert(out@.map_values(|l: String| l@) =~= pre + seq![fv[i as int]]);
                assert(fv.subrange(0, i + 1) =~= fv.subrange(0, i as int) + seq![
                    fv[i as int],
                ]);
            }
            i = i + 1;
        }
        let ghost pre = out@.map_values(|l: String| l@);
        out.push(String::new());
        proof {
            assert(fv.subrange(0, fv.len() as int) =~= fv);
            assert(out@.map_values(|l: String| l@) =~= pre + seq![Seq::<char>::empty()]);
            assert(out@.map_values(|l: String| l@) =~= base + file_section_spec(header@, fv));
        }
    } else {
        proof {
            assert(fv.len() == 0);
            assert(out@.map_values(|l: String| l@) =~= base + file_section_spec(header@, fv));
        }
    }
}

/// The preview block of the triage loop, one entry per terminal line.
pub fn uncommitted_preview(changes: &ChangeSet) -> (r: Vec<String>)
    ensures
        r@.map_values(|l: String| l@) == uncommitted_preview_spec(
            changes.staged@.map_values(|f: String| f@),
            changes.unstaged@.map_values(|f: String| f@),
        ),
{
    let mut out: Vec<String> = Vec::new();
    out.push(String::new());
    out.push(String::from_str("⚠ Uncommitted changes won't be included in this PR"));
    out.push(String::new());
    proof {
        assert(out@.map_values(|l: String| l@) =~= seq![
            Seq::<char>::empty(),
            "⚠ Uncommitted changes won't be included in this PR"@,
            Seq::<char>::empty(),
        ]);
    }
    push_section(&mut out, "Staged:", &changes.staged);
    push_section(&mut out, "Unstaged:", &changes.unstaged);
    out
}

/// The lines of the branch-mismatch header, or none when it is suppressed.
pub fn branch_header_lines(current: &str, suggested: &str, reason: &str, show_mismatch_header:
    bool) -> (r: Vec<String>)
    ensures
        show_mismatch_header ==> r@.map_values(|l: String| l@) == seq![
            Seq::<char>::empty(),
            "⚠ Branch mismatch detected"@,
            "  Current: "@ + current@,
            "  Suggested: "@ + suggested@,
            "  Reason: "@ + reason@,
            Seq::<char>::empty(),
        ],
        !show_mismatch_header ==> r@.len() == 0,
{
    let mut out: Vec<String> = Vec::new();
    if show_mismatch_header {
        out.push(String::new());
        out.push(String::from_str("⚠ Branch mismatch detected"));
        let mut cur = String::from_str("  Current: ");
        cur.append(current);
        out.push(cur);
        let mut sug = String::from_str("  Suggested: ");
        sug.append(suggested);
        out.push(sug);
        let mut rea = String::from_str("  Reason: ");
        rea.append(reason);
        out.push(rea);
        out.push(String::new());
        proof {
            assert(out@.map_values(|l: String| l@) =~= seq![
                Seq::<char>::empty(),
                "⚠ Branch mismatch detected"@,
                "  Current: "@ + current@,
                "  Suggested: "@ + suggested@,
                "  Reason: "@ + reason@,
                Seq::<char>::empty(),
            ]);
        }
    }
    out
}

/// The line echoed after a branch-name edit.
pub fn branch_echo_line(name: &str) -> (r: String)
    ensures
        r@ == "  Branch: "@ + name@,
{
    let mut r = String::from_str("  Branch: ");
    r.append(name);
    r
}

/// The triage prompt.
pub fn uncommitted_prompt() -> (r: String)
    ensures
        r@ == "[c]ommit first  [s]kip  [q]uit: "@,
{
    String::from_str("[c]ommit first  [s]kip  [q]uit: ")
}

/// The triage hint for an invalid token.
pub fn uncommitted_hint() -> (r: String)
    ensures
        r@ == "Please enter c, s, or q"@,
{
    String::from_str("Please enter c, s, or q")
}

/// The branch-loop prompt.
pub fn branch_prompt() -> (r: String)
    ensures
        r@ == "Create branch? [y/n/e] "@,
{
    String::from_str("Create branch? [y/n/e] ")
}

/// The branch-loop hint for an invalid token.
pub fn branch_hint() -> (r: String)
    ensures
        r@ == "Please enter y, n, or e"@,
{
    String::from_str("Please enter y, n, or e")
}

/// The commit-loop prompt; it names the branch option only when diversion is
/// enabled.
pub fn commit_prompt_text(show_branch_option: bool) -> (r: String)
    ensures
        show_branch_option ==> r@ == "Commit? [y/n/e/b] "@,
        !show_branch_option ==> r@ == "Commit? [y/n/e] "@,
{
    if show_branch_option {
        String::from_str("Commit? [y/n/e/b] ")
    } else {
        String::from_str("Commit? [y/n/e] ")
    }
}

/// The commit-loop hint for an invalid token, matching the prompt.
pub fn commit_invalid_hint(show_branch_option: bool) -> (r: String)
    ensures
        show_branch_option ==> r@ == "Please enter y, n, e, or b"@,
        !show_branch_option ==> r@ == "Please enter y, n, or e"@,
{
    if show_branch_option {
        String::from_str("Please enter y, n, e, or b")
    } else {
        String::from_str("Please enter y, n, or e")
    }
}

/// The pull-request-loop prompt.
pub fn pr_prompt() -> (r: String)
    ensures
        r@ == "Create PR? [y/n/e] "@,
{
    String::from_str("Create PR? [y/n/e] ")
}

/// The pull-request-loop hint for an invalid token.
pub fn pr_hint() -> (r: String)
    ensures
        r@ == "Please enter y, n, or e"@,
{
    String::from_str("Please enter y, n, or e")
}

} // verus!
