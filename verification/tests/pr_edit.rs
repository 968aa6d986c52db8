use committer::ui::{combine, pr_apply_edit, pr_init};

#[test]
fn initial_preview_line_count_includes_prompt_line() {
    // combined draft "T\n\nB1\nB2" occupies 4 lines; the prompt adds one
    let state = pr_init("T", "B1\nB2");
    assert_eq!(state.title, "T");
    assert_eq!(state.body, "B1\nB2");
    assert_eq!(state.prev_lines, 5);
}

#[test]
fn split_recovers_title_and_body() {
    let state = pr_init("Old", "old body");
    let redraw = pr_apply_edit(state, Some("T\n\nB1\nB2".to_string()));
    assert_eq!(redraw.state.title, "T");
    assert_eq!(redraw.state.body, "B1\nB2");
}

#[test]
fn split_handles_single_line_buffer() {
    let state = pr_init("Old", "old body");
    let redraw = pr_apply_edit(state, Some("OnlyTitle".to_string()));
    assert_eq!(redraw.state.title, "OnlyTitle");
    assert_eq!(redraw.state.body, "");
}

#[test]
fn split_discards_second_line_even_if_not_blank() {
    let state = pr_init("Old", "old body");
    let redraw = pr_apply_edit(state, Some("T\nlost\nB".to_string()));
    assert_eq!(redraw.state.title, "T");
    assert_eq!(redraw.state.body, "B");
}

#[test]
fn split_trims_title_and_body() {
    let state = pr_init("Old", "old body");
    let redraw = pr_apply_edit(state, Some("  T  \n\n  B  ".to_string()));
    assert_eq!(redraw.state.title, "T");
    assert_eq!(redraw.state.body, "B");
}

#[test]
fn split_handles_crlf_line_endings() {
    let state = pr_init("Old", "old body");
    let redraw = pr_apply_edit(state, Some("T\r\n\r\nB1\r\nB2".to_string()));
    assert_eq!(redraw.state.title, "T");
    assert_eq!(redraw.state.body, "B1\nB2");
}

#[test]
fn redraw_erases_previous_preview_plus_prompt_and_input() {
    let state = pr_init("T", "B1\nB2");
    let before = state.prev_lines;
    let redraw = pr_apply_edit(state, Some("New\n\nBody".to_string()));
    assert_eq!(redraw.erase_lines, before + 2);
    // fresh preview is "New\n\nBody\n": three terminal lines
    assert_eq!(redraw.preview, "New\n\nBody\n");
    assert_eq!(redraw.state.prev_lines, redraw.preview.lines().count());
    assert_eq!(redraw.state.prev_lines, 3);
}

#[test]
fn redraw_count_tracks_preview_growth_across_edits() {
    let state = pr_init("T", "B");
    assert_eq!(state.prev_lines, 4);
    let first = pr_apply_edit(state, Some("T\n\nL1\nL2\nL3".to_string()));
    assert_eq!(first.erase_lines, 6);
    assert_eq!(first.state.prev_lines, 5);
    let second = pr_apply_edit(first.state, None);
    assert_eq!(second.erase_lines, 7);
    assert_eq!(second.state.prev_lines, 5);
}

#[test]
fn unchanged_edit_round_trips_draft() {
    let state = pr_init("T", "B1\nB2");
    let combined = combine("T", "B1\nB2");
    assert_eq!(combined, "T\n\nB1\nB2");
    let redraw = pr_apply_edit(state, Some(combined));
    assert_eq!(redraw.state.title, "T");
    assert_eq!(redraw.state.body, "B1\nB2");
}

#[test]
fn declined_edit_keeps_draft() {
    let state = pr_init("T", "B1\n\nB2");
    let redraw = pr_apply_edit(state, None);
    assert_eq!(redraw.state.title, "T");
    assert_eq!(redraw.state.body, "B1\n\nB2");
    assert_eq!(redraw.preview, "T\n\nB1\n\nB2\n");
}

#[test]
fn empty_edited_buffer_empties_draft() {
    let state = pr_init("T", "B");
    let redraw = pr_apply_edit(state, Some(String::new()));
    assert_eq!(redraw.state.title, "");
    assert_eq!(redraw.state.body, "");
    assert_eq!(redraw.preview, "\n\n\n");
    assert_eq!(redraw.state.prev_lines, 3);
}
