//! Turns a screen state into one redraw, anchored at a fixed cursor position.
use vstd::prelude::*;
use vstd::string::*;
use crate::screen::{step_model, Action, Key, ScreenModel, ScreenState, UIMode};
use crate::terminal::{
    clear_after_cursor, clear_after_seq, fg_light_black, fg_light_black_seq, fg_reset, fg_reset_seq,
    fg_yellow, fg_yellow_seq, goto, goto_seq,
};

verus! {

/// The static first line of every frame.
pub open spec fn header_seq() -> Seq<char> {
    "  ---------- projects ----------\n\r"@
}

/// The dimmed hint shown in place of an empty search text.
pub open spec fn hint_seq(mode: UIMode) -> Seq<char> {
    match mode {
        UIMode::Insert => "type to search"@,
        UIMode::Normal => "press i to search"@,
    }
}

/// The letter that names a mode on the search line.
pub open spec fn mode_letter_seq(mode: UIMode) -> Seq<char> {
    match mode {
        UIMode::Insert => "i"@,
        UIMode::Normal => "n"@,
    }
}

/// The search line, without its line terminator.
pub open spec fn search_line_seq(mode: UIMode, term: Seq<char>) -> Seq<char> {
    "  ["@ + mode_letter_seq(mode) + "] "@ + if term.len() == 0 {
        fg_light_black_seq() + hint_seq(mode) + fg_reset_seq()
    } else {
        term
    }
}

/// One row of the list, without its line terminator: a marker and yellow for
/// the selected row, the default color for the others.
pub open spec fn list_item_seq(selected: bool, label: Seq<char>) -> Seq<char> {
    if selected {
        "→ "@ + fg_yellow_seq() + label + fg_reset_seq()
    } else {
        "  "@ + fg_reset_seq() + label + fg_reset_seq()
    }
}

/// The line terminator of a list row or of the header.
pub open spec fn row_end_seq() -> Seq<char> {
    "\n\r"@
}

/// The first `n` rows of the list, each with its terminator.
pub open spec fn list_rows_seq(projects: Seq<Seq<char>>, selected: nat, n: nat) -> Seq<char>
    decreases n,
{
    if n == 0 {
        Seq::empty()
    } else {
        list_rows_seq(projects, selected, (n - 1) as nat) + list_item_seq(
            (n - 1) as nat == selected,
            projects[n - 1],
        ) + row_end_seq()
    }
}

/// One whole frame: move to the anchor, clear below it, then the header, the
/// search line and one row per project.
pub open spec fn frame_seq(m: ScreenModel, anchor: (u16, u16)) -> Seq<char> {
    goto_seq(anchor.0, anchor.1) + clear_after_seq() + header_seq() + search_line_seq(
        m.mode,
        m.search_term,
    ) + "\r\n"@ + list_rows_seq(m.projects, m.selected, m.projects.len())
}

/// `n` empty lines, each a line feed and a carriage return.
pub open spec fn safe_area_seq(n: nat) -> Seq<char>
    decreases n,
{
    if n == 0 {
        Seq::empty()
    } else {
        safe_area_seq((n - 1) as nat) + row_end_seq()
    }
}

/// The search line for a mode and a search text.
pub fn search_line(mode: &UIMode, search_term: &String) -> (r: String)
    ensures
        r@ == search_line_seq(*mode, search_term@),
{
    let mut r = String::from_str("  [");
    match mode {
        UIMode::Insert => r.append("i"),
        UIMode::Normal => r.append("n"),
    }
    r.append("] ");
    if search_term.as_str().unicode_len() == 0 {
        let dim = fg_light_black();
        r.append(dim.as_str());
        match mode {
            UIMode::Insert => r.append("type to search"),
            UIMode::Normal => r.append("press i to search"),
        }
        let reset = fg_reset();
        r.append(reset.as_str());
    } else {
        r.append(search_term.as_str());
    }
    r
}

/// One row of the list for a label.
pub fn selectable_list_item(selected: bool, list_item_label: &str) -> (r: String)
    ensures
        r@ == list_item_seq(selected, list_item_label@),
{
    let reset = fg_reset();
    if selected {
        let mut r = String::from_str("→ ");
        let yellow = fg_yellow();
        r.append(yellow.as_str());
        r.append(list_item_label);
        r.append(reset.as_str());
        r
    } else {
        let mut r = String::from_str("  ");
        r.append(reset.as_str());
        r.append(list_item_label);
        r.append(reset.as_str());
        r
    }
}

/// The header line.
pub fn render_header() -> (r: String)
    ensures
        r@ == header_seq(),
{
    String::from_str("  ---------- projects ----------\n\r")
}

/// The search line of a state, with its terminator.
pub fn render_search(state: &ScreenState) -> (r: String)
    ensures
        r@ == search_line_seq(state@.mode, state@.search_term) + "\r\n"@,
{
    let mode = state.mode();
    let mut r = search_line(&mode, state.search_term());
    r.append("\r\n");
    r
}

/// One row per project, the selected one marked.
pub fn render_list(state: &ScreenState) -> (r: String)
    ensures
        r@ == list_rows_seq(state@.projects, state@.selected, state@.projects.len()),
{
    let projects = state.projects();
    let selected = state.selected_index();
    let ghost ps = state@.projects;
    let mut r = String::new();
    let mut i: usize = 0;
    while i < projects.len()
        invariant
            i <= projects@.len(),
            ps == projects@.map_values(|p: String| p@),
            selected as nat == state@.selected,
            r@ == list_rows_seq(ps, selected as nat, i as nat),
        decreases projects.len() - i,
    {
        let item = selectable_list_item(i == selected, projects[i].as_str());
        r.append(item.as_str());
        r.append("\n\r");
        i = i + 1;
    }
    r
}

/// `num_buffer_lines` empty lines, written before the anchor is taken so that
/// the frames below it fit on the screen.
pub fn render_safe_area(num_buffer_lines: u16) -> (r: String)
    ensures
        r@ == safe_area_seq(num_buffer_lines as nat),
{
    let mut r = String::new();
    let mut n: u16 = 0;
    while n < num_buffer_lines
        invariant
            n <= num_buffer_lines,
            r@ == safe_area_seq(n as nat),
        decreases num_buffer_lines - n,
    {
        r.append("\n\r");
        n = n + 1;
    }
    r
}

/// One whole frame of a state, drawn from the anchor.
pub fn render_state(state: &ScreenState, initial_cursor_pos: (u16, u16)) -> (r: String)
    ensures
        r@ == frame_seq(state@, initial_cursor_pos),
{
    let mut r = goto(initial_cursor_pos.0, initial_cursor_pos.1);
    let clear = clear_after_cursor();
    r.append(clear.as_str());
    let header = render_header();
    r.append(header.as_str());
    let search = render_search(state);
    r.append(search.as_str());
    let list = render_list(state);
    r.append(list.as_str());
    r
}

} // verus!
