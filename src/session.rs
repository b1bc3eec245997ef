//! The decisions of the event loop: what to write at startup, and for each
//! key, the next state and what to write before reading the next key.
use vstd::prelude::*;
use vstd::string::*;
use crate::render::{frame_seq, render_state};
use crate::screen::{step_model, Action, Key, ScreenState};
use crate::terminal::{hide_cursor, hide_cursor_seq, show_cursor, show_cursor_seq};

verus! {

/// How many empty lines are written below the prompt before the anchor is taken.
pub const SAFE_AREA_LINES: u16 = 10;

/// The anchor of every frame: the cursor position measured after the padding,
/// moved back up over the padding. `None` when the cursor stands higher than
/// the padding is tall, so that no anchor above it exists.
pub fn initial_anchor(cursor_pos: (u16, u16), num_lines: u16) -> (r: Option<(u16, u16)>)
    ensures
        cursor_pos.1 >= num_lines ==> r == Some((cursor_pos.0, (cursor_pos.1 - num_lines) as u16)),
        cursor_pos.1 < num_lines ==> r is None,
{
    if cursor_pos.1 >= num_lines {
        Some((cursor_pos.0, cursor_pos.1 - num_lines))
    } else {
        None
    }
}

/// What is written once the anchor is known: the cursor is hidden and the
/// first frame drawn.
pub fn begin(state: &ScreenState, anchor: (u16, u16)) -> (r: String)
    ensures
        r@ == hide_cursor_seq() + frame_seq(state@, anchor),
{
    let mut r = hide_cursor();
    let frame = render_state(state, anchor);
    r.append(frame.as_str());
    r
}

/// Handles one key. Returns what to write, and whether the loop reads another
/// key: after a redraw it does, and writes the new frame; after a quit it
/// stops, and writes only what shows the cursor again.
pub fn respond(state: &mut ScreenState, key: Key, anchor: (u16, u16)) -> (r: (String, bool))
    requires
        old(state).wf(),
    ensures
        final(state).wf(),
        final(state)@ == step_model(old(state)@, key).0,
        r.1 == (step_model(old(state)@, key).1 == Action::Redraw),
        r.1 ==> r.0@ == frame_seq(final(state)@, anchor),
        !r.1 ==> r.0@ == show_cursor_seq(),
{
    match state.handle_key(key) {
        Action::Redraw => (render_state(state, anchor), true),
        Action::Quit => (show_cursor(), false),
    }
}

} // verus!
