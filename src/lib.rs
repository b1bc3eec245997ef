//! A terminal list navigator: a selection state machine driven by key events,
//! and a renderer that turns its state into one anchored, cleared redraw.

mod laws;
mod render;
mod screen;
mod session;
mod terminal;

pub use laws::{
    char_key, count_cursor_shows, keys_model, lemma_backspace_on_empty_is_no_op,
    lemma_decimal_starts_with_digit, lemma_down_at_bottom_is_no_op, lemma_empty_list_frame,
    lemma_esc_keeps_search, lemma_frame_is_not_cursor_show, lemma_keys_keep_selection_in_bounds,
    lemma_quit_ends_session, lemma_quit_in_normal, lemma_search_round_trip,
    lemma_session_shows_cursor_once, lemma_type_then_backspace, lemma_typed_search_round_trip,
    lemma_typing_appends, lemma_up_at_top_is_no_op, session_model, typed_keys,
};
pub use render::{
    frame_seq, header_seq, hint_seq, list_item_seq, list_rows_seq, mode_letter_seq, render_header,
    render_list, render_safe_area, render_search, render_state, row_end_seq, safe_area_seq,
    search_line, search_line_seq, selectable_list_item,
};
pub use screen::{
    backspace_term, down_model, move_down_list, move_up_list, normal_mode, normal_model,
    search_for, search_model, step_model, up_model, Action, Key, ScreenModel, ScreenState, UIMode,
};
pub use session::{begin, initial_anchor, respond, SAFE_AREA_LINES};
pub use terminal::{
    clear_after_seq, decimal, digit_char, fg_light_black_seq, fg_reset_seq, fg_yellow_seq,
    goto_seq, hide_cursor_seq, show_cursor_seq,
};
