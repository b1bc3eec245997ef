//! Laws of the navigator, stated over the models and proved.
use vstd::prelude::*;
use crate::render::{frame_seq, list_rows_seq, search_line_seq, header_seq};
use crate::screen::{
    backspace_term, down_model, search_model, step_model, up_model, Action, Key, ScreenModel, UIMode,
};
use crate::terminal::{clear_after_seq, decimal, digit_char, goto_seq, show_cursor_seq};

verus! {

/// The model after a sequence of keys, each handled in turn.
pub open spec fn keys_model(m: ScreenModel, keys: Seq<Key>) -> ScreenModel
    decreases keys.len(),
{
    if keys.len() == 0 {
        m
    } else {
        step_model(keys_model(m, keys.drop_last()), keys.last()).0
    }
}

/// Whatever keys arrive, a well-formed selection stays within the list (at
/// zero for an empty list), and the list itself never changes.
pub proof fn lemma_keys_keep_selection_in_bounds(m: ScreenModel, keys: Seq<Key>)
    requires
        m.wf(),
    ensures
        keys_model(m, keys).wf(),
        keys_model(m, keys).projects == m.projects,
        m.projects.len() == 0 ==> keys_model(m, keys).selected == 0,
    decreases keys.len(),
{
    if keys.len() > 0 {
        lemma_keys_keep_selection_in_bounds(m, keys.drop_last());
    }
}

/// Moving up from the first row leaves the model as it is.
pub proof fn lemma_up_at_top_is_no_op(m: ScreenModel)
    requires
        m.wf(),
        m.selected == 0,
    ensures
        up_model(m) == m,
        m.mode == UIMode::Normal ==> step_model(m, Key::Up) == (m, Action::Redraw),
{
}

/// Moving down from the last row leaves the model as it is.
pub proof fn lemma_down_at_bottom_is_no_op(m: ScreenModel)
    requires
        m.wf(),
        m.projects.len() > 0,
        m.selected == m.projects.len() - 1,
    ensures
        down_model(m) == m,
        m.mode == UIMode::Normal ==> step_model(m, Key::Down) == (m, Action::Redraw),
{
}

/// Entering the search with `i` or `s` and leaving it with `Esc` gives back the
/// model exactly: the selection and the search text are kept.
pub proof fn lemma_search_round_trip(m: ScreenModel, enter: Key)
    requires
        m.mode == UIMode::Normal,
        enter == Key::Char('i') || enter == Key::Char('s'),
    ensures
        step_model(m, enter).0.mode == UIMode::Insert,
        step_model(m, enter).0.search_term == m.search_term,
        step_model(m, enter).0.selected == m.selected,
        step_model(step_model(m, enter).0, Key::Esc).0 == m,
{
}

/// The key that types a character.
pub open spec fn char_key(c: char) -> Key {
    Key::Char(c)
}

/// The keys that type the given characters.
pub open spec fn typed_keys(cs: Seq<char>) -> Seq<Key> {
    Seq::new(cs.len(), |i: int| char_key(cs[i]))
}

/// In `Insert` mode, typing characters appends them to the search text and
/// changes nothing else.
pub proof fn lemma_typing_appends(m: ScreenModel, cs: Seq<char>)
    requires
        m.mode == UIMode::Insert,
    ensures
        keys_model(m, typed_keys(cs)) == search_model(m, m.search_term + cs),
    decreases cs.len(),
{
    if cs.len() == 0 {
        assert(typed_keys(cs) =~= Seq::<Key>::empty());
        assert(m.search_term + cs =~= m.search_term);
    } else {
        let init = cs.drop_last();
        lemma_typing_appends(m, init);
        assert(typed_keys(cs).drop_last() =~= typed_keys(init));
        assert((m.search_term + init).push(cs.last()) =~= m.search_term + cs);
    }
}

/// Entering the search, typing, and leaving it with `Esc` comes back to
/// `Normal` mode on the same selection, with the typed text kept as the search.
pub proof fn lemma_typed_search_round_trip(m: ScreenModel, enter: Key, cs: Seq<char>)
    requires
        m.mode == UIMode::Normal,
        enter == Key::Char('i') || enter == Key::Char('s'),
    ensures
        ({
            let typed = keys_model(step_model(m, enter).0, typed_keys(cs));
            let back = step_model(typed, Key::Esc).0;
            &&& typed.mode == UIMode::Insert
            &&& back.mode == UIMode::Normal
            &&& back.selected == m.selected
            &&& back.projects == m.projects
            &&& back.search_term == m.search_term + cs
        }),
{
    lemma_typing_appends(step_model(m, enter).0, cs);
}

/// Leaving the search with `Esc` keeps its text and the selection.
pub proof fn lemma_esc_keeps_search(m: ScreenModel)
    requires
        m.mode == UIMode::Insert,
    ensures
        step_model(m, Key::Esc).0.mode == UIMode::Normal,
        step_model(m, Key::Esc).0.search_term == m.search_term,
        step_model(m, Key::Esc).0.selected == m.selected,
{
}

/// Typing a character and then `Backspace` restores the search text, and the
/// whole model.
pub proof fn lemma_type_then_backspace(m: ScreenModel, c: char)
    requires
        m.mode == UIMode::Insert,
    ensures
        step_model(step_model(m, Key::Char(c)).0, Key::Backspace).0 == m,
{
    assert(backspace_term(m.search_term.push(c)) =~= m.search_term);
}

/// `Backspace` on an empty search text changes nothing.
pub proof fn lemma_backspace_on_empty_is_no_op(m: ScreenModel)
    requires
        m.mode == UIMode::Insert,
        m.search_term.len() == 0,
    ensures
        step_model(m, Key::Backspace).0 == m,
{
}

/// `q` in `Normal` mode ends the loop and changes nothing.
pub proof fn lemma_quit_in_normal(m: ScreenModel)
    requires
        m.mode == UIMode::Normal,
    ensures
        step_model(m, Key::Char('q')) == (m, Action::Quit),
{
}

/// The frame of an empty list holds the header and the search line only.
pub proof fn lemma_empty_list_frame(m: ScreenModel, anchor: (u16, u16))
    requires
        m.projects.len() == 0,
    ensures
        frame_seq(m, anchor) == goto_seq(anchor.0, anchor.1) + clear_after_seq() + header_seq()
            + search_line_seq(m.mode, m.search_term) + "\r\n"@,
{
    assert(list_rows_seq(m.projects, m.selected, 0) =~= Seq::<char>::empty());
    let pre = goto_seq(anchor.0, anchor.1) + clear_after_seq() + header_seq() + search_line_seq(
        m.mode,
        m.search_term,
    ) + "\r\n"@;
    assert(pre + Seq::<char>::empty() =~= pre);
}

/// A run of the event loop over the keys that arrive, each answered as
/// `respond` answers it: the model at the end, what was written for each key
/// handled, and whether the loop still reads keys. Keys after a quit are not
/// read.
pub open spec fn session_model(m: ScreenModel, keys: Seq<Key>, anchor: (u16, u16)) -> (
    ScreenModel,
    Seq<Seq<char>>,
    bool,
)
    decreases keys.len(),
{
    if keys.len() == 0 {
        (m, Seq::empty(), true)
    } else {
        let (p, outs, running) = session_model(m, keys.drop_last(), anchor);
        if !running {
            (p, outs, false)
        } else {
            let (n, a) = step_model(p, keys.last());
            if a == Action::Redraw {
                (n, outs.push(frame_seq(n, anchor)), true)
            } else {
                (n, outs.push(show_cursor_seq()), false)
            }
        }
    }
}

/// How many of the writes show the cursor.
pub open spec fn count_cursor_shows(outs: Seq<Seq<char>>) -> nat
    decreases outs.len(),
{
    if outs.len() == 0 {
        0
    } else {
        count_cursor_shows(outs.drop_last()) + if outs.last() == show_cursor_seq() {
            1nat
        } else {
            0nat
        }
    }
}

/// The decimal digits of a number start with a digit.
pub proof fn lemma_decimal_starts_with_digit(n: nat)
    ensures
        decimal(n).len() >= 1,
        exists|d: nat| d < 10 && decimal(n)[0] == digit_char(d),
    decreases n,
{
    if n < 10 {
        assert(decimal(n)[0] == digit_char(n));
    } else {
        lemma_decimal_starts_with_digit(n / 10);
        let d = choose|d: nat| d < 10 && decimal(n / 10)[0] == digit_char(d);
        assert(decimal(n)[0] == digit_char(d));
    }
}

/// No frame is mistaken for the write that shows the cursor: a frame starts
/// with a cursor move, whose third character is a digit.
pub proof fn lemma_frame_is_not_cursor_show(m: ScreenModel, anchor: (u16, u16))
    ensures
        frame_seq(m, anchor) != show_cursor_seq(),
{
    reveal_strlit("\x1B[");
    reveal_strlit("\x1B[?25h");
    lemma_decimal_starts_with_digit(anchor.1 as nat);
    let f = frame_seq(m, anchor);
    let d = choose|d: nat| d < 10 && decimal(anchor.1 as nat)[0] == digit_char(d);
    assert(f[2] == decimal(anchor.1 as nat)[0]);
    assert(show_cursor_seq()[2] == '?');
}

/// While the loop runs nothing has shown the cursor; once it has stopped, the
/// cursor has been shown exactly once, by the last write.
pub proof fn lemma_session_shows_cursor_once(m: ScreenModel, keys: Seq<Key>, anchor: (u16, u16))
    ensures
        ({
            let (_, outs, running) = session_model(m, keys, anchor);
            &&& count_cursor_shows(outs) == if running { 0nat } else { 1nat }
            &&& !running ==> outs.len() > 0 && outs.last() == show_cursor_seq()
        }),
    decreases keys.len(),
{
    if keys.len() > 0 {
        lemma_session_shows_cursor_once(m, keys.drop_last(), anchor);
        let (p, outs, running) = session_model(m, keys.drop_last(), anchor);
        if running {
            let (n, a) = step_model(p, keys.last());
            if a == Action::Redraw {
                lemma_frame_is_not_cursor_show(n, anchor);
                assert(outs.push(frame_seq(n, anchor)).drop_last() =~= outs);
            } else {
                assert(outs.push(show_cursor_seq()).drop_last() =~= outs);
            }
        }
    }
}

/// `q` pressed in `Normal` mode while the loop runs stops it.
pub proof fn lemma_quit_ends_session(m: ScreenModel, keys: Seq<Key>, anchor: (u16, u16))
    requires
        keys.len() > 0,
        keys.last() == Key::Char('q'),
        session_model(m, keys.drop_last(), anchor).2,
        session_model(m, keys.drop_last(), anchor).0.mode == UIMode::Normal,
    ensures
        !session_model(m, keys, anchor).2,
        session_model(m, keys, anchor).0 == session_model(m, keys.drop_last(), anchor).0,
{
}

} // verus!
