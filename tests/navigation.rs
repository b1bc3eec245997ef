use project_cli::{
    begin, initial_anchor, move_down_list, move_up_list, normal_mode, render_header, render_list,
    render_safe_area, render_search, render_state, respond, search_for, search_line,
    selectable_list_item, Action, Key, ScreenState, UIMode, SAFE_AREA_LINES,
};

const DIM: &str = "\x1b[38;5;8m";
const YELLOW: &str = "\x1b[38;5;3m";
const RESET: &str = "\x1b[39m";
const HEADER: &str = "  ---------- projects ----------\n\r";

fn names(v: &[&str]) -> Vec<String> {
    v.iter().map(|s| s.to_string()).collect()
}

fn press(state: &mut ScreenState, keys: &[Key]) {
    for k in keys {
        state.handle_key(*k);
    }
}

#[test]
fn new_state_is_normal_on_first_row() {
    let s = ScreenState::new();
    assert_eq!(s.mode(), UIMode::Normal);
    assert_eq!(s.search_term(), "");
    assert_eq!(s.selected_index(), 0);
    assert_eq!(s.projects(), &names(&["one", "two", "three", "four"]));
}

#[test]
fn down_twice_selects_third_project() {
    let mut s = ScreenState::with_projects(names(&["one", "two", "three", "four"]));
    press(&mut s, &[Key::Down, Key::Down]);
    assert_eq!(s.selected_index(), 2);
    let list = render_list(&s);
    assert!(list.contains(&format!("→ {}three{}\n\r", YELLOW, RESET)));
    assert!(list.contains(&format!("  {}two{}\n\r", RESET, RESET)));
}

#[test]
fn vim_keys_move_like_arrows() {
    let mut s = ScreenState::new();
    press(&mut s, &[Key::Char('j'), Key::Char('j'), Key::Char('j'), Key::Char('k')]);
    assert_eq!(s.selected_index(), 2);
}

#[test]
fn empty_list_keeps_index_zero_and_renders_no_rows() {
    let mut s = ScreenState::with_projects(Vec::new());
    press(&mut s, &[Key::Up, Key::Down, Key::Char('j'), Key::Down, Key::Char('k'), Key::Up]);
    assert_eq!(s.selected_index(), 0);
    let frame = render_state(&s, (1, 1));
    let expected = format!(
        "\x1b[1;1H\x1b[J{}  [n] {}press i to search{}\r\n",
        HEADER, DIM, RESET
    );
    assert_eq!(frame, expected);
    assert_eq!(render_list(&s), "");
}

#[test]
fn up_at_top_stays() {
    let mut s = ScreenState::new();
    move_up_list(&mut s);
    assert_eq!(s.selected_index(), 0);
}

#[test]
fn down_at_bottom_stays() {
    let mut s = ScreenState::new();
    for _ in 0..10 {
        move_down_list(&mut s);
    }
    assert_eq!(s.selected_index(), 3);
    move_down_list(&mut s);
    assert_eq!(s.selected_index(), 3);
    move_up_list(&mut s);
    assert_eq!(s.selected_index(), 2);
}

#[test]
fn insert_typing_then_esc_keeps_selection_and_text() {
    let mut s = ScreenState::new();
    press(&mut s, &[Key::Down]);
    press(&mut s, &[Key::Char('i'), Key::Char('a'), Key::Char('b')]);
    assert_eq!(s.mode(), UIMode::Insert);
    assert_eq!(s.search_term(), "ab");
    press(&mut s, &[Key::Esc]);
    assert_eq!(s.mode(), UIMode::Normal);
    assert_eq!(s.selected_index(), 1);
    assert_eq!(s.search_term(), "ab");
}

#[test]
fn s_reenters_search_with_previous_text() {
    let mut s = ScreenState::new();
    press(&mut s, &[Key::Char('s'), Key::Char('x'), Key::Esc, Key::Char('s'), Key::Char('y')]);
    assert_eq!(s.mode(), UIMode::Insert);
    assert_eq!(s.search_term(), "xy");
}

#[test]
fn navigation_keys_are_text_in_insert_mode() {
    let mut s = ScreenState::new();
    press(&mut s, &[Key::Char('i'), Key::Char('j'), Key::Char('q'), Key::Down]);
    assert_eq!(s.search_term(), "jq");
    assert_eq!(s.selected_index(), 0);
    assert_eq!(s.mode(), UIMode::Insert);
}

#[test]
fn typing_then_backspace_restores_text() {
    let mut s = ScreenState::new();
    press(&mut s, &[Key::Char('i'), Key::Char('a')]);
    press(&mut s, &[Key::Char('é'), Key::Backspace]);
    assert_eq!(s.search_term(), "a");
    press(&mut s, &[Key::Backspace]);
    assert_eq!(s.search_term(), "");
    press(&mut s, &[Key::Backspace]);
    assert_eq!(s.search_term(), "");
    assert_eq!(s.mode(), UIMode::Insert);
}

#[test]
fn other_keys_change_nothing() {
    let mut s = ScreenState::new();
    press(&mut s, &[Key::Left, Key::Right, Key::Ctrl('c'), Key::Alt('x'), Key::Char('z')]);
    assert_eq!(s.mode(), UIMode::Normal);
    assert_eq!(s.selected_index(), 0);
    press(&mut s, &[Key::Char('i'), Key::Up, Key::Left, Key::Other, Key::Alt('a')]);
    assert_eq!(s.mode(), UIMode::Insert);
    assert_eq!(s.search_term(), "");
}

#[test]
fn quit_stops_loop_and_shows_cursor_once() {
    let mut s = ScreenState::new();
    let keys = [Key::Char('j'), Key::Char('i'), Key::Char('q'), Key::Esc, Key::Char('q'), Key::Down];
    let mut outputs: Vec<String> = Vec::new();
    for k in keys.iter() {
        let (out, go_on) = respond(&mut s, *k, (1, 1));
        outputs.push(out);
        if !go_on {
            break;
        }
    }
    assert_eq!(outputs.len(), 5);
    let shows = outputs.iter().filter(|o| o.contains("\x1b[?25h")).count();
    assert_eq!(shows, 1);
    assert_eq!(outputs[4], "\x1b[?25h");
    assert_eq!(s.selected_index(), 1);
    assert_eq!(s.handle_key(Key::Char('q')), Action::Quit);
}

#[test]
fn respond_redraws_the_new_state() {
    let mut s = ScreenState::new();
    let (out, go_on) = respond(&mut s, Key::Down, (3, 7));
    assert!(go_on);
    assert_eq!(out, render_state(&s, (3, 7)));
    assert!(out.starts_with("\x1b[7;3H\x1b[J"));
}

#[test]
fn search_line_shows_hint_or_text() {
    assert_eq!(
        search_line(&UIMode::Normal, &String::new()),
        format!("  [n] {}press i to search{}", DIM, RESET)
    );
    assert_eq!(
        search_line(&UIMode::Insert, &String::new()),
        format!("  [i] {}type to search{}", DIM, RESET)
    );
    assert_eq!(search_line(&UIMode::Insert, &"abc".to_string()), "  [i] abc");
    assert_eq!(search_line(&UIMode::Normal, &"abc".to_string()), "  [n] abc");
}

#[test]
fn list_items_mark_only_the_selection() {
    assert_eq!(selectable_list_item(true, "two"), format!("→ {}two{}", YELLOW, RESET));
    assert_eq!(selectable_list_item(false, "two"), format!("  {}two{}", RESET, RESET));
}

#[test]
fn full_frame_of_the_sample_state() {
    let mut s = ScreenState::new();
    press(&mut s, &[Key::Down]);
    let frame = render_state(&s, (2, 15));
    let expected = format!(
        "\x1b[15;2H\x1b[J{}  [n] {}press i to search{}\r\n  {}one{}\n\r→ {}two{}\n\r  {}three{}\n\r  {}four{}\n\r",
        HEADER, DIM, RESET, RESET, RESET, YELLOW, RESET, RESET, RESET, RESET, RESET
    );
    assert_eq!(frame, expected);
}

#[test]
fn header_and_search_lines_end_with_terminators() {
    assert_eq!(render_header(), HEADER);
    let mut s = ScreenState::new();
    press(&mut s, &[Key::Char('i'), Key::Char('z')]);
    assert_eq!(render_search(&s), "  [i] z\r\n");
}

#[test]
fn safe_area_is_empty_lines() {
    assert_eq!(render_safe_area(3), "\n\r\n\r\n\r");
    assert_eq!(render_safe_area(0), "");
    assert_eq!(render_safe_area(SAFE_AREA_LINES).len(), 20);
}

#[test]
fn anchor_moves_up_over_the_padding() {
    assert_eq!(initial_anchor((4, 30), 10), Some((4, 20)));
    assert_eq!(initial_anchor((4, 10), 10), Some((4, 0)));
    assert_eq!(initial_anchor((4, 9), 10), None);
}

#[test]
fn begin_hides_cursor_then_draws() {
    let s = ScreenState::new();
    let out = begin(&s, (1, 2));
    assert_eq!(out, format!("\x1b[?25l{}", render_state(&s, (1, 2))));
}

#[test]
fn free_transitions_follow_the_modes() {
    let mut s = ScreenState::new();
    search_for(&mut s, "pro".to_string());
    assert_eq!(s.mode(), UIMode::Insert);
    assert_eq!(s.search_term(), "pro");
    normal_mode(&mut s);
    assert_eq!(s.mode(), UIMode::Normal);
    assert_eq!(s.search_term(), "pro");
}

#[test]
fn every_up_down_sequence_stays_in_bounds() {
    for len in 0..4usize {
        let projects: Vec<String> = (0..len).map(|i| format!("p{}", i)).collect();
        for start in 0..len.max(1) {
            for bits in 0u32..(1 << 7) {
                let mut s = ScreenState::with_projects(projects.clone());
                press(&mut s, &vec![Key::Down; start]);
                assert_eq!(s.selected_index(), start);
                let mut expected = start as i64;
                for step in 0..7 {
                    if bits & (1 << step) != 0 {
                        s.handle_key(Key::Up);
                        expected = (expected - 1).max(0);
                    } else {
                        s.handle_key(Key::Down);
                        expected = (expected + 1).min(len.max(1) as i64 - 1);
                    }
                    assert_eq!(s.selected_index() as i64, expected);
                    assert!(s.selected_index() < len.max(1));
                }
            }
        }
    }
}
