use vstd::prelude::*;
use vstd::string::*;

verus! {

/// Whether the user is navigating the list or typing a search.
#[derive(PartialEq, Eq, Structural, Clone, Copy, Debug)]
pub enum UIMode {
    Normal,
    Insert,
}

/// A decoded key event, as the dispatcher distinguishes them.
#[derive(PartialEq, Eq, Structural, Clone, Copy, Debug)]
pub enum Key {
    Char(char),
    Alt(char),
    Ctrl(char),
    Up,
    Down,
    Left,
    Right,
    Backspace,
    Esc,
    Other,
}

/// What the event loop does after a key has been handled.
#[derive(PartialEq, Eq, Structural, Clone, Copy, Debug)]
pub enum Action {
    /// Draw the new state and wait for the next key.
    Redraw,
    /// Leave the loop.
    Quit,
}

/// The abstract value of a `ScreenState`.
pub struct ScreenModel {
    pub mode: UIMode,
    pub search_term: Seq<char>,
    pub selected: nat,
    pub projects: Seq<Seq<char>>,
}

impl ScreenModel {
    /// The selection points into the list, or is zero when the list is empty.
    pub open spec fn wf(self) -> bool {
        if self.projects.len() == 0 {
            self.selected == 0
        } else {
            self.selected < self.projects.len()
        }
    }
}

/// The model after moving the selection one row up, clamped at the top.
pub open spec fn up_model(m: ScreenModel) -> ScreenModel {
    ScreenModel {
        selected: if m.projects.len() == 0 || m.selected == 0 {
            0
        } else {
            (m.selected - 1) as nat
        },
        ..m
    }
}

/// The model after moving the selection one row down, clamped at the last row.
pub open spec fn down_model(m: ScreenModel) -> ScreenModel {
    ScreenModel {
        selected: if m.projects.len() == 0 {
            0
        } else if m.selected + 1 >= m.projects.len() {
            (m.projects.len() - 1) as nat
        } else {
            m.selected + 1
        },
        ..m
    }
}

/// The model in `Insert` mode with the given search text.
pub open spec fn search_model(m: ScreenModel, term: Seq<char>) -> ScreenModel {
    ScreenModel { mode: UIMode::Insert, search_term: term, ..m }
}

/// The model back in `Normal` mode; the search text is kept.
pub open spec fn normal_model(m: ScreenModel) -> ScreenModel {
    ScreenModel { mode: UIMode::Normal, ..m }
}

/// The search text with its last character removed, if it has one.
pub open spec fn backspace_term(t: Seq<char>) -> Seq<char> {
    if t.len() == 0 {
        t
    } else {
        t.drop_last()
    }
}

/// The transition that a key makes from a model, and what the loop does next.
pub open spec fn step_model(m: ScreenModel, key: Key) -> (ScreenModel, Action) {
    match m.mode {
        UIMode::Normal => match key {
            Key::Char('k') | Key::Up => (up_model(m), Action::Redraw),
            Key::Char('j') | Key::Down => (down_model(m), Action::Redraw),
            Key::Char('i') | Key::Char('s') => (search_model(m, m.search_term), Action::Redraw),
            Key::Char('q') => (m, Action::Quit),
            _ => (m, Action::Redraw),
        },
        UIMode::Insert => match key {
            Key::Esc => (normal_model(m), Action::Redraw),
            Key::Backspace => (search_model(m, backspace_term(m.search_term)), Action::Redraw),
            Key::Char(c) => (search_model(m, m.search_term.push(c)), Action::Redraw),
            _ => (m, Action::Redraw),
        },
    }
}

/// Relies on `String::push`: the character is appended at the end.
#[verifier::external_body]
fn push_char(s: &mut String, c: char)
    ensures
        final(s)@ == old(s)@.push(c),
{
    s.push(c)
}

/// The whole mutable model of the navigator.
pub struct ScreenState {
    mode: UIMode,
    search_term: String,
    selected_project_index: usize,
    projects: Vec<String>,
}

impl View for ScreenState {
    type V = ScreenModel;

    closed spec fn view(&self) -> ScreenModel {
        ScreenModel {
            mode: self.mode,
            search_term: self.search_term@,
            selected: self.selected_project_index as nat,
            projects: self.projects@.map_values(|p: String| p@),
        }
    }
}

impl ScreenState {
    /// The state is well formed when its model is.
    pub open spec fn wf(&self) -> bool {
        self@.wf()
    }

    /// A state in `Normal` mode, with an empty search and the first of four
    /// sample projects selected.
    pub fn new() -> (r: Self)
        ensures
            r.wf(),
            r@.mode == UIMode::Normal,
            r@.search_term.len() == 0,
            r@.selected == 0,
            r@.projects == seq!["one"@, "two"@, "three"@, "four"@],
    {
        let projects = vec![
            String::from_str("one"),
            String::from_str("two"),
            String::from_str("three"),
            String::from_str("four"),
        ];
        let r = ScreenState {
            mode: UIMode::Normal,
            search_term: String::new(),
            selected_project_index: 0,
            projects,
        };
        assert(r@.projects =~= seq!["one"@, "two"@, "three"@, "four"@]);
        r
    }

    /// A state in `Normal` mode, with an empty search and the first row
    /// selected, over the given list.
    pub fn with_projects(projects: Vec<String>) -> (r: Self)
        ensures
            r.wf(),
            r@.mode == UIMode::Normal,
            r@.search_term.len() == 0,
            r@.selected == 0,
            r@.projects == projects@.map_values(|p: String| p@),
    {
        ScreenState {
            mode: UIMode::Normal,
            search_term: String::new(),
            selected_project_index: 0,
            projects,
        }
    }

    /// The current mode.
    pub fn mode(&self) -> (r: UIMode)
        ensures
            r == self@.mode,
    {
        self.mode
    }

    /// The current search text.
    pub fn search_term(&self) -> (r: &String)
        ensures
            r@ == self@.search_term,
    {
        &self.search_term
    }

    /// The index of the selected row.
    pub fn selected_index(&self) -> (r: usize)
        ensures
            r as nat == self@.selected,
    {
        self.selected_project_index
    }

    /// The project names, in order.
    pub fn projects(&self) -> (r: &Vec<String>)
        ensures
            r@.map_values(|p: String| p@) == self@.projects,
    {
        &self.projects
    }

    /// Handles one key: makes the transition of `step_model` and says whether
    /// the loop goes on.
    pub fn handle_key(&mut self, key: Key) -> (a: Action)
        requires
            old(self).wf(),
        ensures
            final(self).wf(),
            (final(self)@, a) == step_model(old(self)@, key),
    {
        match self.mode {
            UIMode::Normal => match key {
                Key::Char('k') | Key::Up => {
                    move_up_list(self);
                    Action::Redraw
                },
                Key::Char('j') | Key::Down => {
                    move_down_list(self);
                    Action::Redraw
                },
                Key::Char('i') | Key::Char('s') => {
                    let term = self.search_term.clone();
                    search_for(self, term);
                    Action::Redraw
                },
                Key::Char('q') => Action::Quit,
                _ => Action::Redraw,
            },
            UIMode::Insert => match key {
                Key::Esc => {
                    normal_mode(self);
                    Action::Redraw
                },
                Key::Backspace => {
                    let n = self.search_term.as_str().unicode_len();
                    let new_term = if n > 0 {
                        String::from_str(self.search_term.as_str().substring_char(0, n - 1))
                    } else {
                        self.search_term.clone()
                    };
                    search_for(self, new_term);
                    Action::Redraw
                },
                Key::Char(c) => {
                    let mut new_term = self.search_term.clone();
                    push_char(&mut new_term, c);
                    search_for(self, new_term);
                    Action::Redraw
                },
                _ => Action::Redraw,
            },
        }
    }
}

/// Moves the selection one row up; it stays on the first row.
pub fn move_up_list(state: &mut ScreenState)
    requires
        old(state).wf(),
    ensures
        final(state).wf(),
        final(state)@ == up_model(old(state)@),
{
    let new_index = if state.projects.len() == 0 {
        0
    } else if state.selected_project_index == 0 {
        0
    } else {
        state.selected_project_index - 1
    };
    state.selected_project_index = new_index;
}

/// Moves the selection one row down; it stays on the last row.
pub fn move_down_list(state: &mut ScreenState)
    requires
        old(state).wf(),
    ensures
        final(state).wf(),
        final(state)@ == down_model(old(state)@),
{
    let n = state.projects.len();
    let new_index = if n == 0 {
        0
    } else if state.selected_project_index >= n - 1 {
        n - 1
    } else {
        state.selected_project_index + 1
    };
    state.selected_project_index = new_index;
}

/// Enters `Insert` mode with the given search text.
pub fn search_for(state: &mut ScreenState, search_term: String)
    requires
        old(state).wf(),
    ensures
        final(state).wf(),
        final(state)@ == search_model(old(state)@, search_term@),
{
    state.mode = UIMode::Insert;
    state.search_term = search_term;
}

/// Returns to `Normal` mode, keeping the search text.
pub fn normal_mode(state: &mut ScreenState)
    requires
        old(state).wf(),
    ensures
        final(state).wf(),
        final(state)@ == normal_model(old(state)@),
{
    state.mode = UIMode::Normal;
}

} // verus!
