use vstd::prelude::*;
use crate::parser::{entry_label, format_entry, Project};
use crate::text::string_of;

verus! {

/// Which part of the interface the keys go to.
#[derive(PartialEq, Eq, Structural, Clone, Copy, Debug)]
pub enum InputMode {
    Normal,
    Editing,
    SearchBarSelecting,
    InstalledModsSelecting,
    Downloading,
}

/// A key as the interface tells them apart.
#[derive(PartialEq, Eq, Structural, Clone, Copy, Debug)]
pub enum Key {
    Char(char),
    Enter,
    Backspace,
    Left,
    Right,
    Up,
    Down,
    Esc,
    Other,
}

/// A listed project: the line shown for it and its id.
pub struct Entry {
    pub label: String,
    pub id: String,
}

/// What the caller has to do after a key was handled.
pub enum Action {
    Nothing,
    Quit,
    /// Run a search for this query, then hand the projects to `App::send_query`.
    Search(String),
    /// Resolve and download the projects with these ids, in this order, then
    /// call `App::finish_download`.
    Download(Vec<String>),
}

/// The abstract state of the interface.
pub struct AppView {
    pub mode: InputMode,
    pub input: Seq<char>,
    pub cursor: nat,
    pub version: Seq<char>,
    pub search: Seq<(Seq<char>, Seq<char>)>,
    pub search_index: nat,
    pub install: Seq<(Seq<char>, Seq<char>)>,
    pub install_index: nat,
}

/// The abstract form of an `Action`.
pub enum ActionView {
    Nothing,
    Quit,
    Search(Seq<char>),
    Download(Seq<Seq<char>>),
}

pub open spec fn entry_view(e: Entry) -> (Seq<char>, Seq<char>) {
    (e.label@, e.id@)
}

/// The entry under which a project is listed.
pub open spec fn entry_of(p: Project) -> (Seq<char>, Seq<char>) {
    (entry_label(p.title@, p.downloads as int, p.id@), p.id@)
}

/// The state after the results of a search arrive: they fill the search
/// list, highlighted from the top, and the editor is cleared.
pub open spec fn after_search(s: AppView, results: Seq<Project>) -> AppView {
    AppView {
        mode: InputMode::SearchBarSelecting,
        input: Seq::empty(),
        cursor: 0,
        search: results.map_values(|p: Project| entry_of(p)),
        search_index: 0,
        ..s
    }
}

/// The state after a download pass: the queue is emptied.
pub open spec fn after_download(s: AppView) -> AppView {
    AppView { install: Seq::empty(), install_index: 0, ..s }
}

pub open spec fn action_view(a: Action) -> ActionView {
    match a {
        Action::Nothing => ActionView::Nothing,
        Action::Quit => ActionView::Quit,
        Action::Search(q) => ActionView::Search(q@),
        Action::Download(ids) => ActionView::Download(ids@.map_values(|s: String| s@)),
    }
}

/// The cursor lies within the text, and each list index on an entry, or at
/// 0 for an empty search list, or on the download slot after the last
/// installation entry.
pub open spec fn wf(s: AppView) -> bool {
    &&& s.cursor <= s.input.len()
    &&& if s.search.len() == 0 {
        s.search_index == 0
    } else {
        s.search_index < s.search.len()
    }
    &&& s.install_index <= s.install.len()
}

pub open spec fn insert_char(s: AppView, c: char) -> AppView {
    AppView { input: s.input.insert(s.cursor as int, c), cursor: s.cursor + 1, ..s }
}

pub open spec fn delete_char_before(s: AppView) -> AppView {
    if s.cursor > 0 {
        AppView { input: s.input.remove(s.cursor - 1), cursor: (s.cursor - 1) as nat, ..s }
    } else {
        s
    }
}

pub open spec fn cursor_left(s: AppView) -> AppView {
    AppView { cursor: if s.cursor > 0 { (s.cursor - 1) as nat } else { 0 }, ..s }
}

pub open spec fn cursor_right(s: AppView) -> AppView {
    AppView {
        cursor: if s.cursor + 1 <= s.input.len() { s.cursor + 1 } else { s.input.len() },
        ..s
    }
}

pub open spec fn with_mode(s: AppView, m: InputMode) -> AppView {
    AppView { mode: m, ..s }
}

/// The highlighted search result joins the installation queue.
pub open spec fn commit_selection(s: AppView) -> AppView {
    if s.search.len() > 0 {
        AppView {
            mode: InputMode::Normal,
            install: s.install.push(s.search[s.search_index as int]),
            search: Seq::empty(),
            search_index: 0,
            ..s
        }
    } else {
        s
    }
}

/// The entry under the installation cursor leaves the queue.
pub open spec fn remove_selected(s: AppView) -> AppView {
    if s.install_index < s.install.len() {
        AppView {
            install: s.install.remove(s.install_index as int),
            install_index: if s.install_index > 0 { (s.install_index - 1) as nat } else { 0 },
            ..s
        }
    } else {
        s
    }
}

/// The download slot is highlighted and the queue is not empty.
pub open spec fn download_ready(s: AppView) -> bool {
    s.install_index == s.install.len() && s.install.len() > 0
}

pub open spec fn ids_of(entries: Seq<(Seq<char>, Seq<char>)>) -> Seq<Seq<char>> {
    entries.map_values(|e: (Seq<char>, Seq<char>)| e.1)
}

/// The state that follows `s` when `key` arrives (`pressed` tells a press
/// from a release or a repeat), with what the caller has to do.
pub open spec fn step(s: AppView, key: Key, pressed: bool) -> (AppView, ActionView) {
    match s.mode {
        InputMode::Normal => match key {
            Key::Char('e') => (with_mode(s, InputMode::Editing), ActionView::Nothing),
            Key::Char('q') => (s, ActionView::Quit),
            Key::Right => (with_mode(s, InputMode::InstalledModsSelecting), ActionView::Nothing),
            _ => (s, ActionView::Nothing),
        },
        InputMode::Editing => if !pressed {
            (s, ActionView::Nothing)
        } else {
            match key {
                Key::Enter => (s, ActionView::Search(s.input)),
                Key::Char(c) => (insert_char(s, c), ActionView::Nothing),
                Key::Backspace => (delete_char_before(s), ActionView::Nothing),
                Key::Left => (cursor_left(s), ActionView::Nothing),
                Key::Right => (cursor_right(s), ActionView::Nothing),
                Key::Esc => (with_mode(s, InputMode::Normal), ActionView::Nothing),
                _ => (s, ActionView::Nothing),
            }
        },
        InputMode::SearchBarSelecting => if !pressed {
            (s, ActionView::Nothing)
        } else {
            match key {
                Key::Up => (
                    AppView {
                        search_index: if s.search_index > 0 {
                            (s.search_index - 1) as nat
                        } else {
                            0
                        },
                        ..s
                    },
                    ActionView::Nothing,
                ),
                Key::Down => (
                    AppView {
                        search_index: if s.search_index + 1 < s.search.len() {
                            s.search_index + 1
                        } else {
                            s.search_index
                        },
                        ..s
                    },
                    ActionView::Nothing,
                ),
                Key::Esc => (with_mode(s, InputMode::Normal), ActionView::Nothing),
                Key::Char('e') => (with_mode(s, InputMode::Editing), ActionView::Nothing),
                Key::Char('q') => (s, ActionView::Quit),
                Key::Enter => (commit_selection(s), ActionView::Nothing),
                _ => (s, ActionView::Nothing),
            }
        },
        InputMode::InstalledModsSelecting => if !pressed {
            (s, ActionView::Nothing)
        } else {
            match key {
                Key::Up => (
                    AppView {
                        install_index: if s.install_index > 0 {
                            (s.install_index - 1) as nat
                        } else {
                            0
                        },
                        ..s
                    },
                    ActionView::Nothing,
                ),
                Key::Down => (
                    AppView {
                        install_index: if s.install_index < s.install.len() {
                            s.install_index + 1
                        } else {
                            s.install_index
                        },
                        ..s
                    },
                    ActionView::Nothing,
                ),
                Key::Left | Key::Esc => (with_mode(s, InputMode::Normal), ActionView::Nothing),
                Key::Char('q') => (s, ActionView::Quit),
                Key::Char('e') => (with_mode(s, InputMode::Editing), ActionView::Nothing),
                Key::Backspace => (remove_selected(s), ActionView::Nothing),
                Key::Enter => if download_ready(s) {
                    (
                        with_mode(s, InputMode::Downloading),
                        ActionView::Download(ids_of(s.install)),
                    )
                } else {
                    (s, ActionView::Nothing)
                },
                _ => (s, ActionView::Nothing),
            }
        },
        InputMode::Downloading => if !pressed {
            (s, ActionView::Nothing)
        } else {
            match key {
                Key::Char('q') | Key::Esc => (with_mode(s, InputMode::Normal), ActionView::Nothing),
                _ => (s, ActionView::Nothing),
            }
        },
    }
}

/// The state of the interface: the query editor, the search results, and
/// the installation queue with its download slot.
pub struct App {
    /// Current text of the query editor.
    input: Vec<char>,
    /// Position of the cursor in the editor, in characters.
    character_index: usize,
    input_mode: InputMode,
    /// The game version whose files are downloaded.
    pub mc_version: String,
    search_list: Vec<Entry>,
    search_index: usize,
    installation_list: Vec<Entry>,
    installation_index: usize,
}

impl View for App {
    type V = AppView;

    closed spec fn view(&self) -> AppView {
        AppView {
            mode: self.input_mode,
            input: self.input@,
            cursor: self.character_index as nat,
            version: self.mc_version@,
            search: self.search_list@.map_values(|e: Entry| entry_view(e)),
            search_index: self.search_index as nat,
            install: self.installation_list@.map_values(|e: Entry| entry_view(e)),
            install_index: self.installation_index as nat,
        }
    }
}

impl App {
    /// An empty editor and empty lists, in normal mode.
    pub fn new() -> (r: App)
        ensures
            wf(r@),
            r@.mode == InputMode::Normal,
            r@.input.len() == 0,
            r@.cursor == 0,
            r@.version.len() == 0,
            r@.search.len() == 0,
            r@.search_index == 0,
            r@.install.len() == 0,
            r@.install_index == 0,
    {
        let r = App {
            input: Vec::new(),
            input_mode: InputMode::Normal,
            character_index: 0,
            mc_version: String::new(),
            search_index: 0,
            search_list: Vec::new(),
            installation_list: Vec::new(),
            installation_index: 0,
        };
        assert(r@.search =~= Seq::<(Seq<char>, Seq<char>)>::empty());
        assert(r@.install =~= Seq::<(Seq<char>, Seq<char>)>::empty());
        r
    }

    /// Moves the cursor one character left, staying at 0.
    pub fn move_cursor_left(&mut self)
        requires
            wf(old(self)@),
        ensures
            final(self)@ == cursor_left(old(self)@),
            wf(final(self)@),
    {
        let cursor_moved_left = self.character_index.saturating_sub(1);
        self.character_index = self.clamp_cursor(cursor_moved_left);
    }

    /// Moves the cursor one character right, staying at the end of the text.
    pub fn move_cursor_right(&mut self)
        requires
            wf(old(self)@),
        ensures
            final(self)@ == cursor_right(old(self)@),
            wf(final(self)@),
    {
        if self.character_index < self.input.len() {
            self.character_index = self.character_index + 1;
        }
    }

    /// Inserts a character at the cursor and moves the cursor past it.
    pub fn enter_char(&mut self, new_char: char)
        requires
            wf(old(self)@),
        ensures
            final(self)@ == insert_char(old(self)@, new_char),
            wf(final(self)@),
    {
        let index = self.character_index;
        self.input.insert(index, new_char);
        self.move_cursor_right();
    }

    /// Removes the character before the cursor, if any, and moves the cursor onto its place.
    pub fn delete_char(&mut self)
        requires
            wf(old(self)@),
        ensures
            final(self)@ == delete_char_before(old(self)@),
            wf(final(self)@),
    {
        let is_not_cursor_leftmost = self.character_index != 0;
        if is_not_cursor_leftmost {
            let current_index = self.character_index;
            let from_left_to_current_index = current_index - 1;
            self.input.remove(from_left_to_current_index);
            self.character_index = from_left_to_current_index;
        }
    }

    /// The nearest position to `new_cursor_pos` within the text.
    pub fn clamp_cursor(&self, new_cursor_pos: usize) -> (r: usize)
        ensures
            r == if new_cursor_pos <= self@.input.len() {
                new_cursor_pos as nat
            } else {
                self@.input.len()
            },
    {
        if new_cursor_pos <= self.input.len() {
            new_cursor_pos
        } else {
            self.input.len()
        }
    }

    /// Puts the cursor at the start of the text.
    pub fn reset_cursor(&mut self)
        requires
            wf(old(self)@),
        ensures
            final(self)@ == (AppView { cursor: 0, ..old(self)@ }),
            wf(final(self)@),
    {
        self.character_index = 0;
    }

    /// Fills the search list with the results of a search and clears the editor.
    pub fn send_query(&mut self, projects: &Vec<Project>)
        requires
            wf(old(self)@),
        ensures
            final(self)@ == after_search(old(self)@, projects@),
            wf(final(self)@),
    {
        let mut list: Vec<Entry> = Vec::new();
        let mut i: usize = 0;
        while i < projects.len()
            invariant
                i <= projects@.len(),
                list@.len() == i,
                forall|k: int| 0 <= k < i ==> entry_view(#[trigger] list@[k]) == entry_of(projects@[k]),
            decreases projects.len() - i,
        {
            let p = &projects[i];
            list.push(Entry { label: format_entry(p), id: p.id.clone() });
            i = i + 1;
        }
        assert(list@.map_values(|e: Entry| entry_view(e)) =~= projects@.map_values(|p: Project| entry_of(p)));
        self.search_list = list;
        self.search_index = 0;
        self.input = Vec::new();
        self.character_index = 0;
        self.input_mode = InputMode::SearchBarSelecting;
        assert(self@.input =~= Seq::<char>::empty());
    }

    /// Moves the highlighted search result into the installation queue and
    /// empties the search list; does nothing when the search list is empty.
    pub fn send_project_to_installation(&mut self)
        requires
            wf(old(self)@),
        ensures
            final(self)@ == commit_selection(old(self)@),
            wf(final(self)@),
    {
        if self.search_list.len() == 0 {
            return;
        }
        self.input_mode = InputMode::Normal;
        let chosen = self.search_list.remove(self.search_index);
        self.installation_list.push(chosen);
        self.search_index = 0;
        self.search_list.clear();
        assert(self@.search =~= Seq::<(Seq<char>, Seq<char>)>::empty());
        assert(self@.install =~= commit_selection(old(self)@).install);
    }

    /// Empties the installation queue once its downloads are done.
    pub fn finish_download(&mut self)
        requires
            wf(old(self)@),
        ensures
            final(self)@ == after_download(old(self)@),
            wf(final(self)@),
    {
        self.installation_index = 0;
        self.installation_list.clear();
        assert(self@.install =~= Seq::<(Seq<char>, Seq<char>)>::empty());
    }

    fn queued_ids(&self) -> (r: Vec<String>)
        ensures
            r@.map_values(|s: String| s@) == ids_of(self@.install),
    {
        let mut ids: Vec<String> = Vec::new();
        let mut i: usize = 0;
        while i < self.installation_list.len()
            invariant
                i <= self.installation_list@.len(),
                ids@.len() == i,
                forall|k: int| 0 <= k < i ==> (#[trigger] ids@[k])@ == self.installation_list@[k].id@,
            decreases self.installation_list.len() - i,
        {
            ids.push(self.installation_list[i].id.clone());
            i = i + 1;
        }
        assert(ids@.map_values(|s: String| s@) =~= ids_of(self@.install));
        ids
    }

    /// Handles one key: updates the state as `step` says and returns what
    /// the caller has to do.
    pub fn handle_key(&mut self, key: Key, pressed: bool) -> (r: Action)
        requires
            wf(old(self)@),
        ensures
            (final(self)@, action_view(r)) == step(old(self)@, key, pressed),
            wf(final(self)@),
    {
        match self.input_mode {
            InputMode::Normal => match key {
                Key::Char('e') => {
                    self.input_mode = InputMode::Editing;
                    Action::Nothing
                },
                Key::Char('q') => Action::Quit,
                Key::Right => {
                    self.input_mode = InputMode::InstalledModsSelecting;
                    Action::Nothing
                },
                _ => Action::Nothing,
            },
            InputMode::Editing => {
                if !pressed {
                    return Action::Nothing;
                }
                match key {
                    Key::Enter => Action::Search(string_of(&self.input)),
                    Key::Char(c) => {
                        self.enter_char(c);
                        Action::Nothing
                    },
                    Key::Backspace => {
                        self.delete_char();
                        Action::Nothing
                    },
                    Key::Left => {
                        self.move_cursor_left();
                        Action::Nothing
                    },
                    Key::Right => {
                        self.move_cursor_right();
                        Action::Nothing
                    },
                    Key::Esc => {
                        self.input_mode = InputMode::Normal;
                        Action::Nothing
                    },
                    _ => Action::Nothing,
                }
            },
            InputMode::SearchBarSelecting => {
                if !pressed {
                    return Action::Nothing;
                }
                match key {
                    Key::Up => {
                        if self.search_index > 0 {
                            self.search_index = self.search_index - 1;
                        }
                        Action::Nothing
                    },
                    Key::Down => {
                        if self.search_list.len() > 0 && self.search_index < self.search_list.len() - 1 {
                            self.search_index = self.search_index + 1;
                        }
                        Action::Nothing
                    },
                    Key::Esc => {
                        self.input_mode = InputMode::Normal;
                        Action::Nothing
                    },
                    Key::Char('e') => {
                        self.input_mode = InputMode::Editing;
                        Action::Nothing
                    },
                    Key::Char('q') => Action::Quit,
                    Key::Enter => {
                        self.send_project_to_installation();
                        Action::Nothing
                    },
                    _ => Action::Nothing,
                }
            },
            InputMode::InstalledModsSelecting => {
                if !pressed {
                    return Action::Nothing;
                }
                match key {
                    Key::Up => {
                        if self.installation_index > 0 {
                            self.installation_index = self.installation_index - 1;
                        }
                        Action::Nothing
                    },
                    Key::Down => {
                        if self.installation_index < self.installation_list.len() {
                            self.installation_index = self.installation_index + 1;
                        }
                        Action::Nothing
                    },
                    Key::Left | Key::Esc => {
                        self.input_mode = InputMode::Normal;
                        Action::Nothing
                    },
                    Key::Char('q') => Action::Quit,
                    Key::Char('e') => {
                        self.input_mode = InputMode::Editing;
                        Action::Nothing
                    },
                    Key::Backspace => {
                        if self.installation_index < self.installation_list.len() {
                            self.installation_list.remove(self.installation_index);
                            if self.installation_index > 0 {
                                self.installation_index = self.installation_index - 1;
                            }
                            assert(self@.install =~= remove_selected(old(self)@).install);
                        }
                        Action::Nothing
                    },
                    Key::Enter => {
                        if self.installation_index == self.installation_list.len()
                            && self.installation_list.len() > 0 {
                            self.input_mode = InputMode::Downloading;
                            Action::Download(self.queued_ids())
                        } else {
                            Action::Nothing
                        }
                    },
                    _ => Action::Nothing,
                }
            },
            InputMode::Downloading => {
                if !pressed {
                    return Action::Nothing;
                }
                match key {
                    Key::Char('q') | Key::Esc => {
                        self.input_mode = InputMode::Normal;
                        Action::Nothing
                    },
                    _ => Action::Nothing,
                }
            },
        }
    }

    pub fn input_mode(&self) -> (r: InputMode)
        ensures
            r == self@.mode,
    {
        self.input_mode
    }

    /// The text of the query editor.
    pub fn input(&self) -> (r: String)
        ensures
            r@ == self@.input,
    {
        string_of(&self.input)
    }

    pub fn character_index(&self) -> (r: usize)
        ensures
            r == self@.cursor,
    {
        self.character_index
    }

    pub fn search_list(&self) -> (r: &Vec<Entry>)
        ensures
            r@.map_values(|e: Entry| entry_view(e)) == self@.search,
    {
        &self.search_list
    }

    pub fn search_index(&self) -> (r: usize)
        ensures
            r == self@.search_index,
    {
        self.search_index
    }

    pub fn installation_list(&self) -> (r: &Vec<Entry>)
        ensures
            r@.map_values(|e: Entry| entry_view(e)) == self@.install,
    {
        &self.installation_list
    }

    pub fn installation_index(&self) -> (r: usize)
        ensures
            r == self@.install_index,
    {
        self.installation_index
    }
}

/// The state after a sequence of keys, each with whether it was a press.
pub open spec fn run(s: AppView, keys: Seq<(Key, bool)>) -> AppView
    decreases keys.len(),
{
    if keys.len() == 0 {
        s
    } else {
        run(step(s, keys[0].0, keys[0].1).0, keys.drop_first())
    }
}

/// One key keeps the editor cursor within the text and both list cursors
/// within their lists (the installation cursor may rest on the download
/// slot just after the last entry).
pub proof fn lemma_step_keeps_bounds(s: AppView, key: Key, pressed: bool)
    requires
        wf(s),
    ensures
        wf(step(s, key, pressed).0),
{
}

/// Any sequence of keys keeps the editor cursor in [0, length of the text],
/// the search cursor in [0, length - 1] of a non-empty search list, and the
/// installation cursor in [0, length of the queue].
pub proof fn lemma_run_keeps_bounds(s: AppView, keys: Seq<(Key, bool)>)
    requires
        wf(s),
    ensures
        wf(run(s, keys)),
        run(s, keys).cursor <= run(s, keys).input.len(),
        run(s, keys).search.len() > 0 ==> run(s, keys).search_index < run(s, keys).search.len(),
        run(s, keys).install_index <= run(s, keys).install.len(),
    decreases keys.len(),
{
    if keys.len() > 0 {
        lemma_step_keeps_bounds(s, keys[0].0, keys[0].1);
        lemma_run_keeps_bounds(step(s, keys[0].0, keys[0].1).0, keys.drop_first());
    }
}

/// Inserting a character and then deleting the character before the cursor
/// gives back the text and the cursor as they were, both as editor
/// operations and as keys typed while editing.
pub proof fn lemma_insert_then_delete(s: AppView, c: char)
    requires
        wf(s),
    ensures
        delete_char_before(insert_char(s, c)) == s,
        s.mode == InputMode::Editing ==> step(step(s, Key::Char(c), true).0, Key::Backspace, true).0
            == s,
{
    assert(s.input.insert(s.cursor as int, c).remove(s.cursor as int) =~= s.input);
}

/// A key that only the list modes act on (up, down) changes nothing in any
/// other mode.
pub proof fn lemma_list_keys_only_in_lists(s: AppView, key: Key, pressed: bool)
    requires
        key == Key::Up || key == Key::Down,
        s.mode != InputMode::SearchBarSelecting,
        s.mode != InputMode::InstalledModsSelecting,
    ensures
        step(s, key, pressed) == (s, ActionView::Nothing),
{
}

/// A character that only the editor acts on (any but 'e' and 'q') changes
/// nothing outside editing mode.
pub proof fn lemma_text_keys_only_in_editor(s: AppView, c: char, pressed: bool)
    requires
        c != 'e',
        c != 'q',
        s.mode != InputMode::Editing,
    ensures
        step(s, Key::Char(c), pressed) == (s, ActionView::Nothing),
{
}

/// Backspace, which only the editor and the installation queue act on,
/// changes nothing in the other modes.
pub proof fn lemma_backspace_only_in_editor_and_queue(s: AppView, pressed: bool)
    requires
        s.mode != InputMode::Editing,
        s.mode != InputMode::InstalledModsSelecting,
    ensures
        step(s, Key::Backspace, pressed) == (s, ActionView::Nothing),
{
}

/// Starting a download pass hands over the ids of every queued entry, in
/// queue order, and leaves the queue in place; only `after_download` empties it.
pub proof fn lemma_download_keeps_queue(s: AppView)
    requires
        s.mode == InputMode::InstalledModsSelecting,
        download_ready(s),
    ensures
        step(s, Key::Enter, true).1 == ActionView::Download(ids_of(s.install)),
        ids_of(s.install).len() == s.install.len(),
        step(s, Key::Enter, true).0.install == s.install,
        after_download(step(s, Key::Enter, true).0).install.len() == 0,
{
}

} // verus!
