//! The interface as a reducer: each key or mouse event updates the state and
//! names the outside work to do next (a list request, a download, a virtual
//! machine, a move in the directory tree), which the caller performs.

use vstd::prelude::*;
use crate::auth::Auth;
use crate::challenge::{Challenge, PageInfo};
use crate::options::{difficulty_variants, Difficulty};
use crate::config::Config;
use crate::input::{after_delete, after_enter, min, pred_sat, Input};
use crate::request::{ChallengeOptions, RequestChallengeList};
use crate::ui::{
    commit_spec, committed_index, next_tab_spec, popup_of_button, variant_count, CursorState,
    OptionInfo, Options, OptionsPopupState, PopupState, Tabs, UIState,
};
use crate::extract::{archive_path, archive_path_spec};
use crate::text::owned;
use crate::vm_info::MachineInfo;
use crate::widgets::{Area, Button, ButtonState};

verus! {

/// Height in rows of one entry of the challenge list.
pub const WARGAME_BLOCK_SIZE: usize = 4;

#[derive(Debug, Clone, Copy, PartialEq, Eq, Structural)]
pub enum KeyCode {
    Char(char),
    Enter,
    Backspace,
    Left,
    Right,
    Up,
    Down,
    Home,
    End,
    PageUp,
    PageDown,
    Tab,
    Esc,
    Other,
}

/// A key press, with whether Control was held.
#[derive(Debug, Clone, Copy, PartialEq, Eq, Structural)]
pub struct Key {
    pub code: KeyCode,
    pub ctrl: bool,
}

#[derive(Debug, Clone, Copy, PartialEq, Eq, Structural)]
pub enum MouseKind {
    Down,
    ScrollUp,
    ScrollDown,
    Other,
}

#[derive(Debug, Clone, Copy, PartialEq, Eq, Structural)]
pub struct MouseEvent {
    pub kind: MouseKind,
    pub column: u16,
    pub row: u16,
}

/// A move in the directory tree popup.
#[derive(Debug, Clone, Copy, PartialEq, Eq, Structural)]
pub enum TreeMove {
    Toggle,
    Left,
    Right,
    Down,
    Up,
    Deselect,
    First,
    Last,
    ScrollDown,
    ScrollUp,
}

/// The outside work an event asks for.
pub enum Action {
    Nothing,
    /// Fetch a page of the list and show it.
    Fetch(RequestChallengeList),
    /// Download the archive of the challenge at this index of the list.
    Download(usize),
    /// Create the virtual machine of the challenge at this index, then
    /// fetch its description.
    CreateVm(usize),
    Tree(TreeMove),
    /// Make the selected directory of the tree the working directory.
    OpenSelectedDir,
}

/// How to fetch a challenge's archive and what to do with it afterwards.
#[derive(Debug, Clone)]
pub struct DownloadPlan {
    /// The archive's download URL.
    pub url: String,
    /// Where the archive is saved.
    pub archive: String,
    pub workdir: String,
    pub repository: String,
    /// Extract the archive after saving it.
    pub extract: bool,
    /// Delete the archive afterwards.
    pub remove_archive: bool,
}

pub struct App {
    pub config: Config,
    pub should_exit: bool,
    pub auth: Auth,
    pub ui_state: UIState,
    pub vm_info: Option<MachineInfo>,
}

/// The request of a search: page 1, the typed text and the committed
/// filters.
pub open spec fn search_options(text: String, u: UIState) -> ChallengeOptions {
    ChallengeOptions {
        page: 1,
        search: Some(text),
        ordering: Some(u.options.items.order),
        scope: None,
        category: Some(u.options.items.cat),
        difficulty: Some(u.options.items.diff),
        type_value: None,
        status: Some(u.options.items.status),
        page_size: None,
    }
}

/// The request of a page move: that page, no filter.
pub open spec fn page_options(page: u64) -> ChallengeOptions {
    ChallengeOptions {
        page,
        search: None,
        ordering: None,
        scope: None,
        category: None,
        difficulty: None,
        type_value: None,
        status: None,
        page_size: None,
    }
}

pub open spec fn is_fetch(a: Action, o: ChallengeOptions) -> bool {
    a matches Action::Fetch(r) && r.options == o
}

/// A text input after an editing key: characters are typed, Backspace
/// deletes, Left and Right move; other keys change nothing.
pub open spec fn edited(i: Input, code: KeyCode, j: Input) -> bool {
    let ci = i.character_index as int;
    let n = i.input@.len() as int;
    match code {
        KeyCode::Char(c) => (j.input@, j.character_index as int) == after_enter(i.input@, ci, c),
        KeyCode::Backspace => (j.input@, j.character_index as int) == after_delete(i.input@, ci),
        KeyCode::Left => j.input == i.input && j.character_index == min(pred_sat(ci), n),
        KeyCode::Right => j.input == i.input && j.character_index == min(ci + 1, n),
        _ => j == i,
    }
}

/// Everything but the interface state stays.
pub open spec fn same_outside_ui(s: App, t: App) -> bool {
    t.config == s.config && t.auth == s.auth && t.vm_info == s.vm_info
}

/// Search tab: `q` quits, Enter searches with the typed text and then clears
/// it, other keys edit the text; the caret goes to the search input.
pub open spec fn search_step(s: App, code: KeyCode, t: App, a: Action) -> bool {
    let u = s.ui_state;
    let v = t.ui_state;
    &&& same_outside_ui(s, t)
    &&& v.popup_state == u.popup_state && v.challenges == u.challenges && v.options == u.options
    &&& v.current_page == u.current_page && v.current_tab == u.current_tab
    &&& v.enter_flag == u.enter_flag && v.wargame_details_index == u.wargame_details_index
    &&& v.cursor_state == CursorState::Search
    &&& if code == KeyCode::Char('q') {
        t.should_exit && v.search == u.search && a is Nothing
    } else if code == KeyCode::Enter {
        &&& t.should_exit == s.should_exit
        &&& is_fetch(a, search_options(u.search.input, u))
        &&& v.search.input@.len() == 0 && v.search.character_index == 0
    } else {
        t.should_exit == s.should_exit && edited(u.search, code, v.search) && a is Nothing
    }
}

/// Options tab: Left and Right move the focus among the four buttons (the
/// button left behind is marked selected), Enter opens the focused filter's
/// popup at its committed value, `q` quits.
pub open spec fn options_tab_step(s: App, code: KeyCode, t: App, a: Action) -> bool {
    let u = s.ui_state;
    let v = t.ui_state;
    let o = u.options;
    let bi = o.buttons_index as int;
    let marked = o.buttons@.update(bi, Button { state: ButtonState::Selected, ..o.buttons@[bi] });
    &&& same_outside_ui(s, t)
    &&& a is Nothing
    &&& v.challenges == u.challenges && v.current_page == u.current_page
    &&& v.current_tab == u.current_tab && v.search == u.search && v.enter_flag == u.enter_flag
    &&& v.wargame_details_index == u.wargame_details_index && v.cursor_state == u.cursor_state
    &&& t.should_exit == (s.should_exit || code == KeyCode::Char('q'))
    &&& v.options.items == o.items
    &&& if code == KeyCode::Left && bi > 0 {
        &&& v.popup_state == u.popup_state && v.options.popup == o.popup
        &&& v.options.buttons@ == marked && v.options.buttons_index == bi - 1
    } else if code == KeyCode::Right && bi < 3 {
        &&& v.popup_state == u.popup_state && v.options.popup == o.popup
        &&& v.options.buttons@ == marked && v.options.buttons_index == bi + 1
    } else if code == KeyCode::Enter {
        &&& v.popup_state == PopupState::Options
        &&& v.options.popup.state == popup_of_button(bi)
        &&& v.options.popup.items@ == o.popup.items@.update(
            bi,
            OptionInfo { index: committed_index(o.items, bi) as usize, size: o.popup.items@[bi].size },
        )
        &&& v.options.buttons == o.buttons && v.options.buttons_index == o.buttons_index
    } else {
        v.popup_state == u.popup_state && v.options == o
    }
}

/// Options popup: Up and Down move the highlighted entry within the list,
/// Enter commits it and closes, Esc or `q` close without committing.
pub open spec fn options_popup_step(s: App, code: KeyCode, t: App, a: Action) -> bool {
    let u = s.ui_state;
    let v = t.ui_state;
    let o = u.options;
    let bi = o.buttons_index as int;
    let idx = o.scratch();
    &&& same_outside_ui(s, t)
    &&& a is Nothing
    &&& t.should_exit == s.should_exit
    &&& v.challenges == u.challenges && v.current_page == u.current_page
    &&& v.current_tab == u.current_tab && v.search == u.search && v.enter_flag == u.enter_flag
    &&& v.wargame_details_index == u.wargame_details_index && v.cursor_state == u.cursor_state
    &&& v.options.buttons == o.buttons && v.options.buttons_index == o.buttons_index
    &&& if code == KeyCode::Up && idx > 0 {
        &&& v.popup_state == u.popup_state && v.options.items == o.items
        &&& v.options.popup.state == o.popup.state
        &&& v.options.popup.items@ == o.popup.items@.update(
            bi,
            OptionInfo { index: (idx - 1) as usize, ..o.popup.items@[bi] },
        )
    } else if code == KeyCode::Down && idx + 1 < variant_count(bi) {
        &&& v.popup_state == u.popup_state && v.options.items == o.items
        &&& v.options.popup.state == o.popup.state
        &&& v.options.popup.items@ == o.popup.items@.update(
            bi,
            OptionInfo { index: (idx + 1) as usize, ..o.popup.items@[bi] },
        )
    } else if code == KeyCode::Enter {
        &&& v.popup_state == PopupState::Closed
        &&& v.options.popup.state == OptionsPopupState::Closed
        &&& v.options.popup.items == o.popup.items
        &&& v.options.items == commit_spec(o.items, o.popup.state, idx)
    } else if code == KeyCode::Esc || code == KeyCode::Char('q') {
        &&& v.popup_state == PopupState::Closed
        &&& v.options.popup.state == OptionsPopupState::Closed
        &&& v.options.popup.items == o.popup.items
        &&& v.options.items == o.items
    } else {
        v.popup_state == u.popup_state && v.options == o
    }
}

/// The selection after a list key: `h`/Esc clear it, `j`/Down and `k`/Up
/// step, `g`/Home and `G`/End jump to the ends.
pub open spec fn list_selection(sel: Option<usize>, code: KeyCode) -> Option<usize> {
    if code == KeyCode::Char('h') || code == KeyCode::Esc {
        None
    } else if code == KeyCode::Char('j') || code == KeyCode::Down {
        Some(match sel { Some(i) => if i < usize::MAX { (i + 1) as usize } else { i }, None => 0usize })
    } else if code == KeyCode::Char('k') || code == KeyCode::Up {
        Some(match sel { Some(i) => if i > 0 { (i - 1) as usize } else { 0usize }, None => usize::MAX })
    } else if code == KeyCode::Char('g') || code == KeyCode::Home {
        Some(0usize)
    } else if code == KeyCode::Char('G') || code == KeyCode::End {
        Some(usize::MAX)
    } else {
        sel
    }
}

pub open spec fn is_selection_key(code: KeyCode) -> bool {
    code == KeyCode::Char('h') || code == KeyCode::Esc || code == KeyCode::Char('j')
        || code == KeyCode::Down || code == KeyCode::Char('k') || code == KeyCode::Up
        || code == KeyCode::Char('g') || code == KeyCode::Home || code == KeyCode::Char('G')
        || code == KeyCode::End
}

/// List tab: selection keys move the selection, `l`/Right and `u`/Left ask
/// for the next or previous page when the server reported one (never below
/// page 1), `q` quits.
pub open spec fn list_step(s: App, code: KeyCode, t: App, a: Action) -> bool {
    let u = s.ui_state;
    let v = t.ui_state;
    let p = u.current_page;
    &&& same_outside_ui(s, t)
    &&& v.popup_state == u.popup_state && v.options == u.options && v.current_page == u.current_page
    &&& v.current_tab == u.current_tab && v.search == u.search && v.enter_flag == u.enter_flag
    &&& v.wargame_details_index == u.wargame_details_index && v.cursor_state == u.cursor_state
    &&& v.challenges.items == u.challenges.items
    &&& t.should_exit == (s.should_exit || code == KeyCode::Char('q'))
    &&& v.challenges.selected == list_selection(u.challenges.selected, code)
    &&& v.challenges.offset == if code == KeyCode::Char('h') || code == KeyCode::Esc {
        0
    } else {
        u.challenges.offset
    }
    &&& if code == KeyCode::Char('l') || code == KeyCode::Right {
        if p.next is Some && p.page_index < u64::MAX {
            is_fetch(a, page_options((p.page_index + 1) as u64))
        } else {
            a is Nothing
        }
    } else if code == KeyCode::Char('u') || code == KeyCode::Left {
        if p.previous is Some && p.page_index > 1 {
            is_fetch(a, page_options((p.page_index - 1) as u64))
        } else {
            a is Nothing
        }
    } else {
        a is Nothing
    }
}

/// The entry of the details tab after a key: `k`/Up and `j`/Down move
/// within the three entries.
pub open spec fn details_index_after(i: int, code: KeyCode) -> int {
    if (code == KeyCode::Char('k') || code == KeyCode::Up) && i > 0 {
        i - 1
    } else if (code == KeyCode::Char('j') || code == KeyCode::Down) && i < 2 {
        i + 1
    } else {
        i
    }
}

/// The selected challenge's index, when the selection is within the list.
pub open spec fn current_index(u: UIState) -> Option<usize> {
    match u.challenges.selected {
        Some(i) => if i < u.challenges.items@.len() { Some(i) } else { None },
        None => None,
    }
}

/// Details tab: the entry moves first; on the flag entry the caret goes to
/// the flag input and keys edit it; Enter on the second entry downloads the
/// selected challenge and on the third creates its machine; `q` quits.
pub open spec fn details_step(s: App, code: KeyCode, t: App, a: Action) -> bool {
    let u = s.ui_state;
    let v = t.ui_state;
    let i = details_index_after(u.wargame_details_index as int, code);
    &&& same_outside_ui(s, t)
    &&& v.popup_state == u.popup_state && v.options == u.options && v.current_page == u.current_page
    &&& v.current_tab == u.current_tab && v.search == u.search && v.challenges == u.challenges
    &&& t.should_exit == (s.should_exit || code == KeyCode::Char('q'))
    &&& v.wargame_details_index == i
    &&& if i == 0 {
        &&& v.cursor_state == CursorState::EnterFlag
        &&& a is Nothing
        &&& if code == KeyCode::Enter { v.enter_flag == u.enter_flag } else { edited(u.enter_flag, code, v.enter_flag) }
    } else {
        &&& v.cursor_state == u.cursor_state && v.enter_flag == u.enter_flag
        &&& if code == KeyCode::Enter && current_index(u) is Some {
            if i == 1 {
                a == Action::Download(current_index(u)->0)
            } else {
                a == Action::CreateVm(current_index(u)->0)
            }
        } else {
            a is Nothing
        }
    }
}

/// The tree move a key asks for in the directory popup.
pub open spec fn tree_move_of(code: KeyCode) -> Option<TreeMove> {
    match code {
        KeyCode::Char(c) => if c == '\n' || c == ' ' { Some(TreeMove::Toggle) } else { None },
        KeyCode::Left => Some(TreeMove::Left),
        KeyCode::Right => Some(TreeMove::Right),
        KeyCode::Down => Some(TreeMove::Down),
        KeyCode::Up => Some(TreeMove::Up),
        KeyCode::Esc => Some(TreeMove::Deselect),
        KeyCode::Home => Some(TreeMove::First),
        KeyCode::End => Some(TreeMove::Last),
        KeyCode::PageDown => Some(TreeMove::ScrollDown),
        KeyCode::PageUp => Some(TreeMove::ScrollUp),
        _ => None,
    }
}

/// Directory popup: `q` closes it, Enter opens the selected directory and
/// closes it, navigation keys move in the tree.
pub open spec fn tree_step(s: App, code: KeyCode, t: App, a: Action) -> bool {
    let u = s.ui_state;
    let v = t.ui_state;
    &&& same_outside_ui(s, t)
    &&& t.should_exit == s.should_exit
    &&& v.options == u.options && v.current_page == u.current_page && v.current_tab == u.current_tab
    &&& v.search == u.search && v.enter_flag == u.enter_flag && v.challenges == u.challenges
    &&& v.wargame_details_index == u.wargame_details_index && v.cursor_state == u.cursor_state
    &&& if code == KeyCode::Char('q') {
        v.popup_state == PopupState::Closed && a is Nothing
    } else if code == KeyCode::Enter {
        v.popup_state == PopupState::Closed && a is OpenSelectedDir
    } else {
        v.popup_state == u.popup_state && match tree_move_of(code) {
            Some(m) => a == Action::Tree(m),
            None => a is Nothing,
        }
    }
}

/// What a key does: the open popup takes it; without one, the current tab.
pub open spec fn key_step(s: App, code: KeyCode, t: App, a: Action) -> bool {
    match s.ui_state.popup_state {
        PopupState::Options => options_popup_step(s, code, t, a),
        PopupState::FsTreeView => tree_step(s, code, t, a),
        PopupState::Closed => match s.ui_state.current_tab {
            Tabs::Search => search_step(s, code, t, a),
            Tabs::Options => options_tab_step(s, code, t, a),
            Tabs::WargameList => list_step(s, code, t, a),
            Tabs::WargameDetails => details_step(s, code, t, a),
        },
    }
}

/// The state after the global keys, before the key reaches its handler:
/// without a popup, Tab moves to the next tab and Ctrl+W opens the directory
/// popup.
pub open spec fn global_step(s: App, key: Key) -> App {
    if s.ui_state.popup_state == PopupState::Closed && key.code == KeyCode::Tab {
        App { ui_state: UIState { current_tab: next_tab_spec(s.ui_state.current_tab), ..s.ui_state }, ..s }
    } else if s.ui_state.popup_state == PopupState::Closed && key.ctrl && key.code == KeyCode::Char('w') {
        App { ui_state: UIState { popup_state: PopupState::FsTreeView, ..s.ui_state }, ..s }
    } else {
        s
    }
}

impl App {
    /// Well formed: valid interface state, and an open options popup edits
    /// the focused filter.
    pub open spec fn wf(&self) -> bool {
        &&& self.ui_state.wf()
        &&& self.ui_state.popup_state == PopupState::Options
            ==> self.ui_state.options.popup.state == popup_of_button(self.ui_state.options.buttons_index as int)
    }
}

impl App {
    /// A fresh interface with the given settings, not yet logged in.
    pub fn new(config: Config) -> (r: App)
        ensures
            r.wf(),
            r.config == config,
            !r.should_exit,
            r.vm_info is None,
            r.ui_state.popup_state == PopupState::Closed,
            r.ui_state.current_tab == Tabs::Search,
            r.ui_state.options.buttons_index == 0,
            r.ui_state.options.popup.state == OptionsPopupState::Closed,
            r.ui_state.options.items == crate::ui::OptionsData::new_spec(),
            forall|k: int| 0 <= k < 4 ==> (#[trigger] r.ui_state.options.popup.items@[k]).index == 0,
            r.ui_state.challenges.items@.len() == 0,
            r.ui_state.search.input@.len() == 0 && r.ui_state.search.character_index == 0,
    {
        App { config, should_exit: false, auth: Auth::empty(), ui_state: UIState::new(), vm_info: None }
    }

    /// Reads the typed text and the committed filters into a search request,
    /// then clears the search input.
    pub fn start_search(&mut self) -> (r: Action)
        ensures
            is_fetch(r, search_options(old(self).ui_state.search.input, old(self).ui_state)),
            final(self).ui_state.search.input@.len() == 0,
            final(self).ui_state.search.character_index == 0,
            *final(self) == (App {
                ui_state: UIState { search: final(self).ui_state.search, ..old(self).ui_state },
                ..*old(self)
            }),
    {
        let mut request = RequestChallengeList::new();
        request.set_search(self.ui_state.search.input.clone());
        request.set_category(self.ui_state.options.items.cat);
        request.set_difficulty(self.ui_state.options.items.diff);
        request.set_status(self.ui_state.options.items.status);
        request.set_ordering(self.ui_state.options.items.order);
        self.ui_state.search.reset_cursor();
        Action::Fetch(request)
    }

    fn handle_search_input(&mut self, code: KeyCode) -> (r: Action)
        ensures
            search_step(*old(self), code, *final(self), r),
    {
        self.ui_state.cursor_state = CursorState::Search;
        match code {
            KeyCode::Char(c) => {
                if c == 'q' {
                    self.should_exit = true;
                } else {
                    self.ui_state.search.enter_char(c);
                }
                Action::Nothing
            },
            KeyCode::Enter => self.start_search(),
            KeyCode::Backspace => {
                self.ui_state.search.delete_char();
                Action::Nothing
            },
            KeyCode::Left => {
                self.ui_state.search.move_cursor_left();
                Action::Nothing
            },
            KeyCode::Right => {
                self.ui_state.search.move_cursor_right();
                Action::Nothing
            },
            _ => Action::Nothing,
        }
    }

    /// Opens the popup of filter `k`, highlighting its committed value.
    fn open_options_popup(&mut self)
        requires
            old(self).wf(),
        ensures
            final(self).wf(),
            ({
                let o = old(self).ui_state.options;
                let bi = o.buttons_index as int;
                &&& final(self).ui_state.options.popup.state == popup_of_button(bi)
                &&& final(self).ui_state.options.popup.items@ == o.popup.items@.update(
                    bi,
                    OptionInfo { index: committed_index(o.items, bi) as usize, size: o.popup.items@[bi].size },
                )
                &&& final(self).ui_state.options.buttons == o.buttons
                &&& final(self).ui_state.options.buttons_index == o.buttons_index
                &&& final(self).ui_state.options.items == o.items
            }),
            final(self).ui_state.popup_state == PopupState::Options,
            *final(self) == (App {
                ui_state: UIState {
                    options: final(self).ui_state.options,
                    popup_state: PopupState::Options,
                    ..old(self).ui_state
                },
                ..*old(self)
            }),
    {
        let bi = self.ui_state.options.buttons_index;
        let seed = self.ui_state.options.committed_index(bi);
        self.ui_state.options.set_scratch(bi, seed);
        let state = if bi == 0 {
            OptionsPopupState::CategoryPopup
        } else if bi == 1 {
            OptionsPopupState::DifficultyPopup
        } else if bi == 2 {
            OptionsPopupState::StatusPopup
        } else {
            OptionsPopupState::OrderPopup
        };
        self.ui_state.options.popup.set_state(state);
        self.ui_state.popup_state = PopupState::Options;
    }

    /// Keys of the Options tab, or of the options popup when it is open.
    fn handle_options_input(&mut self, code: KeyCode) -> (r: Action)
        requires
            old(self).wf(),
            old(self).ui_state.popup_state != PopupState::FsTreeView,
        ensures
            final(self).wf(),
            old(self).ui_state.popup_state == PopupState::Options ==> options_popup_step(*old(self), code, *final(self), r),
            old(self).ui_state.popup_state == PopupState::Closed ==> options_tab_step(*old(self), code, *final(self), r),
    {
        let bi = self.ui_state.options.buttons_index;
        if self.ui_state.popup_state == PopupState::Options {
            let len = self.ui_state.options.get_popup_items_length();
            let idx = self.ui_state.options.popup.items[bi].index;
            match code {
                KeyCode::Up => {
                    if idx > 0 {
                        self.ui_state.options.set_scratch(bi, idx - 1);
                    }
                },
                KeyCode::Down => {
                    if idx + 1 < len {
                        self.ui_state.options.set_scratch(bi, idx + 1);
                    }
                },
                KeyCode::Enter => {
                    self.ui_state.options.apply_popup_selection();
                    self.ui_state.popup_state = PopupState::Closed;
                    self.ui_state.options.popup.set_state(OptionsPopupState::Closed);
                },
                KeyCode::Esc => {
                    self.ui_state.popup_state = PopupState::Closed;
                    self.ui_state.options.popup.set_state(OptionsPopupState::Closed);
                },
                KeyCode::Char(c) => {
                    if c == 'q' {
                        self.ui_state.popup_state = PopupState::Closed;
                        self.ui_state.options.popup.set_state(OptionsPopupState::Closed);
                    }
                },
                _ => {},
            }
        } else {
            match code {
                KeyCode::Char(c) => {
                    if c == 'q' {
                        self.should_exit = true;
                    }
                },
                KeyCode::Left => {
                    if bi > 0 {
                        self.ui_state.options.set_button_state(bi, ButtonState::Normal);
                        self.ui_state.options.set_button_state(bi, ButtonState::Selected);
                        self.ui_state.options.buttons_index = bi - 1;
                        assert(self.ui_state.options.buttons@ =~= old(self).ui_state.options.buttons@.update(
                            bi as int,
                            Button { state: ButtonState::Selected, ..old(self).ui_state.options.buttons@[bi as int] },
                        ));
                    }
                },
                KeyCode::Right => {
                    if bi < 3 {
                        self.ui_state.options.set_button_state(bi, ButtonState::Normal);
                        self.ui_state.options.set_button_state(bi, ButtonState::Selected);
                        self.ui_state.options.buttons_index = bi + 1;
                        assert(self.ui_state.options.buttons@ =~= old(self).ui_state.options.buttons@.update(
                            bi as int,
                            Button { state: ButtonState::Selected, ..old(self).ui_state.options.buttons@[bi as int] },
                        ));
                    }
                },
                KeyCode::Enter => {
                    self.open_options_popup();
                },
                _ => {},
            }
        }
        Action::Nothing
    }

    /// Asks for the next page when the server reported one.
    pub fn next_page(&self) -> (r: Action)
        ensures
            ({
                let p = self.ui_state.current_page;
                if p.next is Some && p.page_index < u64::MAX {
                    is_fetch(r, page_options((p.page_index + 1) as u64))
                } else {
                    r is Nothing
                }
            }),
    {
        let page = &self.ui_state.current_page;
        if page.has_next() && page.page_index < u64::MAX {
            let mut request = RequestChallengeList::new();
            request.set_page(page.page_index + 1);
            Action::Fetch(request)
        } else {
            Action::Nothing
        }
    }

    /// Asks for the previous page when the server reported one and the
    /// current page is past the first.
    pub fn previous_page(&self) -> (r: Action)
        ensures
            ({
                let p = self.ui_state.current_page;
                if p.previous is Some && p.page_index > 1 {
                    is_fetch(r, page_options((p.page_index - 1) as u64))
                } else {
                    r is Nothing
                }
            }),
    {
        let page = &self.ui_state.current_page;
        if page.has_previous() && page.page_index > 1 {
            let mut request = RequestChallengeList::new();
            request.set_page(page.page_index - 1);
            Action::Fetch(request)
        } else {
            Action::Nothing
        }
    }

    fn handle_wargame_list_input(&mut self, code: KeyCode) -> (r: Action)
        ensures
            list_step(*old(self), code, *final(self), r),
    {
        if code == KeyCode::Char('q') {
            self.should_exit = true;
            Action::Nothing
        } else if code == KeyCode::Char('h') || code == KeyCode::Esc {
            self.ui_state.challenges.select_none();
            Action::Nothing
        } else if code == KeyCode::Char('j') || code == KeyCode::Down {
            self.ui_state.challenges.select_next();
            Action::Nothing
        } else if code == KeyCode::Char('k') || code == KeyCode::Up {
            self.ui_state.challenges.select_previous();
            Action::Nothing
        } else if code == KeyCode::Char('g') || code == KeyCode::Home {
            self.ui_state.challenges.select_first();
            Action::Nothing
        } else if code == KeyCode::Char('G') || code == KeyCode::End {
            self.ui_state.challenges.select_last();
            Action::Nothing
        } else if code == KeyCode::Char('l') || code == KeyCode::Right {
            self.next_page()
        } else if code == KeyCode::Char('u') || code == KeyCode::Left {
            self.previous_page()
        } else {
            Action::Nothing
        }
    }

    fn handle_wargame_details_input(&mut self, code: KeyCode) -> (r: Action)
        requires
            old(self).ui_state.wargame_details_index <= 2,
        ensures
            details_step(*old(self), code, *final(self), r),
            final(self).ui_state.wargame_details_index <= 2,
    {
        if code == KeyCode::Char('q') {
            self.should_exit = true;
        } else if code == KeyCode::Char('k') || code == KeyCode::Up {
            if self.ui_state.wargame_details_index > 0 {
                self.ui_state.wargame_details_index = self.ui_state.wargame_details_index - 1;
            }
        } else if code == KeyCode::Char('j') || code == KeyCode::Down {
            if self.ui_state.wargame_details_index < 2 {
                self.ui_state.wargame_details_index = self.ui_state.wargame_details_index + 1;
            }
        }
        let i = self.ui_state.wargame_details_index;
        if i == 0 {
            self.ui_state.cursor_state = CursorState::EnterFlag;
            match code {
                KeyCode::Char(c) => self.ui_state.enter_flag.enter_char(c),
                KeyCode::Backspace => self.ui_state.enter_flag.delete_char(),
                KeyCode::Left => self.ui_state.enter_flag.move_cursor_left(),
                KeyCode::Right => self.ui_state.enter_flag.move_cursor_right(),
                _ => {},
            }
            Action::Nothing
        } else if code == KeyCode::Enter {
            match self.ui_state.challenges.current() {
                Some(selected) => if i == 1 {
                    Action::Download(selected)
                } else {
                    Action::CreateVm(selected)
                },
                None => Action::Nothing,
            }
        } else {
            Action::Nothing
        }
    }

    fn handle_fs_tree_popup_input(&mut self, code: KeyCode) -> (r: Action)
        ensures
            tree_step(*old(self), code, *final(self), r),
    {
        match code {
            KeyCode::Char(c) => {
                if c == 'q' {
                    self.ui_state.popup_state = PopupState::Closed;
                    Action::Nothing
                } else if c == '\n' || c == ' ' {
                    Action::Tree(TreeMove::Toggle)
                } else {
                    Action::Nothing
                }
            },
            KeyCode::Enter => {
                self.ui_state.popup_state = PopupState::Closed;
                Action::OpenSelectedDir
            },
            KeyCode::Left => Action::Tree(TreeMove::Left),
            KeyCode::Right => Action::Tree(TreeMove::Right),
            KeyCode::Down => Action::Tree(TreeMove::Down),
            KeyCode::Up => Action::Tree(TreeMove::Up),
            KeyCode::Esc => Action::Tree(TreeMove::Deselect),
            KeyCode::Home => Action::Tree(TreeMove::First),
            KeyCode::End => Action::Tree(TreeMove::Last),
            KeyCode::PageDown => Action::Tree(TreeMove::ScrollDown),
            KeyCode::PageUp => Action::Tree(TreeMove::ScrollUp),
            _ => Action::Nothing,
        }
    }

    /// Routes a key to the open popup, or to the current tab without one.
    pub fn handle_key(&mut self, code: KeyCode) -> (r: Action)
        requires
            old(self).wf(),
        ensures
            final(self).wf(),
            key_step(*old(self), code, *final(self), r),
    {
        match self.ui_state.popup_state {
            PopupState::Closed => match self.ui_state.current_tab {
                Tabs::Search => self.handle_search_input(code),
                Tabs::Options => self.handle_options_input(code),
                Tabs::WargameList => self.handle_wargame_list_input(code),
                Tabs::WargameDetails => self.handle_wargame_details_input(code),
            },
            PopupState::FsTreeView => self.handle_fs_tree_popup_input(code),
            PopupState::Options => self.handle_options_input(code),
        }
    }

    /// A key press from the terminal: the global keys first (Tab, Ctrl+W,
    /// without a popup), then the key's handler.
    pub fn process_key(&mut self, key: Key) -> (r: Action)
        requires
            old(self).wf(),
        ensures
            final(self).wf(),
            key_step(global_step(*old(self), key), key.code, *final(self), r),
    {
        if self.ui_state.popup_state == PopupState::Closed && key.code == KeyCode::Tab {
            self.ui_state.current_tab = self.ui_state.current_tab.next();
        } else if self.ui_state.popup_state == PopupState::Closed && key.ctrl && key.code == KeyCode::Char('w') {
            self.ui_state.popup_state = PopupState::FsTreeView;
        }
        self.handle_key(key.code)
    }

    /// Shows a fetched page: its challenges replace the list and its cursor
    /// the current one.
    pub fn show_page(&mut self, challenges: Vec<Challenge>, page: PageInfo)
        requires
            old(self).wf(),
        ensures
            final(self).wf(),
            final(self).ui_state.challenges.items == challenges,
            final(self).ui_state.current_page == page,
            final(self).ui_state.challenges.selected == old(self).ui_state.challenges.selected,
            final(self).ui_state.challenges.offset == old(self).ui_state.challenges.offset,
            final(self).ui_state.options == old(self).ui_state.options,
            final(self).ui_state.current_tab == old(self).ui_state.current_tab,
            final(self).ui_state.popup_state == old(self).ui_state.popup_state,
            final(self).ui_state.search == old(self).ui_state.search,
            final(self).ui_state.enter_flag == old(self).ui_state.enter_flag,
            final(self).should_exit == old(self).should_exit,
            same_outside_ui(*old(self), *final(self)),
    {
        self.ui_state.challenges.set_items(challenges);
        self.ui_state.current_page = page;
    }

    /// The download of the challenge at `index` of the list into `workdir`,
    /// following the settings; none when `index` is not in the list.
    pub fn download_plan(&self, index: usize, workdir: &str) -> (r: Option<DownloadPlan>)
        ensures
            r is Some <==> index < self.ui_state.challenges.items@.len(),
            r matches Some(p) ==> {
                let c = self.ui_state.challenges.items@[index as int];
                &&& p.url@ == c.metadata.public@
                &&& p.repository@ == c.metadata.repository@
                &&& p.workdir@ == workdir@
                &&& p.archive@ == archive_path_spec(workdir@, c.metadata.repository@)
                &&& p.extract == self.config.extract_chall_file
                &&& p.remove_archive == !self.config.keep_chall_file
            },
    {
        if index >= self.ui_state.challenges.items.len() {
            return None;
        }
        let c = &self.ui_state.challenges.items[index];
        let repository = c.metadata.get_repository();
        Some(DownloadPlan {
            url: owned(c.metadata.get_public()),
            archive: archive_path(workdir, repository),
            workdir: owned(workdir),
            repository: owned(repository),
            extract: self.config.extract_chall_file,
            remove_archive: !self.config.keep_chall_file,
        })
    }

    /// The challenge whose machine can be created: the one at `index`, when
    /// it is in the list and the session holds a key.
    pub fn vm_target(&self, index: usize) -> (r: Option<&Challenge>)
        ensures
            r is Some <==> (index < self.ui_state.challenges.items@.len() && self.auth.key.0@.len() > 0),
            r matches Some(c) ==> *c == self.ui_state.challenges.items@[index as int],
    {
        if index < self.ui_state.challenges.items.len() && self.auth.has_key() {
            Some(&self.ui_state.challenges.items[index])
        } else {
            None
        }
    }

    /// Keeps the description of the machine just created.
    pub fn store_vm_info(&mut self, info: MachineInfo)
        requires
            old(self).wf(),
        ensures
            final(self).wf(),
            *final(self) == (App { vm_info: Some(info), ..*old(self) }),
    {
        self.vm_info = Some(info);
    }

    /// The row of the list under a click: rows of the list are blocks of
    /// `WARGAME_BLOCK_SIZE` lines, counted from the first one shown.
    pub fn get_current_selected_index(&self, event: MouseEvent, area: Area) -> (r: usize)
        requires
            area.y <= event.row,
        ensures
            r == min(
                (event.row - area.y) as int / WARGAME_BLOCK_SIZE as int + self.ui_state.challenges.offset,
                usize::MAX as int,
            ),
    {
        let rows = ((event.row - area.y) as usize) / WARGAME_BLOCK_SIZE;
        let offset = self.ui_state.challenges.offset;
        if offset <= usize::MAX - rows { rows + offset } else { usize::MAX }
    }

    /// A click on the search input selects the Search tab.
    pub fn handle_search_mouse_event(&mut self, event: MouseEvent, area: Area)
        requires
            old(self).wf(),
        ensures
            final(self).wf(),
            *final(self) == if old(self).ui_state.popup_state == PopupState::Closed
                && event.kind == MouseKind::Down && area.contains_spec(event.column, event.row) {
                App { ui_state: UIState { current_tab: Tabs::Search, ..old(self).ui_state }, ..*old(self) }
            } else {
                *old(self)
            },
    {
        if self.ui_state.popup_state == PopupState::Closed && event.kind == MouseKind::Down
            && area.contains(event.column, event.row) {
            self.ui_state.current_tab.set_tab(Tabs::Search);
        }
    }

    /// A click on filter button `option_index` selects the Options tab,
    /// marks that button alone, focuses it and opens its popup.
    pub fn handle_options_mouse_event(&mut self, event: MouseEvent, area: Area, option_index: usize)
        requires
            old(self).wf(),
            option_index < 4,
        ensures
            final(self).wf(),
            same_outside_ui(*old(self), *final(self)),
            final(self).should_exit == old(self).should_exit,
            if old(self).ui_state.popup_state == PopupState::Closed && event.kind == MouseKind::Down
                && area.contains_spec(event.column, event.row) {
                &&& final(self).ui_state.current_tab == Tabs::Options
                &&& final(self).ui_state.popup_state == PopupState::Options
                &&& final(self).ui_state.options.buttons_index == option_index
                &&& final(self).ui_state.options.popup.state == popup_of_button(option_index as int)
                &&& final(self).ui_state.options.popup.items == old(self).ui_state.options.popup.items
                &&& final(self).ui_state.options.items == old(self).ui_state.options.items
                &&& forall|k: int| 0 <= k < 4 ==> (#[trigger] final(self).ui_state.options.buttons@[k]).state
                    == if k == option_index { ButtonState::Selected } else { ButtonState::Normal }
            } else {
                *final(self) == *old(self)
            },
    {
        if self.ui_state.popup_state == PopupState::Closed && event.kind == MouseKind::Down
            && area.contains(event.column, event.row) {
            self.ui_state.current_tab.set_tab(Tabs::Options);
            self.ui_state.options.clear_button_state();
            self.ui_state.options.set_button_state(option_index, ButtonState::Selected);
            self.ui_state.options.buttons_index = option_index;
            let state = if option_index == 0 {
                OptionsPopupState::CategoryPopup
            } else if option_index == 1 {
                OptionsPopupState::DifficultyPopup
            } else if option_index == 2 {
                OptionsPopupState::StatusPopup
            } else {
                OptionsPopupState::OrderPopup
            };
            self.ui_state.options.popup.set_state(state);
            self.ui_state.popup_state = PopupState::Options;
        }
    }

    /// Scrolling over the list moves the selection; a click selects the row
    /// under it. Both select the list tab.
    pub fn handle_wargames_mouse_event(&mut self, event: MouseEvent, area: Area)
        requires
            old(self).wf(),
        ensures
            final(self).wf(),
            same_outside_ui(*old(self), *final(self)),
            final(self).should_exit == old(self).should_exit,
            final(self).ui_state.challenges.items == old(self).ui_state.challenges.items,
            ({
                let u = old(self).ui_state;
                let v = final(self).ui_state;
                if u.popup_state != PopupState::Closed {
                    *final(self) == *old(self)
                } else if event.kind == MouseKind::ScrollUp {
                    v == UIState {
                        current_tab: Tabs::WargameList,
                        challenges: v.challenges,
                        ..u
                    } && v.challenges.selected == list_selection(u.challenges.selected, KeyCode::Up)
                    && v.challenges.offset == u.challenges.offset
                } else if event.kind == MouseKind::ScrollDown {
                    v == UIState {
                        current_tab: Tabs::WargameList,
                        challenges: v.challenges,
                        ..u
                    } && v.challenges.selected == list_selection(u.challenges.selected, KeyCode::Down)
                    && v.challenges.offset == u.challenges.offset
                } else if event.kind == MouseKind::Down && area.contains_spec(event.column, event.row) {
                    v == UIState {
                        current_tab: Tabs::WargameList,
                        challenges: v.challenges,
                        ..u
                    } && v.challenges.selected == Some(min(
                        (event.row - area.y) as int / WARGAME_BLOCK_SIZE as int + u.challenges.offset,
                        usize::MAX as int,
                    ) as usize)
                    && v.challenges.offset == u.challenges.offset
                } else {
                    *final(self) == *old(self)
                }
            }),
    {
        if self.ui_state.popup_state != PopupState::Closed {
            return;
        }
        match event.kind {
            MouseKind::ScrollUp => {
                self.ui_state.current_tab.set_tab(Tabs::WargameList);
                self.ui_state.challenges.select_previous();
            },
            MouseKind::ScrollDown => {
                self.ui_state.current_tab.set_tab(Tabs::WargameList);
                self.ui_state.challenges.select_next();
            },
            MouseKind::Down => {
                if area.contains(event.column, event.row) {
                    self.ui_state.current_tab.set_tab(Tabs::WargameList);
                    let index = self.get_current_selected_index(event, area);
                    self.ui_state.challenges.select(Some(index));
                }
            },
            MouseKind::Other => {},
        }
    }

    /// A click on the flag input selects the details tab at its flag entry.
    pub fn handle_enter_flag_mouse_event(&mut self, event: MouseEvent, area: Area)
        requires
            old(self).wf(),
        ensures
            final(self).wf(),
            *final(self) == if old(self).ui_state.popup_state == PopupState::Closed
                && event.kind == MouseKind::Down && area.contains_spec(event.column, event.row) {
                App {
                    ui_state: UIState {
                        current_tab: Tabs::WargameDetails,
                        wargame_details_index: 0,
                        ..old(self).ui_state
                    },
                    ..*old(self)
                }
            } else {
                *old(self)
            },
    {
        if self.ui_state.popup_state == PopupState::Closed && event.kind == MouseKind::Down
            && area.contains(event.column, event.row) {
            self.ui_state.current_tab.set_tab(Tabs::WargameDetails);
            self.ui_state.wargame_details_index = 0;
        }
    }

    /// A click on a button of the details tab selects it there and, for the
    /// download (1) and machine (2) buttons, asks for that work on the
    /// selected challenge.
    pub fn handle_challenge_features_mouse_event(&mut self, event: MouseEvent, area: Area, button_index: usize) -> (r: Action)
        requires
            old(self).wf(),
            button_index <= 2,
        ensures
            final(self).wf(),
            if old(self).ui_state.popup_state == PopupState::Closed && event.kind == MouseKind::Down
                && area.contains_spec(event.column, event.row) {
                &&& *final(self) == App {
                    ui_state: UIState {
                        current_tab: Tabs::WargameDetails,
                        wargame_details_index: button_index,
                        ..old(self).ui_state
                    },
                    ..*old(self)
                }
                &&& if button_index == 1 && current_index(old(self).ui_state) is Some {
                    r == Action::Download(current_index(old(self).ui_state)->0)
                } else if button_index == 2 && current_index(old(self).ui_state) is Some {
                    r == Action::CreateVm(current_index(old(self).ui_state)->0)
                } else {
                    r is Nothing
                }
            } else {
                *final(self) == *old(self) && r is Nothing
            },
    {
        if self.ui_state.popup_state == PopupState::Closed && event.kind == MouseKind::Down
            && area.contains(event.column, event.row) {
            self.ui_state.current_tab.set_tab(Tabs::WargameDetails);
            self.ui_state.wargame_details_index = button_index;
            match self.ui_state.challenges.current() {
                Some(selected) => if button_index == 1 {
                    Action::Download(selected)
                } else if button_index == 2 {
                    Action::CreateVm(selected)
                } else {
                    Action::Nothing
                },
                None => Action::Nothing,
            }
        } else {
            Action::Nothing
        }
    }
}

/// Tab, without a popup, moves to the next tab and keeps the popup closed.
pub proof fn lemma_tab_moves_on(s: App, t: App, a: Action)
    requires
        s.ui_state.popup_state == PopupState::Closed,
        key_step(global_step(s, Key { code: KeyCode::Tab, ctrl: false }), KeyCode::Tab, t, a),
    ensures
        t.ui_state.current_tab == next_tab_spec(s.ui_state.current_tab),
        t.ui_state.popup_state == PopupState::Closed,
{
}

/// Four Tab presses without a popup lead back to the starting tab.
pub proof fn lemma_four_tabs_return(
    s0: App, s1: App, s2: App, s3: App, s4: App,
    a1: Action, a2: Action, a3: Action, a4: Action,
)
    requires
        s0.ui_state.popup_state == PopupState::Closed,
        key_step(global_step(s0, Key { code: KeyCode::Tab, ctrl: false }), KeyCode::Tab, s1, a1),
        key_step(global_step(s1, Key { code: KeyCode::Tab, ctrl: false }), KeyCode::Tab, s2, a2),
        key_step(global_step(s2, Key { code: KeyCode::Tab, ctrl: false }), KeyCode::Tab, s3, a3),
        key_step(global_step(s3, Key { code: KeyCode::Tab, ctrl: false }), KeyCode::Tab, s4, a4),
    ensures
        s4.ui_state.current_tab == s0.ui_state.current_tab,
        s4.ui_state.popup_state == PopupState::Closed,
{
    lemma_tab_moves_on(s0, s1, a1);
    lemma_tab_moves_on(s1, s2, a2);
    lemma_tab_moves_on(s2, s3, a3);
    lemma_tab_moves_on(s3, s4, a4);
    crate::ui::lemma_four_tabs_cycle(s0.ui_state.current_tab);
}

/// On the Options tab with the Difficulty button focused and no difficulty
/// chosen, Enter, three Downs and Enter commit the fourth entry of the
/// difficulty list (`LEVEL3`) and close the popup.
pub proof fn lemma_difficulty_popup_commit(
    s0: App, s1: App, s2: App, s3: App, s4: App, s5: App,
    a1: Action, a2: Action, a3: Action, a4: Action, a5: Action,
)
    requires
        s0.wf(),
        s0.ui_state.popup_state == PopupState::Closed,
        s0.ui_state.current_tab == Tabs::Options,
        s0.ui_state.options.buttons_index == 1,
        s0.ui_state.options.items.diff == Difficulty::All,
        key_step(s0, KeyCode::Enter, s1, a1),
        key_step(s1, KeyCode::Down, s2, a2),
        key_step(s2, KeyCode::Down, s3, a3),
        key_step(s3, KeyCode::Down, s4, a4),
        key_step(s4, KeyCode::Enter, s5, a5),
    ensures
        s5.ui_state.options.items.diff == difficulty_variants()[3],
        s5.ui_state.options.items.diff == Difficulty::LEVEL3,
        s5.ui_state.popup_state == PopupState::Closed,
        s5.ui_state.options.popup.state == OptionsPopupState::Closed,
{
    let o0 = s0.ui_state.options;
    assert(o0.popup.items@[1].size == variant_count(1));
    assert(s1.ui_state.popup_state == PopupState::Options);
    assert(s1.ui_state.options.popup.state == OptionsPopupState::DifficultyPopup);
    assert(s1.ui_state.options.buttons_index == 1);
    assert(s1.ui_state.options.popup.items@[1].index == 0);
    assert(s1.ui_state.options.popup.items@[1].size == 11);
    assert(s2.ui_state.options.popup.items@[1].index == 1);
    assert(s2.ui_state.options.popup.items@[1].size == 11);
    assert(s3.ui_state.options.popup.items@[1].index == 2);
    assert(s3.ui_state.options.popup.items@[1].size == 11);
    assert(s4.ui_state.options.popup.items@[1].index == 3);
    assert(s4.ui_state.options.popup.state == OptionsPopupState::DifficultyPopup);
    assert(s4.ui_state.popup_state == PopupState::Options);
}

} // verus!
