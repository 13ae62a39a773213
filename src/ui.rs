//! State of the interface: tabs, popups, the filter options and their popup,
//! the two text inputs and the challenge list.

use vstd::prelude::*;
use crate::challenge::{Challenge, PageInfo};
use crate::input::Input;
use crate::options::{
    category_from_index, category_variants, difficulty_from_index, difficulty_variants,
    ordering_from_index, ordering_variants, status_from_index, status_variants, Category,
    Difficulty, Orderings, Status,
};
use crate::widgets::{Button, ButtonState, StateList};

verus! {

#[derive(Debug, Clone, Copy, PartialEq, Eq, Structural)]
pub enum Tabs {
    Search,
    Options,
    WargameList,
    WargameDetails,
}

/// The tab that Tab leads to: Search, Options, list, details, and around.
pub open spec fn next_tab_spec(t: Tabs) -> Tabs {
    match t {
        Tabs::Search => Tabs::Options,
        Tabs::Options => Tabs::WargameList,
        Tabs::WargameList => Tabs::WargameDetails,
        Tabs::WargameDetails => Tabs::Search,
    }
}

impl Tabs {
    pub fn set_tab(&mut self, tab: Tabs)
        ensures
            *final(self) == tab,
    {
        *self = tab;
    }

    pub fn next(&self) -> (r: Tabs)
        ensures
            r == next_tab_spec(*self),
    {
        match self {
            Tabs::Search => Tabs::Options,
            Tabs::Options => Tabs::WargameList,
            Tabs::WargameList => Tabs::WargameDetails,
            Tabs::WargameDetails => Tabs::Search,
        }
    }
}

/// Four steps of Tab lead back to the tab where they started.
pub proof fn lemma_four_tabs_cycle(t: Tabs)
    ensures
        next_tab_spec(next_tab_spec(next_tab_spec(next_tab_spec(t)))) == t,
        next_tab_spec(t) != t,
{
}

/// The modal popup over the tabs; at most one is open.
#[derive(Debug, Clone, Copy, PartialEq, Eq, Structural)]
pub enum PopupState {
    Closed,
    Options,
    FsTreeView,
}

/// Which text input holds the caret.
#[derive(Debug, Clone, Copy, PartialEq, Eq, Structural)]
pub enum CursorState {
    Search,
    EnterFlag,
}

/// Which filter the options popup edits.
#[derive(Debug, Clone, Copy, PartialEq, Eq, Structural)]
pub enum OptionsPopupState {
    Closed,
    CategoryPopup,
    DifficultyPopup,
    StatusPopup,
    OrderPopup,
}

/// Scratch selection of one filter's popup: the highlighted index and the
/// number of entries.
#[derive(Debug, Clone, Copy, PartialEq, Eq, Structural)]
pub struct OptionInfo {
    pub index: usize,
    pub size: usize,
}

impl OptionInfo {
    pub fn get_index(&self) -> (r: usize)
        ensures
            r == self.index,
    {
        self.index
    }

    pub fn set_index(&mut self, index: usize)
        ensures
            final(self).index == index,
            final(self).size == old(self).size,
    {
        self.index = index;
    }

    pub fn get_size(&self) -> (r: usize)
        ensures
            r == self.size,
    {
        self.size
    }
}

#[derive(Debug, Clone)]
pub struct OptionsPopup {
    pub items: Vec<OptionInfo>,
    pub state: OptionsPopupState,
}

impl OptionsPopup {
    pub fn get_items(&self) -> (r: &Vec<OptionInfo>)
        ensures
            *r == self.items,
    {
        &self.items
    }

    pub fn get_state(&self) -> (r: OptionsPopupState)
        ensures
            r == self.state,
    {
        self.state
    }

    pub fn set_state(&mut self, state: OptionsPopupState)
        ensures
            final(self).state == state,
            final(self).items == old(self).items,
    {
        self.state = state;
    }
}

/// The committed filter values.
#[derive(Debug, Clone, Copy, PartialEq, Eq, Structural)]
pub struct OptionsData {
    pub cat: Category,
    pub diff: Difficulty,
    pub status: Status,
    pub order: Orderings,
}

impl OptionsData {
    pub open spec fn new_spec() -> OptionsData {
        OptionsData { cat: Category::All, diff: Difficulty::All, status: Status::All, order: Orderings::Newist }
    }

    /// Every filter at its wildcard, newest first.
    pub fn new() -> (r: OptionsData)
        ensures
            r == OptionsData::new_spec(),
    {
        OptionsData { cat: Category::All, diff: Difficulty::All, status: Status::All, order: Orderings::Newist }
    }

    pub fn get_category(&self) -> (r: Category)
        ensures
            r == self.cat,
    {
        self.cat
    }

    pub fn get_difficulty(&self) -> (r: Difficulty)
        ensures
            r == self.diff,
    {
        self.diff
    }

    pub fn get_status(&self) -> (r: Status)
        ensures
            r == self.status,
    {
        self.status
    }

    pub fn get_order(&self) -> (r: Orderings)
        ensures
            r == self.order,
    {
        self.order
    }
}

/// The number of entries in the popup of filter button `k`.
pub open spec fn variant_count(k: int) -> int {
    if k == 0 {
        category_variants().len() as int
    } else if k == 1 {
        difficulty_variants().len() as int
    } else if k == 2 {
        status_variants().len() as int
    } else {
        ordering_variants().len() as int
    }
}

/// The popup that filter button `k` opens.
pub open spec fn popup_of_button(k: int) -> OptionsPopupState {
    if k == 0 {
        OptionsPopupState::CategoryPopup
    } else if k == 1 {
        OptionsPopupState::DifficultyPopup
    } else if k == 2 {
        OptionsPopupState::StatusPopup
    } else if k == 3 {
        OptionsPopupState::OrderPopup
    } else {
        OptionsPopupState::Closed
    }
}

/// The number of entries of the list a popup shows; none when closed.
pub open spec fn popup_len(s: OptionsPopupState) -> int {
    match s {
        OptionsPopupState::Closed => 0,
        OptionsPopupState::CategoryPopup => category_variants().len() as int,
        OptionsPopupState::DifficultyPopup => difficulty_variants().len() as int,
        OptionsPopupState::StatusPopup => status_variants().len() as int,
        OptionsPopupState::OrderPopup => ordering_variants().len() as int,
    }
}

/// The popup index of the value committed for filter `k`.
pub open spec fn committed_index(d: OptionsData, k: int) -> int {
    if k == 0 {
        d.cat.index_of()
    } else if k == 1 {
        if d.diff.index_of() < 0 { 0 } else { d.diff.index_of() }
    } else if k == 2 {
        d.status.index_of()
    } else {
        d.order.index_of()
    }
}

/// The filters after the open popup's highlighted entry is committed.
pub open spec fn commit_spec(d: OptionsData, state: OptionsPopupState, index: int) -> OptionsData {
    match state {
        OptionsPopupState::Closed => d,
        OptionsPopupState::CategoryPopup => OptionsData { cat: category_from_index(index), ..d },
        OptionsPopupState::DifficultyPopup => OptionsData { diff: difficulty_from_index(index), ..d },
        OptionsPopupState::StatusPopup => OptionsData { status: status_from_index(index), ..d },
        OptionsPopupState::OrderPopup => OptionsData { order: ordering_from_index(index), ..d },
    }
}

/// The four filter buttons, the focused one, the committed values and the
/// popup's scratch state.
#[derive(Debug, Clone)]
pub struct Options {
    pub buttons: Vec<Button>,
    pub buttons_index: usize,
    pub items: OptionsData,
    pub popup: OptionsPopup,
}

impl Options {
    /// Four buttons and four popup entries, one per filter; the focus on a
    /// button; each scratch index within its popup.
    pub open spec fn wf(&self) -> bool {
        &&& self.buttons@.len() == 4
        &&& self.popup.items@.len() == 4
        &&& self.buttons_index < 4
        &&& forall|k: int| 0 <= k < 4 ==> #[trigger] self.popup.items@[k].size == variant_count(k)
        &&& forall|k: int| 0 <= k < 4 ==> #[trigger] self.popup.items@[k].index < self.popup.items@[k].size
    }

    /// The scratch index of the focused filter.
    pub open spec fn scratch(&self) -> int {
        self.popup.items@[self.buttons_index as int].index as int
    }

    /// Buttons Category, Difficulty, Status and Order, the first focused;
    /// wildcard filters; popup closed.
    pub fn new() -> (r: Options)
        ensures
            r.wf(),
            r.buttons_index == 0,
            r.items == (OptionsData {
                cat: Category::All,
                diff: Difficulty::All,
                status: Status::All,
                order: Orderings::Newist,
            }),
            r.popup.state == OptionsPopupState::Closed,
            forall|k: int| 0 <= k < 4 ==> (#[trigger] r.buttons@[k]).state == ButtonState::Normal,
            forall|k: int| 0 <= k < 4 ==> (#[trigger] r.popup.items@[k]).index == 0,
    {
        let buttons = vec![
            Button::new("Category"),
            Button::new("Difficulty"),
            Button::new("Status"),
            Button::new("Order"),
        ];
        let items = vec![
            OptionInfo { index: 0, size: Category::variants().len() },
            OptionInfo { index: 0, size: Difficulty::variants().len() },
            OptionInfo { index: 0, size: Status::variants().len() },
            OptionInfo { index: 0, size: Orderings::variants().len() },
        ];
        let r = Options {
            buttons,
            buttons_index: 0,
            items: OptionsData::new(),
            popup: OptionsPopup { items, state: OptionsPopupState::Closed },
        };
        assert forall|k: int| 0 <= k < 4 implies #[trigger] r.popup.items@[k].size == variant_count(k) by {
            if k == 0 {} else if k == 1 {} else if k == 2 {} else {}
        }
        r
    }

    pub fn get_buttons(&self) -> (r: &Vec<Button>)
        ensures
            *r == self.buttons,
    {
        &self.buttons
    }

    pub fn get_buttons_index(&self) -> (r: usize)
        ensures
            r == self.buttons_index,
    {
        self.buttons_index
    }

    pub fn set_buttons_index(&mut self, index: usize)
        requires
            index < 4,
            old(self).wf(),
        ensures
            final(self).wf(),
            *final(self) == (Options { buttons_index: index, ..*old(self) }),
    {
        self.buttons_index = index;
    }

    pub fn get_items(&self) -> (r: &OptionsData)
        ensures
            *r == self.items,
    {
        &self.items
    }

    pub fn get_popup(&self) -> (r: &OptionsPopup)
        ensures
            *r == self.popup,
    {
        &self.popup
    }

    /// Sets button `i` to `state`, leaving the others.
    pub fn set_button_state(&mut self, i: usize, state: ButtonState)
        requires
            i < old(self).buttons@.len(),
        ensures
            final(self).buttons@ == old(self).buttons@.update(
                i as int,
                Button { state, ..old(self).buttons@[i as int] },
            ),
            final(self).buttons_index == old(self).buttons_index,
            final(self).items == old(self).items,
            final(self).popup == old(self).popup,
    {
        let b = Button { label: self.buttons[i].label, state };
        self.buttons.set(i, b);
    }

    /// Puts every button back to normal.
    pub fn clear_button_state(&mut self)
        ensures
            final(self).buttons@.len() == old(self).buttons@.len(),
            forall|k: int| 0 <= k < final(self).buttons@.len() ==>
                (#[trigger] final(self).buttons@[k]).state == ButtonState::Normal
                && final(self).buttons@[k].label == old(self).buttons@[k].label,
            final(self).buttons_index == old(self).buttons_index,
            final(self).items == old(self).items,
            final(self).popup == old(self).popup,
    {
        let mut i: usize = 0;
        while i < self.buttons.len()
            invariant
                i <= self.buttons@.len() == old(self).buttons@.len(),
                forall|k: int| 0 <= k < i ==>
                    (#[trigger] self.buttons@[k]).state == ButtonState::Normal
                    && self.buttons@[k].label == old(self).buttons@[k].label,
                forall|k: int| i <= k < self.buttons@.len() ==>
                    #[trigger] self.buttons@[k] == old(self).buttons@[k],
                self.buttons_index == old(self).buttons_index,
                self.items == old(self).items,
                self.popup == old(self).popup,
            decreases self.buttons@.len() - i,
        {
            self.set_button_state(i, ButtonState::Normal);
            i += 1;
        }
    }

    /// The first selected button, or 0 when none is.
    pub fn get_selected_index(&self) -> (r: usize)
        ensures
            (exists|k: int| 0 <= k < self.buttons@.len() && (#[trigger] self.buttons@[k]).state == ButtonState::Selected)
                ==> r < self.buttons@.len() && self.buttons@[r as int].state == ButtonState::Selected
                && forall|k: int| 0 <= k < r ==> (#[trigger] self.buttons@[k]).state != ButtonState::Selected,
            !(exists|k: int| 0 <= k < self.buttons@.len() && (#[trigger] self.buttons@[k]).state == ButtonState::Selected)
                ==> r == 0,
    {
        let mut i: usize = 0;
        while i < self.buttons.len()
            invariant
                i <= self.buttons@.len(),
                forall|k: int| 0 <= k < i ==> (#[trigger] self.buttons@[k]).state != ButtonState::Selected,
            decreases self.buttons@.len() - i,
        {
            if self.buttons[i].state == ButtonState::Selected {
                return i;
            }
            i += 1;
        }
        0
    }

    /// The number of entries of the open popup's list; 0 when closed.
    pub fn get_popup_items_length(&self) -> (r: usize)
        ensures
            r == popup_len(self.popup.state),
    {
        match self.popup.state {
            OptionsPopupState::Closed => 0,
            OptionsPopupState::CategoryPopup => Category::variants().len(),
            OptionsPopupState::DifficultyPopup => Difficulty::variants().len(),
            OptionsPopupState::StatusPopup => Status::variants().len(),
            OptionsPopupState::OrderPopup => Orderings::variants().len(),
        }
    }

    /// Commits the focused filter's scratch index into the value of the open
    /// popup's filter.
    pub fn apply_popup_selection(&mut self)
        requires
            old(self).wf(),
        ensures
            final(self).wf(),
            *final(self) == (Options {
                items: commit_spec(old(self).items, old(self).popup.state, old(self).scratch()),
                ..*old(self)
            }),
    {
        let index = self.popup.items[self.buttons_index].index;
        match self.popup.state {
            OptionsPopupState::Closed => {},
            OptionsPopupState::CategoryPopup => {
                self.items.cat = Category::from_index(index);
            },
            OptionsPopupState::DifficultyPopup => {
                self.items.diff = Difficulty::from_index(index);
            },
            OptionsPopupState::StatusPopup => {
                self.items.status = Status::from_index(index);
            },
            OptionsPopupState::OrderPopup => {
                self.items.order = Orderings::from_index(index);
            },
        }
    }

    /// The popup index of the value committed for filter `k`.
    pub fn committed_index(&self, k: usize) -> (r: usize)
        requires
            k < 4,
        ensures
            r == committed_index(self.items, k as int),
            r < variant_count(k as int),
    {
        if k == 0 {
            match self.items.cat {
                Category::All => 0,
                Category::Pwnable => 1,
                Category::Reversing => 2,
                Category::Web => 3,
                Category::Crypto => 4,
            }
        } else if k == 1 {
            match self.items.diff {
                Difficulty::All => 0,
                Difficulty::LEVEL1 => 1,
                Difficulty::LEVEL2 => 2,
                Difficulty::LEVEL3 => 3,
                Difficulty::LEVEL4 => 4,
                Difficulty::LEVEL5 => 5,
                Difficulty::LEVEL6 => 6,
                Difficulty::LEVEL7 => 7,
                Difficulty::LEVEL8 => 8,
                Difficulty::LEVEL9 => 9,
                Difficulty::LEVEL10 => 10,
                Difficulty::Unranked => 0,
                Difficulty::Beginner => 0,
            }
        } else if k == 2 {
            match self.items.status {
                Status::ToDo => 0,
                Status::All => 1,
                Status::Attempted => 2,
                Status::Solved => 3,
            }
        } else {
            match self.items.order {
                Orderings::Newist => 0,
                Orderings::MostSolved => 1,
                Orderings::LeastSolved => 2,
            }
        }
    }

    /// Sets the scratch index of filter `k`.
    pub fn set_scratch(&mut self, k: usize, index: usize)
        requires
            old(self).wf(),
            k < 4,
            index < variant_count(k as int),
        ensures
            final(self).wf(),
            final(self).popup.items@ == old(self).popup.items@.update(
                k as int,
                OptionInfo { index, size: old(self).popup.items@[k as int].size },
            ),
            final(self).popup.state == old(self).popup.state,
            final(self).buttons == old(self).buttons,
            final(self).buttons_index == old(self).buttons_index,
            final(self).items == old(self).items,
    {
        let size = self.popup.items[k].size;
        self.popup.items.set(k, OptionInfo { index, size });
        assert forall|j: int| 0 <= j < 4 implies #[trigger] self.popup.items@[j].size == variant_count(j) by {
            assert(old(self).popup.items@[j].size == variant_count(j));
        }
        assert forall|j: int| 0 <= j < 4 implies #[trigger] self.popup.items@[j].index < self.popup.items@[j].size by {
            assert(old(self).popup.items@[j].index < old(self).popup.items@[j].size);
            assert(old(self).popup.items@[j].size == variant_count(j));
        }
    }
}

/// The state of the whole interface.
#[derive(Debug)]
pub struct UIState {
    pub popup_state: PopupState,
    pub cursor_state: CursorState,
    pub challenges: StateList<Challenge>,
    pub options: Options,
    pub current_page: PageInfo,
    pub current_tab: Tabs,
    pub search: Input,
    pub enter_flag: Input,
    pub wargame_details_index: usize,
}

impl UIState {
    /// The starting state: Search tab, no popup, empty inputs and list.
    pub fn new() -> (r: UIState)
        ensures
            r.options.wf(),
            r.popup_state == PopupState::Closed,
            r.cursor_state == CursorState::Search,
            r.current_tab == Tabs::Search,
            r.challenges.items@.len() == 0,
            r.challenges.selected is None,
            r.search.input@.len() == 0 && r.search.character_index == 0,
            r.enter_flag.input@.len() == 0 && r.enter_flag.character_index == 0,
            r.wargame_details_index == 0,
            r.options.items == (OptionsData {
                cat: Category::All,
                diff: Difficulty::All,
                status: Status::All,
                order: Orderings::Newist,
            }),
            r.options.popup.state == OptionsPopupState::Closed,
            r.options.buttons_index == 0,
            forall|k: int| 0 <= k < 4 ==> (#[trigger] r.options.popup.items@[k]).index == 0,
            forall|k: int| 0 <= k < 4 ==> (#[trigger] r.options.buttons@[k]).state == ButtonState::Normal,
            r.current_page.page_index == 0,
            r.current_page.next is None && r.current_page.previous is None,
    {
        UIState {
            popup_state: PopupState::Closed,
            cursor_state: CursorState::Search,
            challenges: StateList::new(Vec::new()),
            options: Options::new(),
            current_page: PageInfo::empty(),
            current_tab: Tabs::Search,
            search: Input::new(),
            enter_flag: Input::new(),
            wargame_details_index: 0,
        }
    }

    /// Well formed: valid options and a details index among the three
    /// entries of the details tab.
    pub open spec fn wf(&self) -> bool {
        self.options.wf() && self.wargame_details_index <= 2
    }
}

} // verus!
