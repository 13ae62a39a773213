use creamhack::challenge::{Challenge, ChallengeInfo, ChallengeMetadata, Flags};
use creamhack::config::Config;
use creamhack::events::{Action, App, Key, KeyCode, MouseEvent, MouseKind, TreeMove};
use creamhack::options::Difficulty;
use creamhack::ui::{PopupState, Tabs};
use creamhack::widgets::{Area, ButtonState};

fn key(code: KeyCode) -> Key {
    Key { code, ctrl: false }
}

fn press(app: &mut App, code: KeyCode) -> Action {
    app.process_key(key(code))
}

#[test]
fn four_tabs_return_to_search() {
    let mut app = App::new(Config::default_config());
    let mut seen = Vec::new();
    for _ in 0..4 {
        press(&mut app, KeyCode::Tab);
        seen.push(app.ui_state.current_tab);
    }
    assert_eq!(seen, vec![Tabs::Options, Tabs::WargameList, Tabs::WargameDetails, Tabs::Search]);
}

#[test]
fn tab_ignored_with_popup_open() {
    let mut app = App::new(Config::default_config());
    app.process_key(Key { code: KeyCode::Char('w'), ctrl: true });
    assert_eq!(app.ui_state.popup_state, PopupState::FsTreeView);
    press(&mut app, KeyCode::Tab);
    assert_eq!(app.ui_state.current_tab, Tabs::Search);
    assert!(matches!(press(&mut app, KeyCode::Down), Action::Tree(TreeMove::Down)));
    assert!(matches!(press(&mut app, KeyCode::Enter), Action::OpenSelectedDir));
    assert_eq!(app.ui_state.popup_state, PopupState::Closed);
}

#[test]
fn difficulty_popup_commits_fourth_entry() {
    let mut app = App::new(Config::default_config());
    press(&mut app, KeyCode::Tab);
    press(&mut app, KeyCode::Right);
    assert_eq!(app.ui_state.options.get_buttons_index(), 1);
    press(&mut app, KeyCode::Enter);
    assert_eq!(app.ui_state.popup_state, PopupState::Options);
    press(&mut app, KeyCode::Down);
    press(&mut app, KeyCode::Down);
    press(&mut app, KeyCode::Down);
    press(&mut app, KeyCode::Enter);
    assert_eq!(app.ui_state.popup_state, PopupState::Closed);
    assert_eq!(app.ui_state.options.get_items().get_difficulty(), Difficulty::variants()[3]);
    assert_eq!(app.ui_state.options.get_items().get_difficulty(), Difficulty::LEVEL3);
}

#[test]
fn popup_escape_keeps_value_and_reopen_seeds() {
    let mut app = App::new(Config::default_config());
    press(&mut app, KeyCode::Tab);
    press(&mut app, KeyCode::Right);
    press(&mut app, KeyCode::Enter);
    press(&mut app, KeyCode::Down);
    press(&mut app, KeyCode::Enter);
    assert_eq!(app.ui_state.options.get_items().get_difficulty(), Difficulty::LEVEL1);
    press(&mut app, KeyCode::Enter);
    assert_eq!(app.ui_state.options.get_popup().get_items()[1].get_index(), 1);
    for _ in 0..20 {
        press(&mut app, KeyCode::Down);
    }
    assert_eq!(app.ui_state.options.get_popup().get_items()[1].get_index(), 10);
    press(&mut app, KeyCode::Esc);
    assert_eq!(app.ui_state.options.get_items().get_difficulty(), Difficulty::LEVEL1);
    assert_eq!(app.ui_state.popup_state, PopupState::Closed);
}

#[test]
fn option_buttons_clamped() {
    let mut app = App::new(Config::default_config());
    press(&mut app, KeyCode::Tab);
    press(&mut app, KeyCode::Left);
    assert_eq!(app.ui_state.options.get_buttons_index(), 0);
    for _ in 0..6 {
        press(&mut app, KeyCode::Right);
    }
    assert_eq!(app.ui_state.options.get_buttons_index(), 3);
    assert_eq!(app.ui_state.options.get_buttons()[0].get_state(), ButtonState::Selected);
}

#[test]
fn search_enter_reads_then_clears() {
    let mut app = App::new(Config::default_config());
    press(&mut app, KeyCode::Char('x'));
    press(&mut app, KeyCode::Char('s'));
    press(&mut app, KeyCode::Char('s'));
    match press(&mut app, KeyCode::Enter) {
        Action::Fetch(request) => {
            assert_eq!(request.options.search, Some("xss".to_string()));
            assert_eq!(request.options.page, 1);
            assert_eq!(request.options.difficulty, Some(Difficulty::All));
        }
        _ => panic!("a search should fetch a page"),
    }
    assert_eq!(app.ui_state.search.input, "");
    assert_eq!(app.ui_state.search.get_character_index(), 0);
}

#[test]
fn q_exits_from_tab() {
    let mut app = App::new(Config::default_config());
    press(&mut app, KeyCode::Char('q'));
    assert!(app.should_exit);
}

#[test]
fn list_pages_follow_cursors() {
    let mut app = App::new(Config::default_config());
    press(&mut app, KeyCode::Tab);
    press(&mut app, KeyCode::Tab);
    assert_eq!(app.ui_state.current_tab, Tabs::WargameList);
    assert!(matches!(press(&mut app, KeyCode::Right), Action::Nothing));
    let page = creamhack::challenge::PageInfo::new(1, 40, 20, Some("n".to_string()), None);
    app.show_page(Vec::new(), page);
    match press(&mut app, KeyCode::Right) {
        Action::Fetch(request) => assert_eq!(request.options.page, 2),
        _ => panic!("a next page should be fetched"),
    }
    assert!(matches!(press(&mut app, KeyCode::Left), Action::Nothing));
    press(&mut app, KeyCode::Down);
    assert_eq!(app.ui_state.challenges.selected, Some(0));
    press(&mut app, KeyCode::Esc);
    assert_eq!(app.ui_state.challenges.selected, None);
}

#[test]
fn details_entries_and_flag_input() {
    let mut app = App::new(Config::default_config());
    for _ in 0..3 {
        press(&mut app, KeyCode::Tab);
    }
    press(&mut app, KeyCode::Char('f'));
    assert_eq!(app.ui_state.enter_flag.input, "f");
    press(&mut app, KeyCode::Down);
    press(&mut app, KeyCode::Down);
    press(&mut app, KeyCode::Down);
    assert_eq!(app.ui_state.wargame_details_index, 2);
    assert!(matches!(press(&mut app, KeyCode::Enter), Action::Nothing));
}

#[test]
fn mouse_click_opens_option_popup() {
    let mut app = App::new(Config::default_config());
    let area = Area { x: 10, y: 5, width: 4, height: 2 };
    let miss = MouseEvent { kind: MouseKind::Down, column: 14, row: 5 };
    app.handle_options_mouse_event(miss, area, 2);
    assert_eq!(app.ui_state.popup_state, PopupState::Closed);
    let hit = MouseEvent { kind: MouseKind::Down, column: 13, row: 6 };
    app.handle_options_mouse_event(hit, area, 2);
    assert_eq!(app.ui_state.current_tab, Tabs::Options);
    assert_eq!(app.ui_state.popup_state, PopupState::Options);
    assert_eq!(app.ui_state.options.get_selected_index(), 2);
}

#[test]
fn mouse_click_selects_list_row() {
    let mut app = App::new(Config::default_config());
    let area = Area { x: 0, y: 10, width: 40, height: 20 };
    let click = MouseEvent { kind: MouseKind::Down, column: 3, row: 19 };
    app.handle_wargames_mouse_event(click, area);
    assert_eq!(app.ui_state.current_tab, Tabs::WargameList);
    assert_eq!(app.ui_state.challenges.selected, Some(2));
}

fn challenge(id: u64, repository: &str) -> Challenge {
    Challenge {
        id,
        info: ChallengeInfo {
            title: "t".to_string(),
            description: String::new(),
            difficulty: 1,
            author: "a".to_string(),
            tags: Vec::new(),
        },
        metadata: ChallengeMetadata {
            repository: repository.to_string(),
            public: "https://example.com/f.zip".to_string(),
            flags: Flags {
                is_completed: false,
                is_attempted: false,
                is_difficulty_voted: false,
                is_beginner: false,
                is_public: true,
                is_featured: false,
                has_author_writeup: false,
                needs_vm: true,
                official: false,
            },
        },
    }
}

#[test]
fn download_plan_follows_settings() {
    let config = Config { extract_chall_file: true, keep_chall_file: false, experimental_features: false };
    let mut app = App::new(config);
    let page = creamhack::challenge::PageInfo::new(1, 2, 20, None, None);
    app.show_page(vec![challenge(5, "first"), challenge(6, "second")], page);
    let plan = app.download_plan(1, "/work").expect("index in the list");
    assert_eq!(plan.archive, "/work/second.zip");
    assert_eq!(plan.url, "https://example.com/f.zip");
    assert_eq!(plan.repository, "second");
    assert!(plan.extract);
    assert!(plan.remove_archive);
    assert!(app.download_plan(2, "/work").is_none());
}

#[test]
fn details_enter_downloads_selected() {
    let mut app = App::new(Config::default_config());
    let page = creamhack::challenge::PageInfo::new(1, 1, 20, None, None);
    app.show_page(vec![challenge(5, "first")], page);
    for _ in 0..2 {
        press(&mut app, KeyCode::Tab);
    }
    press(&mut app, KeyCode::Down);
    press(&mut app, KeyCode::Tab);
    press(&mut app, KeyCode::Down);
    assert!(matches!(press(&mut app, KeyCode::Enter), Action::Download(0)));
    press(&mut app, KeyCode::Down);
    assert!(matches!(press(&mut app, KeyCode::Enter), Action::CreateVm(0)));
}

#[test]
fn vm_needs_key() {
    let mut app = App::new(Config::default_config());
    let page = creamhack::challenge::PageInfo::new(1, 1, 20, None, None);
    app.show_page(vec![challenge(5, "first")], page);
    assert!(app.vm_target(0).is_none());
    let cookies = creamhack::auth::AuthCookies::new("c".to_string(), "s".to_string());
    app.auth = creamhack::auth::Auth::new("key".to_string(), cookies);
    assert_eq!(app.vm_target(0).map(|c| c.get_id()), Some(5));
    assert!(app.vm_target(1).is_none());
}
