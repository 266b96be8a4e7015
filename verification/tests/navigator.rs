use ani_nav::anilist::Anime;
use ani_nav::anilist::Page;
use ani_nav::anilist::PageInfo;
use ani_nav::anilist::Title;
use ani_nav::app::App;
use ani_nav::app::Focus;
use ani_nav::app::SelectionError;
use ani_nav::dispatch::Action;
use ani_nav::dispatch::Command;
use ani_nav::dispatch::Key;
use ani_nav::dispatch::dispatch;
use ani_nav::dispatch::frame;
use ani_nav::dispatch::map_key;
use ani_nav::gemini::Recommendation;
use ani_nav::pagination::FetchError;
use ani_nav::pagination::FetchTrigger;
use ani_nav::pagination::advance_if_possible;
use ani_nav::pagination::apply_initial_page;
use ani_nav::pagination::apply_page_result;
use ani_nav::pagination::retreat_if_possible;
use ani_nav::session::PlayerOutcome;
use ani_nav::session::restore_after_handoff;
use ani_nav::session::snapshot;

fn rec(title: &str, reason: &str) -> Recommendation {
    Recommendation { title: title.to_string(), reason: reason.to_string() }
}

fn anime(id: i32, title: &str) -> Anime {
    Anime { id, title: Title { romaji: title.to_string() } }
}

fn items(count: i32, first_id: i32) -> Vec<Anime> {
    let mut v = Vec::new();
    for i in 0..count {
        v.push(anime(first_id + i, &format!("Entry {}", first_id + i)));
    }
    v
}

fn page_of(count: i32, first_id: i32, has_next: bool) -> Page {
    Page { pageInfo: PageInfo { hasNextPage: has_next }, media: items(count, first_id) }
}

fn five_recs() -> Vec<Recommendation> {
    vec![
        rec("Alpha", "first"),
        rec("Beta", "second"),
        rec("Gamma", "third"),
        rec("Delta", "fourth"),
        rec("Epsilon", "fifth"),
    ]
}

#[test]
fn new_starts_on_first_page_with_primary_focus() {
    let app = App::new(five_recs());
    assert_eq!(app.focus, Focus::Gemini);
    assert_eq!(app.gemini_index, 0);
    assert_eq!(app.anilist_index, 0);
    assert_eq!(app.page, 1);
    assert_eq!(app.gemini_recs.len(), 5);
    assert!(app.anilist_items.is_empty());
    assert!(app.genres.is_empty());
    assert!(app.tags.is_empty());
    assert!(!app.has_next_page);
    assert_eq!(app.status_message, "");
    assert!(!app.should_quit);
}

#[test]
fn set_filters_stores_genres_and_wraps_tag() {
    let mut app = App::new(five_recs());
    app.set_filters(
        vec!["Action".to_string(), "Drama".to_string(), "Sci-Fi".to_string()],
        Some("Space".to_string()),
    );
    assert_eq!(app.genres, vec!["Action", "Drama", "Sci-Fi"]);
    assert_eq!(app.tags, vec!["Space"]);

    let mut other = App::new(five_recs());
    other.set_filters(vec!["Comedy".to_string()], None);
    assert_eq!(other.genres, vec!["Comedy"]);
    assert!(other.tags.is_empty());
}

#[test]
fn initial_page_sets_items_and_flag_only() {
    let mut app = App::new(five_recs());
    apply_initial_page(&mut app, page_of(10, 1, true));
    assert_eq!(app.anilist_items.len(), 10);
    assert!(app.has_next_page);
    assert_eq!(app.page, 1);
    assert_eq!(app.anilist_index, 0);
    assert_eq!(app.status_message, "");
}

#[test]
fn cursor_stays_in_bounds_under_moves() {
    let mut app = App::new(five_recs());
    app.move_up();
    assert_eq!(app.gemini_index, 0);
    app.move_down();
    app.move_down();
    assert_eq!(app.gemini_index, 2);
    for _ in 0..10 {
        app.move_down();
    }
    assert_eq!(app.gemini_index, 4);
    for _ in 0..10 {
        app.move_up();
    }
    assert_eq!(app.gemini_index, 0);
}

#[test]
fn cursor_of_empty_list_stays_zero() {
    let mut app = App::new(Vec::new());
    app.move_down();
    app.move_up();
    assert_eq!(app.gemini_index, 0);
    app.switch_focus();
    app.move_down();
    app.move_up();
    assert_eq!(app.anilist_index, 0);
}

#[test]
fn switching_focus_twice_restores_focus_and_cursors() {
    let mut app = App::new(five_recs());
    apply_initial_page(&mut app, page_of(10, 1, true));
    app.move_down();
    app.move_down();
    app.switch_focus();
    app.move_down();
    let focus_before = app.focus;
    let gemini_before = app.gemini_index;
    let anilist_before = app.anilist_index;

    app.switch_focus();
    assert_ne!(app.focus, focus_before);
    assert_eq!(app.gemini_index, gemini_before);
    assert_eq!(app.anilist_index, anilist_before);

    app.switch_focus();
    assert_eq!(app.focus, focus_before);
    assert_eq!(app.gemini_index, gemini_before);
    assert_eq!(app.anilist_index, anilist_before);
}

#[test]
fn current_selection_follows_focus() {
    let mut app = App::new(five_recs());
    app.move_down();
    assert_eq!(app.current_selection().unwrap(), "Beta");
    apply_initial_page(&mut app, page_of(3, 7, false));
    app.switch_focus();
    assert_eq!(app.current_selection().unwrap(), "Entry 7");
}

#[test]
fn scenario_move_down_past_end_triggers_fetch() {
    let mut app = App::new(five_recs());
    app.focus = Focus::AniList;
    apply_initial_page(&mut app, page_of(10, 1, true));
    app.anilist_index = 9;

    let act = dispatch(&mut app, Command::MoveDown);
    let (target, trigger) = match act {
        Some(Action::Fetch { target, trigger }) => (target, trigger),
        _ => panic!("expected a fetch request"),
    };
    assert_eq!(target, 2);
    assert_eq!(trigger, FetchTrigger::Scroll);
    assert_eq!(app.page, 1);
    assert_eq!(app.anilist_index, 9);

    apply_page_result(&mut app, target, trigger, Ok(page_of(10, 11, false)));
    assert_eq!(app.page, 2);
    assert_eq!(app.anilist_index, 0);
    assert_eq!(app.anilist_items.len(), 10);
    assert_eq!(app.anilist_items[0].id, 11);
    assert!(!app.has_next_page);
    assert_eq!(app.status_message, "Loaded page 2");
}

#[test]
fn scenario_move_down_past_end_without_next_page() {
    let mut app = App::new(five_recs());
    app.focus = Focus::AniList;
    apply_initial_page(&mut app, page_of(10, 1, false));
    app.anilist_index = 9;
    let before: Vec<i32> = app.anilist_items.iter().map(|a| a.id).collect();

    let act = dispatch(&mut app, Command::MoveDown);
    assert!(act.is_none());
    assert_eq!(app.page, 1);
    assert_eq!(app.anilist_index, 9);
    let after: Vec<i32> = app.anilist_items.iter().map(|a| a.id).collect();
    assert_eq!(before, after);
    assert_eq!(app.status_message, "no more pages available");
}

#[test]
fn scenario_failed_fetch_changes_nothing_but_status() {
    let mut app = App::new(five_recs());
    app.focus = Focus::AniList;
    apply_initial_page(&mut app, page_of(10, 1, true));
    app.anilist_index = 4;
    app.page = 2;

    apply_page_result(&mut app, 3, FetchTrigger::Paging, Err(FetchError));
    assert_eq!(app.page, 2);
    assert_eq!(app.anilist_index, 4);
    assert_eq!(app.anilist_items.len(), 10);
    assert_eq!(app.anilist_items[0].id, 1);
    assert!(app.has_next_page);
    assert_eq!(app.status_message, "Failed to load page");
}

#[test]
fn scenario_failed_scroll_fetch_message() {
    let mut app = App::new(five_recs());
    app.focus = Focus::AniList;
    apply_initial_page(&mut app, page_of(10, 1, true));
    apply_page_result(&mut app, 2, FetchTrigger::Scroll, Err(FetchError));
    assert_eq!(app.page, 1);
    assert_eq!(app.status_message, "Failed to load next page");
}

#[test]
fn scenario_activation_with_empty_secondary_list() {
    let mut app = App::new(five_recs());

    let act = dispatch(&mut app, Command::Activate);
    let title = match act {
        Some(Action::Handoff { title }) => title,
        _ => panic!("expected a handoff"),
    };
    assert_eq!(title, "Alpha");
    assert_eq!(app.status_message, "");

    app.switch_focus();
    assert_eq!(app.current_selection(), Err(SelectionError::EmptySelection));
    let act = dispatch(&mut app, Command::Activate);
    assert!(act.is_none());
    assert_eq!(app.status_message, "Nothing to play: the focused list is empty");
}

#[test]
fn explicit_paging_forward_and_backward() {
    let mut app = App::new(five_recs());
    app.focus = Focus::AniList;
    apply_initial_page(&mut app, page_of(10, 1, true));

    let act = dispatch(&mut app, Command::PageForward);
    let (target, trigger) = match act {
        Some(Action::Fetch { target, trigger }) => (target, trigger),
        _ => panic!("expected a fetch request"),
    };
    assert_eq!(target, 2);
    assert_eq!(trigger, FetchTrigger::Paging);
    apply_page_result(&mut app, target, trigger, Ok(page_of(10, 11, true)));
    assert_eq!(app.page, 2);
    assert_eq!(app.status_message, "Page 2");

    let act = dispatch(&mut app, Command::PageBackward);
    let (target, trigger) = match act {
        Some(Action::Fetch { target, trigger }) => (target, trigger),
        _ => panic!("expected a fetch request"),
    };
    assert_eq!(target, 1);
    apply_page_result(&mut app, target, trigger, Ok(page_of(10, 1, true)));
    assert_eq!(app.page, 1);
    assert_eq!(app.status_message, "Page 1");

    let act = dispatch(&mut app, Command::PageBackward);
    assert!(act.is_none());
    assert_eq!(app.page, 1);
}

#[test]
fn paging_keys_do_nothing_while_primary_is_focused() {
    let mut app = App::new(five_recs());
    apply_initial_page(&mut app, page_of(10, 1, true));
    let act = dispatch(&mut app, Command::PageForward);
    assert!(act.is_none());
    assert_eq!(app.status_message, "");
    let act = dispatch(&mut app, Command::PageBackward);
    assert!(act.is_none());
    assert_eq!(app.status_message, "");
}

#[test]
fn paging_forward_without_next_page_sets_status() {
    let mut app = App::new(five_recs());
    app.focus = Focus::AniList;
    apply_initial_page(&mut app, page_of(10, 1, false));
    let act = dispatch(&mut app, Command::PageForward);
    assert!(act.is_none());
    assert_eq!(app.page, 1);
    assert_eq!(app.status_message, "no more pages available");
}

#[test]
fn advance_and_retreat_decisions() {
    let mut app = App::new(five_recs());
    apply_initial_page(&mut app, page_of(10, 1, true));
    assert_eq!(advance_if_possible(&mut app), Some(2));
    assert_eq!(app.status_message, "");
    assert_eq!(retreat_if_possible(&mut app), None);

    app.page = 4;
    assert_eq!(retreat_if_possible(&mut app), Some(3));
    assert_eq!(app.status_message, "");

    app.has_next_page = false;
    assert_eq!(advance_if_possible(&mut app), None);
    assert_eq!(app.status_message, "no more pages available");
    assert_eq!(app.page, 4);
}

#[test]
fn quit_command_sets_terminate_flag() {
    let mut app = App::new(five_recs());
    assert!(!app.should_quit);
    let act = dispatch(&mut app, Command::Quit);
    assert!(act.is_none());
    assert!(app.should_quit);
}

#[test]
fn terminate_flag_is_never_unset() {
    let mut app = App::new(five_recs());
    let act = frame(&mut app, Some(Key::Char('q')));
    assert!(act.is_none());
    assert!(app.should_quit);
    dispatch(&mut app, Command::MoveDown);
    dispatch(&mut app, Command::SwitchFocus);
    frame(&mut app, Some(Key::Up));
    assert!(app.should_quit);

    let mut other = App::new(five_recs());
    frame(&mut other, Some(Key::Esc));
    assert!(other.should_quit);
}

#[test]
fn key_table_is_fixed() {
    assert_eq!(map_key(Key::Char('q')), Some(Command::Quit));
    assert_eq!(map_key(Key::Esc), Some(Command::Quit));
    assert_eq!(map_key(Key::Tab), Some(Command::SwitchFocus));
    assert_eq!(map_key(Key::Up), Some(Command::MoveUp));
    assert_eq!(map_key(Key::Down), Some(Command::MoveDown));
    assert_eq!(map_key(Key::Right), Some(Command::PageForward));
    assert_eq!(map_key(Key::Left), Some(Command::PageBackward));
    assert_eq!(map_key(Key::Enter), Some(Command::Activate));
    assert_eq!(map_key(Key::Char('x')), None);
}

#[test]
fn status_message_lives_exactly_one_frame() {
    let mut app = App::new(five_recs());
    app.focus = Focus::AniList;
    apply_initial_page(&mut app, page_of(10, 1, false));

    let act = frame(&mut app, Some(Key::Right));
    assert!(act.is_none());
    assert_eq!(app.status_message, "no more pages available");

    let act = frame(&mut app, None);
    assert!(act.is_none());
    assert_eq!(app.status_message, "");

    let act = frame(&mut app, Some(Key::Up));
    assert!(act.is_none());
    assert_eq!(app.status_message, "");
}

#[test]
fn frame_ignores_unmapped_keys() {
    let mut app = App::new(five_recs());
    let act = frame(&mut app, Some(Key::Char('z')));
    assert!(act.is_none());
    assert_eq!(app.gemini_index, 0);
    assert_eq!(app.focus, Focus::Gemini);
}

#[test]
fn handoff_restores_snapshot_for_any_exit_code() {
    let mut app = App::new(five_recs());
    app.set_filters(vec!["Action".to_string()], Some("Space".to_string()));
    apply_initial_page(&mut app, page_of(10, 1, true));
    app.move_down();
    app.status_message = "transient".to_string();

    let saved = snapshot(&app);

    app.gemini_index = 4;
    app.page = 9;
    app.has_next_page = false;
    app.anilist_items.clear();
    app.genres.clear();
    app.status_message = "garbage".to_string();

    restore_after_handoff(&mut app, saved, "Beta", PlayerOutcome::Exited { code: 42 });

    assert_eq!(app.focus, Focus::Gemini);
    assert_eq!(app.gemini_index, 1);
    assert_eq!(app.anilist_index, 0);
    assert_eq!(app.page, 1);
    assert_eq!(app.gemini_recs, five_recs());
    assert_eq!(app.anilist_items.len(), 10);
    assert_eq!(app.anilist_items[9].id, 10);
    assert_eq!(app.genres, vec!["Action"]);
    assert_eq!(app.tags, vec!["Space"]);
    assert!(app.has_next_page);
    assert!(!app.should_quit);
    assert_eq!(app.status_message, "returned from watching: Beta");
}

#[test]
fn handoff_launch_failure_reports_and_restores() {
    let mut app = App::new(five_recs());
    let saved = snapshot(&app);
    app.gemini_index = 3;

    restore_after_handoff(&mut app, saved, "Alpha", PlayerOutcome::LaunchFailed);
    assert_eq!(app.gemini_index, 0);
    assert_eq!(app.status_message, "Failed to launch player");
}

#[test]
fn snapshot_is_a_deep_copy() {
    let mut app = App::new(five_recs());
    apply_initial_page(&mut app, page_of(3, 1, true));
    let saved = snapshot(&app);

    app.gemini_recs[0].title = "Overwritten".to_string();
    app.anilist_items[0].title.romaji = "Overwritten".to_string();

    assert_eq!(saved.gemini_recs[0].title, "Alpha");
    assert_eq!(saved.anilist_items[0].title.romaji, "Entry 1");
}
