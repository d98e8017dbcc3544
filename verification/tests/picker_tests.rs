use emojid::catalog::{build_catalog, Category};
use emojid::picker::{Action, EmojiApp, Event, Move};
use emojid::prefs::Config;

fn strings(items: &[&str]) -> Vec<String> {
    items.iter().map(|s| s.to_string()).collect()
}

fn category(name: &str, items: &[&str]) -> Category {
    Category { name: name.to_string(), emojis: strings(items) }
}

fn two_categories() -> EmojiApp {
    let cats = vec![category("Smileys", &["😀", "😁"]), category("Gestures", &["👍"])];
    EmojiApp::with_categories(cats, 0, true, true).unwrap()
}

fn gestures_only() -> EmojiApp {
    let cats = vec![category("Gestures", &["👍", "🙏", "👏"])];
    EmojiApp::with_categories(cats, 0, false, false).unwrap()
}

#[test]
fn commit_emits_highlighted_symbol_and_closes() {
    let mut app = two_categories();
    assert_eq!(app.input(), "");
    assert_eq!(app.category(), 0);
    app.move_selection(Move::Down);
    assert_eq!(app.selected(), 1);
    let action = app.commit();
    assert_eq!(action, Action::Commit { symbol: "😁".to_string(), auto_paste: true });
    assert!(app.is_closed());
}

#[test]
fn filter_narrows_view_and_resets_highlight() {
    let mut app = gestures_only();
    app.move_selection(Move::Down);
    app.move_selection(Move::Down);
    assert_eq!(app.selected(), 2);
    app.filter_changed("🙏".to_string());
    assert_eq!(app.visible(), strings(&["🙏"]));
    assert_eq!(app.selected(), 0);
    let action = app.commit();
    assert_eq!(action, Action::Commit { symbol: "🙏".to_string(), auto_paste: false });
    assert!(app.is_closed());
}

#[test]
fn filter_keeps_highlight_that_still_fits() {
    let cats = vec![category("Words", &["alpha", "beta", "gamma", "delta"])];
    let mut app = EmojiApp::with_categories(cats, 0, true, true).unwrap();
    app.move_selection(Move::Down);
    assert_eq!(app.selected(), 1);
    app.filter_changed("a".to_string());
    assert_eq!(app.visible(), strings(&["alpha", "beta", "gamma", "delta"]));
    assert_eq!(app.selected(), 1);
    app.filter_changed("mm".to_string());
    assert_eq!(app.visible(), strings(&["gamma"]));
    assert_eq!(app.selected(), 0);
}

#[test]
fn filter_is_case_sensitive_substring() {
    let cats = vec![category("Words", &["Shrug", "shrug", "SHRUG", "a shrug b", "shr ug"])];
    let mut app = EmojiApp::with_categories(cats, 0, true, true).unwrap();
    app.filter_changed("shrug".to_string());
    assert_eq!(app.visible(), strings(&["shrug", "a shrug b"]));
    app.filter_changed("S".to_string());
    assert_eq!(app.visible(), strings(&["Shrug", "SHRUG"]));
    app.filter_changed("shrugs".to_string());
    assert_eq!(app.visible(), Vec::<String>::new());
}

#[test]
fn empty_filter_shows_whole_category() {
    let mut app = EmojiApp::new(Config::default());
    assert_eq!(app.visible(), strings(&["😀", "😁", "😂", "🤣", "😊", "😍", "😎", "😭"]));
    app.filter_changed("😂".to_string());
    assert_eq!(app.visible(), strings(&["😂"]));
    app.filter_changed(String::new());
    assert_eq!(app.visible(), strings(&["😀", "😁", "😂", "🤣", "😊", "😍", "😎", "😭"]));
}

#[test]
fn filter_matches_part_of_a_symbol() {
    let mut app = EmojiApp::new(Config::default());
    app.select_category(2);
    app.filter_changed("\u{fe0f}".to_string());
    assert_eq!(app.visible(), strings(&["❤️"]));
}

#[test]
fn navigation_keeps_category_in_range() {
    let mut app = EmojiApp::new(Config::default());
    let n = app.categories().len();
    assert_eq!(n, 4);
    let mut seen = Vec::new();
    for step in 0..23 {
        if step % 5 == 4 {
            app.prev_category();
        } else {
            app.next_category();
        }
        assert!(app.category() < n);
        seen.push(app.category());
    }
    assert_eq!(&seen[..6], &[1, 2, 3, 0, 0, 1]);
}

#[test]
fn prev_at_first_does_not_wrap() {
    let mut app = two_categories();
    assert_eq!(app.prev_category(), Action::Persist(0));
    assert_eq!(app.category(), 0);
}

#[test]
fn next_at_last_wraps_to_first() {
    let mut app = two_categories();
    assert_eq!(app.next_category(), Action::Persist(1));
    assert_eq!(app.category(), 1);
    assert_eq!(app.next_category(), Action::Persist(0));
    assert_eq!(app.category(), 0);
}

#[test]
fn prev_steps_back_by_one() {
    let mut app = EmojiApp::new(Config::default());
    app.select_category(3);
    assert_eq!(app.prev_category(), Action::Persist(2));
    assert_eq!(app.category(), 2);
}

#[test]
fn category_change_resets_highlight() {
    let mut app = EmojiApp::new(Config::default());
    app.move_selection(Move::Down);
    app.move_selection(Move::Down);
    assert_eq!(app.selected(), 2);
    app.next_category();
    assert_eq!(app.selected(), 0);
    app.move_selection(Move::Down);
    app.prev_category();
    assert_eq!(app.selected(), 0);
    app.move_selection(Move::Down);
    assert_eq!(app.select_category(3), Action::Persist(3));
    assert_eq!(app.category(), 3);
    assert_eq!(app.selected(), 0);
}

#[test]
fn category_change_without_remember_asks_nothing() {
    let mut app = gestures_only();
    assert_eq!(app.next_category(), Action::Stay);
    assert_eq!(app.prev_category(), Action::Stay);
    assert_eq!(app.select_category(0), Action::Stay);
}

#[test]
fn commit_on_empty_view_stays_open() {
    let mut app = gestures_only();
    app.filter_changed("no such symbol".to_string());
    assert_eq!(app.visible(), Vec::<String>::new());
    assert_eq!(app.highlighted(), None);
    assert_eq!(app.commit(), Action::Stay);
    assert!(!app.is_closed());
    assert_eq!(app.selected(), 0);
}

#[test]
fn commit_on_empty_category_stays_open() {
    let cfg = Config {
        auto_paste: None,
        remember_last_category: None,
        last_category: Some(4),
        kaomoji: Some(emojid::prefs::KaomojiSection { items: vec![] }),
    };
    let mut app = EmojiApp::new(cfg);
    assert_eq!(app.category(), 4);
    app.move_selection(Move::Down);
    assert_eq!(app.selected(), 0);
    assert_eq!(app.commit(), Action::Stay);
    assert!(!app.is_closed());
}

#[test]
fn selection_stops_at_both_ends() {
    let mut app = gestures_only();
    app.move_selection(Move::Up);
    assert_eq!(app.selected(), 0);
    app.move_selection(Move::Down);
    app.move_selection(Move::Down);
    assert_eq!(app.selected(), 2);
    app.move_selection(Move::Down);
    assert_eq!(app.selected(), 2);
    assert_eq!(app.highlighted(), Some("👏".to_string()));
    app.move_selection(Move::Up);
    assert_eq!(app.selected(), 1);
}

#[test]
fn cancel_closes_without_symbol() {
    let mut app = two_categories();
    assert_eq!(app.cancel(), Action::Close);
    assert!(app.is_closed());
}

#[test]
fn closed_session_ignores_events() {
    let mut app = two_categories();
    app.cancel();
    assert_eq!(app.handle(Event::NextCategory), Action::Stay);
    assert_eq!(app.handle(Event::Commit), Action::Stay);
    assert_eq!(app.handle(Event::SelectItem(0)), Action::Stay);
    assert_eq!(app.handle(Event::FilterChanged("x".to_string())), Action::Stay);
    assert_eq!(app.handle(Event::Cancel), Action::Stay);
    assert_eq!(app.category(), 0);
    assert_eq!(app.input(), "");
    assert!(app.is_closed());
}

#[test]
fn click_on_item_commits_it() {
    let mut app = gestures_only();
    assert_eq!(app.select_item(3), Action::Stay);
    assert!(!app.is_closed());
    assert_eq!(
        app.select_item(2),
        Action::Commit { symbol: "👏".to_string(), auto_paste: false }
    );
    assert!(app.is_closed());
    assert_eq!(app.selected(), 2);
}

#[test]
fn handle_runs_a_whole_session() {
    let mut app = EmojiApp::new(Config::default());
    assert_eq!(app.handle(Event::NextCategory), Action::Persist(1));
    assert_eq!(app.handle(Event::MoveSelection(Move::Down)), Action::Stay);
    assert_eq!(app.handle(Event::MoveSelection(Move::Down)), Action::Stay);
    assert_eq!(app.handle(Event::MoveSelection(Move::Up)), Action::Stay);
    assert_eq!(app.selected(), 1);
    assert_eq!(app.handle(Event::FilterChanged("👏".to_string())), Action::Stay);
    assert_eq!(app.input(), "👏");
    assert_eq!(app.selected(), 0);
    assert_eq!(
        app.handle(Event::Commit),
        Action::Commit { symbol: "👏".to_string(), auto_paste: true }
    );
    assert!(app.is_closed());
}

#[test]
fn handle_select_category_and_cancel() {
    let mut app = EmojiApp::new(Config::default());
    assert_eq!(app.handle(Event::SelectCategory(2)), Action::Persist(2));
    assert_eq!(app.handle(Event::PrevCategory), Action::Persist(1));
    assert_eq!(app.handle(Event::Cancel), Action::Close);
    assert!(app.is_closed());
}

#[test]
fn new_session_follows_preferences() {
    let cfg = Config {
        auto_paste: Some(false),
        remember_last_category: Some(true),
        last_category: Some(2),
        kaomoji: None,
    };
    let app = EmojiApp::new(cfg);
    assert_eq!(app.category(), 2);
    assert_eq!(app.selected(), 0);
    assert_eq!(app.input(), "");
    assert!(!app.auto_paste());
    assert!(app.remember_last_category());
    assert!(!app.is_closed());
    assert_eq!(app.categories(), &build_catalog(None));
}

#[test]
fn new_session_fits_start_to_catalog() {
    let cfg = Config {
        auto_paste: None,
        remember_last_category: None,
        last_category: Some(17),
        kaomoji: None,
    };
    let app = EmojiApp::new(cfg);
    assert_eq!(app.category(), 3);
    assert!(app.auto_paste());
    assert!(app.remember_last_category());
}

#[test]
fn new_session_ignores_stored_category_when_not_remembered() {
    let cfg = Config {
        auto_paste: Some(true),
        remember_last_category: Some(false),
        last_category: Some(2),
        kaomoji: None,
    };
    let app = EmojiApp::new(cfg);
    assert_eq!(app.category(), 0);
    assert!(!app.remember_last_category());
}

#[test]
fn with_categories_needs_a_category() {
    assert!(EmojiApp::with_categories(Vec::new(), 0, true, true).is_none());
    let app = EmojiApp::with_categories(vec![category("One", &[])], 9, true, false).unwrap();
    assert_eq!(app.category(), 0);
    assert_eq!(app.visible(), Vec::<String>::new());
}

#[test]
fn persist_category_overwrites_only_last_category() {
    let mut app = EmojiApp::new(Config::default());
    app.select_category(3);
    let stored = Config {
        auto_paste: Some(false),
        remember_last_category: None,
        last_category: Some(1),
        kaomoji: Some(emojid::prefs::KaomojiSection { items: strings(&["(o_o)"]) }),
    };
    let written = app.persist_category(stored).unwrap();
    assert_eq!(
        written,
        Config {
            auto_paste: Some(false),
            remember_last_category: None,
            last_category: Some(3),
            kaomoji: Some(emojid::prefs::KaomojiSection { items: strings(&["(o_o)"]) }),
        }
    );
}

#[test]
fn persist_category_writes_nothing_when_not_remembered() {
    let app = gestures_only();
    assert_eq!(app.persist_category(Config::default()), None);
}
