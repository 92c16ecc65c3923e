use play::app::{App, UIState};
use play::events::{Control, Effect, Key};
use play::search::{circular_next, circular_previous, next, previous, InputMode};
use play::track::Track;

fn track(audio: &str, title: &str) -> Track {
    Track {
        audio_hash: audio.to_string(),
        bg_hashes: Vec::new(),
        title: title.to_string(),
        title_unicode: String::new(),
        artist: String::new(),
        artist_unicode: String::new(),
        source: String::new(),
        tags: String::new(),
    }
}

fn searching_app() -> App {
    let tracks = vec![
        track("aa11", "red fish"),
        track("bb22", "blue fish"),
        track("cc33", "red bird"),
        track("dd44", "green tree"),
    ];
    let mut app = App::new("/osu", tracks);
    app.handle_main_key(Key::Char('s'));
    app
}

#[test]
fn motion_helpers_clamp_and_wrap() {
    assert_eq!(previous(7, 3), 4);
    assert_eq!(previous(2, 5), 0);
    assert_eq!(next(0, 3, 5), 2);
    assert_eq!(next(0, 9, 5), 5);
    assert_eq!(circular_next(2, 3, 1), 0);
    assert_eq!(circular_next(0, 3, 1), 1);
    assert_eq!(circular_previous(0, 3, 1), 2);
    assert_eq!(circular_previous(1, 3, 1), 0);
}

#[test]
fn commit_selects_first_hit_and_switches_to_browsing() {
    let mut app = searching_app();
    app.handle_search_key(Key::Enter, "fish");
    assert_eq!(app.search_state.results, vec![0, 1]);
    assert_eq!(app.search_state.selected, Some(0));
    assert_eq!(app.search_state.input_mode, InputMode::Normal);
    assert_eq!(app.search_state.query, "fish");
}

#[test]
fn commit_with_no_hits_selects_nothing() {
    let mut app = searching_app();
    app.handle_search_key(Key::Tab, "whale");
    assert!(app.search_state.results.is_empty());
    assert_eq!(app.search_state.selected, None);
    assert_eq!(app.search_state.input_mode, InputMode::Normal);
}

#[test]
fn page_motion_clamps_never_wraps() {
    let mut app = searching_app();
    app.set_list_height(5);
    app.handle_search_key(Key::Enter, "e");
    assert_eq!(app.search_state.results.len(), 4);
    app.handle_search_key(Key::PageDown, "");
    assert_eq!(app.search_state.selected, Some(3));
    app.handle_search_key(Key::PageDown, "");
    assert_eq!(app.search_state.selected, Some(3));
    app.handle_search_key(Key::PageUp, "");
    assert_eq!(app.search_state.selected, Some(0));
}

#[test]
fn page_down_over_three_results_with_page_five() {
    let mut app = searching_app();
    app.tracks[3].title = "red green".to_string();
    app.set_list_height(5);
    app.handle_search_key(Key::Enter, "red");
    assert_eq!(app.search_state.results.len(), 3);
    assert_eq!(app.search_state.selected, Some(0));
    app.handle_search_key(Key::PageDown, "");
    assert_eq!(app.search_state.selected, Some(2));
}

#[test]
fn single_steps_wrap_circularly() {
    let mut app = searching_app();
    app.handle_search_key(Key::Enter, "red");
    assert_eq!(app.search_state.selected, Some(0));
    app.handle_search_key(Key::Up, "");
    assert_eq!(app.search_state.selected, Some(1));
    app.handle_search_key(Key::Down, "");
    assert_eq!(app.search_state.selected, Some(0));
    app.handle_search_key(Key::Down, "");
    assert_eq!(app.search_state.selected, Some(1));
    app.handle_search_key(Key::Down, "");
    assert_eq!(app.search_state.selected, Some(0));
}

#[test]
fn search_folds_case_beyond_ascii() {
    let mut app = searching_app();
    app.tracks[3].source = "ÄBC".to_string();
    let r = app.search("Äb");
    assert_eq!(r, vec![3]);
}

#[test]
fn motion_with_no_results_is_a_no_op() {
    let mut app = searching_app();
    app.handle_search_key(Key::Enter, "whale");
    app.handle_search_key(Key::Down, "");
    app.handle_search_key(Key::Up, "");
    app.handle_search_key(Key::PageDown, "");
    app.handle_search_key(Key::PageUp, "");
    assert_eq!(app.search_state.selected, None);
}

#[test]
fn escape_in_editing_abandons_search() {
    let mut app = searching_app();
    let effects = app.handle_search_key(Key::Esc, "half-typed");
    assert!(effects.is_empty());
    assert_eq!(app.ui_state, UIState::Main);
}

#[test]
fn other_editing_keys_feed_the_text_buffer() {
    let mut app = searching_app();
    let effects = app.handle_search_key(Key::Char('f'), "f");
    assert_eq!(effects, vec![Effect::FeedInput]);
    assert_eq!(app.ui_state, UIState::Search);
}

#[test]
fn escape_in_browsing_returns_to_editing() {
    let mut app = searching_app();
    app.handle_search_key(Key::Enter, "red");
    assert_eq!(app.search_state.input_mode, InputMode::Normal);
    app.handle_search_key(Key::Esc, "");
    assert_eq!(app.search_state.input_mode, InputMode::Editing);
}

#[test]
fn enter_in_browsing_jumps_opens_and_unpauses() {
    let mut app = searching_app();
    app.set_paused(true);
    app.handle_search_key(Key::Enter, "bird");
    assert_eq!(app.search_state.results, vec![2]);
    let effects = app.handle_search_key(Key::Enter, "");
    assert_eq!(app.idx, 2);
    assert!(!app.paused);
    assert_eq!(app.ui_state, UIState::Main);
    assert_eq!(
        effects[0],
        Effect::Control(Control::Open("/osu/c/cc/cc33".to_string()))
    );
    assert!(effects.contains(&Effect::Control(Control::Play)));
}

#[test]
fn enter_in_browsing_without_selection_does_nothing() {
    let mut app = searching_app();
    app.handle_search_key(Key::Enter, "whale");
    let effects = app.handle_search_key(Key::Enter, "");
    assert!(effects.is_empty());
    assert_eq!(app.ui_state, UIState::Search);
}
