use play::app::{App, UIState};
use play::events::{Control, Effect, Key, MediaEvent, PlayerEvent};
use play::search::InputMode;
use play::track::Track;

fn track(audio: &str, title: &str, artist: &str) -> Track {
    Track {
        audio_hash: audio.to_string(),
        bg_hashes: Vec::new(),
        title: title.to_string(),
        title_unicode: String::new(),
        artist: artist.to_string(),
        artist_unicode: String::new(),
        source: String::new(),
        tags: String::new(),
    }
}

fn three_track_app() -> App {
    let tracks = vec![
        track("aa11", "Alpha", "ArtA"),
        track("bb22", "Beta", "ArtB"),
        track("cc33", "Gamma", "ArtC"),
    ];
    App::new("/osu", tracks)
}

#[test]
fn cursor_full_cycle_returns_home() {
    let mut app = three_track_app();
    assert_eq!(app.idx, 0);
    for _ in 0..3 {
        app.next_idx();
    }
    assert_eq!(app.idx, 0);
}

#[test]
fn cursor_wraps_both_ways() {
    let mut app = three_track_app();
    app.prev_idx();
    assert_eq!(app.idx, 2);
    app.next_idx();
    assert_eq!(app.idx, 0);
    app.next_idx();
    assert_eq!(app.idx, 1);
}

#[test]
fn set_paused_twice_is_one_call() {
    let mut once = three_track_app();
    once.set_paused(true);
    let mut twice = three_track_app();
    twice.set_paused(true);
    twice.set_paused(true);
    assert_eq!(once.paused, twice.paused);
    assert_eq!(once.progress, twice.progress);
    assert_eq!(once.total, twice.total);
    assert_eq!(once.repeat, twice.repeat);
    assert_eq!(once.awake, twice.awake);
}

#[test]
fn set_paused_effects_and_awake() {
    let mut app = three_track_app();
    assert!(app.awake);
    let effects = app.set_paused(true);
    assert!(app.paused);
    assert!(!app.awake);
    assert_eq!(effects[0], Effect::ReleaseAwake);
    assert_eq!(effects[1], Effect::Control(Control::Pause));
    assert!(matches!(
        effects[2],
        Effect::Playback { paused: true, position: 0 }
    ));
    assert!(matches!(effects[3], Effect::TermTitle(_)));
    let effects = app.set_paused(false);
    assert!(!app.paused);
    assert!(app.awake);
    assert_eq!(effects[0], Effect::AcquireAwake);
    assert_eq!(effects[1], Effect::Control(Control::Play));
    // resuming while the inhibitor is already held does not re-acquire it
    let effects = app.set_paused(false);
    assert_eq!(effects[0], Effect::Control(Control::Play));
    assert_eq!(effects.len(), 3);
}

#[test]
fn toggle_unicode_twice_restores_display() {
    let mut app = three_track_app();
    app.tracks[0].title_unicode = "アルファ".to_string();
    app.tracks[0].artist_unicode = "アーティスト".to_string();
    app.update_metadata(false);
    let title = app.title.clone();
    let artist = app.artist.clone();
    let source = app.source.clone();
    let cover = app.cover.clone();
    app.toggle_unicode();
    assert_eq!(app.title, "アルファ");
    app.toggle_unicode();
    assert_eq!(app.title, title);
    assert_eq!(app.artist, artist);
    assert_eq!(app.source, source);
    assert_eq!(app.cover, cover);
    assert!(!app.is_unicode);
}

#[test]
fn unicode_title_falls_back_when_blank() {
    let mut app = three_track_app();
    app.tracks[0].title_unicode = "   ".to_string();
    app.is_unicode = true;
    let t = app.get_title(&app.tracks[0]);
    assert_eq!(t, "Alpha");
    app.tracks[0].title_unicode = " β ".to_string();
    let t = app.get_title(&app.tracks[0]);
    assert_eq!(t, " β ");
}

#[test]
fn empty_query_returns_every_index_in_order() {
    let app = three_track_app();
    let r = app.search("");
    assert_eq!(r, vec![0, 1, 2]);
}

#[test]
fn search_is_case_insensitive_over_tags() {
    let mut app = three_track_app();
    app.tracks[1].tags = "loud ABC quiet".to_string();
    let r = app.search("abc");
    assert_eq!(r, vec![1]);
}

#[test]
fn search_is_case_insensitive_over_title() {
    let mut app = three_track_app();
    app.tracks[2].title = "xAbCx".to_string();
    let r = app.search("ABC");
    assert_eq!(r, vec![2]);
}

#[test]
fn search_misses_when_nothing_matches() {
    let app = three_track_app();
    let r = app.search("zzz");
    assert!(r.is_empty());
}

#[test]
fn eof_with_repeat_reopens_same_track() {
    let mut app = three_track_app();
    app.repeat = true;
    let effects = app.handle_player_event(PlayerEvent::Eof);
    assert_eq!(app.idx, 0);
    assert_eq!(
        effects[0],
        Effect::Control(Control::Open("/osu/a/aa/aa11".to_string()))
    );
}

#[test]
fn eof_without_repeat_advances_one() {
    let mut app = three_track_app();
    let effects = app.handle_player_event(PlayerEvent::Eof);
    assert_eq!(app.idx, 1);
    assert_eq!(
        effects[0],
        Effect::Control(Control::Open("/osu/b/bb/bb22".to_string()))
    );
}

#[test]
fn pos_event_updates_progress_and_pushes_playback() {
    let mut app = three_track_app();
    let effects = app.handle_player_event(PlayerEvent::Pos(123456));
    assert_eq!(app.progress, 123456);
    assert!(matches!(
        effects[0],
        Effect::Playback { paused: false, position: 123456 }
    ));
}

#[test]
fn negative_times_clamp_to_zero() {
    let mut app = three_track_app();
    app.handle_player_event(PlayerEvent::Pos(-50));
    assert_eq!(app.progress, 0);
    app.handle_player_event(PlayerEvent::Duration(-1));
    assert_eq!(app.total, 0);
}

#[test]
fn duration_event_pushes_metadata() {
    let mut app = three_track_app();
    app.update_metadata(false);
    let effects = app.handle_player_event(PlayerEvent::Duration(200000));
    assert_eq!(app.total, 200000);
    assert!(matches!(
        &effects[0],
        Effect::Metadata { title, duration: 200000, .. } if title == "Alpha"
    ));
}

#[test]
fn quit_event_exits_loop() {
    let mut app = three_track_app();
    let effects = app.handle_player_event(PlayerEvent::Quit);
    assert_eq!(effects, vec![Effect::Exit]);
}

#[test]
fn media_next_and_previous_move_cursor_and_open() {
    let mut app = three_track_app();
    let effects = app.handle_media_event(MediaEvent::Next);
    assert_eq!(app.idx, 1);
    assert_eq!(
        effects[0],
        Effect::Control(Control::Open("/osu/b/bb/bb22".to_string()))
    );
    let effects = app.handle_media_event(MediaEvent::Previous);
    assert_eq!(app.idx, 0);
    assert_eq!(
        effects[0],
        Effect::Control(Control::Open("/osu/a/aa/aa11".to_string()))
    );
}

#[test]
fn media_toggle_flips_pause_state() {
    let mut app = three_track_app();
    app.handle_media_event(MediaEvent::Toggle);
    assert!(app.paused);
    app.handle_media_event(MediaEvent::Toggle);
    assert!(!app.paused);
    // explicit play/pause are idempotent
    app.handle_media_event(MediaEvent::Pause);
    app.handle_media_event(MediaEvent::Pause);
    assert!(app.paused);
    app.handle_media_event(MediaEvent::Play);
    assert!(!app.paused);
}

#[test]
fn seek_keys_send_relative_targets() {
    let mut app = three_track_app();
    let effects = app.handle_main_key(Key::Left);
    assert_eq!(effects, vec![Effect::Control(Control::Seek(-5000))]);
    app.handle_player_event(PlayerEvent::Pos(60000));
    let effects = app.handle_main_key(Key::Right);
    assert_eq!(effects, vec![Effect::Control(Control::Seek(65000))]);
    let effects = app.handle_main_key(Key::Left);
    assert_eq!(effects, vec![Effect::Control(Control::Seek(55000))]);
}

#[test]
fn main_keys_route_quit_repeat_skip() {
    let mut app = three_track_app();
    let effects = app.handle_main_key(Key::Char('q'));
    assert_eq!(effects, vec![Effect::Control(Control::Quit)]);
    assert!(!app.repeat);
    app.handle_main_key(Key::Char('r'));
    assert!(app.repeat);
    app.handle_main_key(Key::Char('>'));
    assert_eq!(app.idx, 1);
    app.handle_main_key(Key::Char('<'));
    assert_eq!(app.idx, 0);
    let effects = app.handle_main_key(Key::Char('x'));
    assert!(effects.is_empty());
}

#[test]
fn terminal_title_names_state_and_track() {
    let mut app = three_track_app();
    let t = app.construct_terminal_title();
    assert_eq!(t, "clicking-circles-player - Playing Alpha");
    app.set_paused(true);
    let t = app.construct_terminal_title();
    assert_eq!(t, "clicking-circles-player - Paused Alpha");
}

#[test]
fn item_to_string_joins_title_and_artist() {
    let app = three_track_app();
    assert_eq!(app.item_to_string(1), "Beta - ArtB");
}

#[test]
fn entering_search_resets_the_view() {
    let mut app = three_track_app();
    app.handle_main_key(Key::Char('s'));
    assert_eq!(app.ui_state, UIState::Search);
    assert_eq!(app.search_state.input_mode, InputMode::Editing);
    assert!(app.search_state.results.is_empty());
    assert!(app.search_state.selected.is_none());
    assert_eq!(app.search_state.query, "");
}

#[test]
fn update_metadata_picks_cover_from_bg_hashes() {
    let mut app = three_track_app();
    app.tracks[0].bg_hashes = vec!["dd44".to_string()];
    let effects = app.update_metadata(true);
    assert_eq!(app.cover, Some("dd44".to_string()));
    assert_eq!(effects[0], Effect::LoadCover(Some("dd44".to_string())));
    // a track without background images clears the cover
    app.next_idx();
    let effects = app.update_metadata(true);
    assert_eq!(app.cover, None);
    assert_eq!(effects[0], Effect::LoadCover(None));
}
