//! The application core: the single-threaded state machine that owns the
//! playlist, cursor, transport flags and search state, and that turns
//! backend events, OS media-control events and terminal keys into state
//! transitions plus a list of effects for its caller to perform.
//!
//! The core performs no I/O itself. Every transition returns the effects it
//! asks for — control messages for the playback worker, pushes to the OS
//! media surface, terminal retitling, idle-inhibitor changes — in the order
//! they are to be performed.

use crate::cursor::{next_of, prev_of};
use crate::events::{opt_view, Control, Effect, Key, MediaEvent, PlayerEvent};
use crate::path::{file_path_view, get_file_path};
use crate::search::{
    circular_next, circular_previous, next, previous, search_result, search_tracks, InputMode,
    SearchState,
};
use crate::text::{is_blank, unicode_lower};
use crate::track::{artist_view, title_view, Track};
use vstd::prelude::*;

verus! {

/// Which view owns the keyboard: the main transport view or the search view.
#[derive(Debug, PartialEq, Eq, Structural, Clone, Copy)]
pub enum UIState {
    Main,
    Search,
}

/// How far a single seek key moves the position, in milliseconds.
pub const SEEK_STEP_MS: i64 = 5000;

/// A track is usable when its content hashes are long enough to be fanned
/// out into the two-level directory prefix.
pub open spec fn track_ok(t: Track) -> bool {
    &&& t.audio_hash@.len() >= 2
    &&& forall|j: int| 0 <= j < t.bg_hashes@.len() ==> (#[trigger] t.bg_hashes@[j])@.len() >= 2
}

/// The application core's state. `progress` and `total` are milliseconds,
/// owned by the core and clamped to zero on the way in; `cover` names the
/// background-image hash whose cached crop currently serves as cover art.
pub struct App {
    pub progress: i64,
    pub total: i64,
    pub paused: bool,
    pub idx: usize,
    pub title: String,
    pub artist: String,
    pub source: String,
    pub cover: Option<String>,
    pub is_unicode: bool,
    pub osu_path: String,
    pub tracks: Vec<Track>,
    pub ui_state: UIState,
    pub search_state: SearchState,
    pub repeat: bool,
    pub awake: bool,
    pub ui_dirty: bool,
}

impl App {
    /// The invariant every transition preserves: a non-empty playlist of
    /// usable tracks, a cursor inside it, non-negative transport times, and
    /// a search state whose results and selection stay in range.
    pub open spec fn wf(&self) -> bool {
        &&& self.tracks@.len() > 0
        &&& (self.idx as int) < self.tracks@.len()
        &&& self.progress >= 0
        &&& self.total >= 0
        &&& forall|i: int| 0 <= i < self.tracks@.len() ==> track_ok(#[trigger] self.tracks@[i])
        &&& self.search_state.list_height >= 1
        &&& forall|j: int|
            0 <= j < self.search_state.results@.len() ==> (
            #[trigger] self.search_state.results@[j]) < self.tracks@.len()
        &&& (self.search_state.selected matches Some(s) ==> s
            < self.search_state.results@.len())
    }

    /// The current track.
    pub open spec fn current(&self) -> Track {
        self.tracks@[self.idx as int]
    }
}

/// The terminal title for a given pause flag: the application name, the
/// transport word, and the current track's displayed title.
pub open spec fn terminal_title_of(app: App, paused: bool) -> Seq<char> {
    "clicking-circles-player - "@ + (if paused {
        "Paused"@
    } else {
        "Playing"@
    }) + " "@ + title_view(app.current(), app.is_unicode)
}

/// The terminal title of the state as it stands.
pub open spec fn terminal_title_view(app: App) -> Seq<char> {
    terminal_title_of(app, app.paused)
}

/// The effect retitles the terminal for `app`, with the transport word taken
/// from `paused`.
pub open spec fn is_term_title_with(e: Effect, app: App, paused: bool) -> bool {
    e matches Effect::TermTitle(t) && t@ == terminal_title_of(app, paused)
}

/// The effect retitles the terminal for `app` as it stands.
pub open spec fn is_term_title(e: Effect, app: App) -> bool {
    is_term_title_with(e, app, app.paused)
}

/// The effect pushes `app`'s playback state (pause flag and position) to the
/// OS media surface.
pub open spec fn is_playback_push(e: Effect, app: App) -> bool {
    e matches Effect::Playback { paused, position } && paused == app.paused && position
        == app.progress
}

/// The effect pushes `app`'s full display metadata (title, artist, album,
/// duration, cover reference) to the OS media surface.
pub open spec fn is_metadata_push(e: Effect, app: App) -> bool {
    e matches Effect::Metadata { title, artist, album, duration, cover } && title@ == app.title@
        && artist@ == app.artist@ && album@ == app.source@ && duration == app.total && opt_view(
        cover,
    ) == opt_view(app.cover)
}

/// The effect tells the playback worker to open `app`'s current track.
pub open spec fn is_open_current(e: Effect, app: App) -> bool {
    e matches Effect::Control(c) && c matches Control::Open(p) && p@ == file_path_view(
        app.osu_path@,
        app.current().audio_hash@,
    )
}

/// The effect asks the renderer to load the background image `app` now
/// points at (or to fall back to the empty image).
pub open spec fn is_load_cover(e: Effect, app: App) -> bool {
    e matches Effect::LoadCover(c) && opt_view(c) == opt_view(app.cover)
}

/// `b` is `a` with its stored display metadata (title, artist, source)
/// recomputed from `a`'s current track, and everything else — except
/// possibly the cover — unchanged.
pub open spec fn display_refreshed(a: App, b: App) -> bool {
    &&& b.title@ == title_view(a.current(), a.is_unicode)
    &&& b.artist@ == artist_view(a.current(), a.is_unicode)
    &&& b.source@ == a.current().source@
    &&& b.progress == a.progress
    &&& b.total == a.total
    &&& b.paused == a.paused
    &&& b.idx == a.idx
    &&& b.is_unicode == a.is_unicode
    &&& b.osu_path == a.osu_path
    &&& b.tracks == a.tracks
    &&& b.ui_state == a.ui_state
    &&& b.search_state == a.search_state
    &&& b.repeat == a.repeat
    &&& b.awake == a.awake
    &&& b.ui_dirty == a.ui_dirty
}

/// The metadata-refresh effects issued against intermediate state `app`,
/// with the terminal's transport word taken from `paused`: a metadata push
/// followed by a terminal retitle.
pub open spec fn effs_metadata(s: Seq<Effect>, app: App, paused: bool) -> bool {
    &&& s.len() == 2
    &&& is_metadata_push(s[0], app)
    &&& is_term_title_with(s[1], app, paused)
}

/// The effects of re-opening the current track and refreshing all display
/// metadata, cover image included.
pub open spec fn effs_open_refresh(s: Seq<Effect>, app: App, paused: bool) -> bool {
    &&& s.len() == 4
    &&& is_open_current(s[0], app)
    &&& is_load_cover(s[1], app)
    &&& is_metadata_push(s[2], app)
    &&& is_term_title_with(s[3], app, paused)
}

/// The state after `set_paused(p)`: only the pause flag and the intent to
/// hold the idle inhibitor change — paused releases it, playing holds it.
pub open spec fn paused_step(a: App, p: bool) -> App {
    App { paused: p, awake: !p, ..a }
}

/// `c` names a cover taken from track `t`: nothing exactly when `t` has no
/// background images, else one of `t`'s background-image hashes.
pub open spec fn cover_from(c: Option<String>, t: Track) -> bool {
    &&& (c is None <==> t.bg_hashes@.len() == 0)
    &&& (c matches Some(h) ==> exists|j: int|
        0 <= j < t.bg_hashes@.len() && h@ == (#[trigger] t.bg_hashes@[j])@)
}

/// `b` is `a` with the cursor moved to `new_idx`, the screen marked dirty,
/// the display metadata recomputed from the track now under the cursor, and
/// a cover picked from that track.
pub open spec fn skipped_to(a: App, b: App, new_idx: int) -> bool {
    &&& display_refreshed((App { idx: new_idx as usize, ui_dirty: true, ..a }), b)
    &&& cover_from(b.cover, a.tracks@[new_idx])
}

/// The result-list entry motion starts from: the selection, or the first
/// entry when nothing is selected yet.
pub open spec fn sel_or_zero(st: SearchState) -> int {
    match st.selected {
        Some(i) => i as int,
        None => 0,
    }
}

/// `a` with its result-list selection replaced and the screen marked dirty.
pub open spec fn with_selection(a: App, s: Option<usize>) -> App {
    App {
        search_state: (SearchState { selected: s, ..a.search_state }),
        ui_dirty: true,
        ..a
    }
}

/// The effects of `set_paused(p)` issued from a state that held the idle
/// inhibitor iff `was_awake`: the inhibitor change (release when pausing;
/// acquire when resuming without holding it), the control message, then a
/// playback push and a terminal retitle against the new state `app`.
pub open spec fn effs_set_paused(s: Seq<Effect>, app: App, was_awake: bool) -> bool {
    if app.paused {
        &&& s.len() == 4
        &&& s[0] == Effect::ReleaseAwake
        &&& s[1] == Effect::Control(Control::Pause)
        &&& is_playback_push(s[2], app)
        &&& is_term_title(s[3], app)
    } else if !was_awake {
        &&& s.len() == 4
        &&& s[0] == Effect::AcquireAwake
        &&& s[1] == Effect::Control(Control::Play)
        &&& is_playback_push(s[2], app)
        &&& is_term_title(s[3], app)
    } else {
        &&& s.len() == 3
        &&& s[0] == Effect::Control(Control::Play)
        &&& is_playback_push(s[1], app)
        &&& is_term_title(s[2], app)
    }
}

/// Relies on rand's `SliceRandom::choose` (driven by `rand::thread_rng`):
/// the result is `None` exactly when the slice is empty, and otherwise one
/// of its elements; which one is the generator's business alone.
#[verifier::external_body]
fn choose_random<'a>(v: &'a Vec<String>) -> (r: Option<&'a String>)
    ensures
        r is None <==> v@.len() == 0,
        r matches Some(s) ==> exists|j: int| 0 <= j < v@.len() && *s == v@[j],
{
    rand::prelude::SliceRandom::choose(v.as_slice(), &mut rand::thread_rng())
}

impl App {
    /// A fresh core over a validated, already shuffled playlist: cursor at
    /// the first track, unpaused with the idle inhibitor requested, display
    /// metadata still empty until the first refresh, main view, dirty
    /// screen.
    pub fn new(osu_path: &str, tracks: Vec<Track>) -> (r: App)
        requires
            tracks@.len() > 0,
            forall|i: int| 0 <= i < tracks@.len() ==> track_ok(#[trigger] tracks@[i]),
        ensures
            r.wf(),
            r.progress == 0,
            r.total == 0,
            r.paused == false,
            r.idx == 0,
            r.title@ == Seq::<char>::empty(),
            r.artist@ == Seq::<char>::empty(),
            r.source@ == Seq::<char>::empty(),
            r.cover is None,
            r.is_unicode == false,
            r.osu_path@ == osu_path@,
            r.tracks == tracks,
            r.ui_state == UIState::Main,
            r.search_state.query@ == Seq::<char>::empty(),
            r.search_state.input_mode == InputMode::Editing,
            r.search_state.results@ == Seq::<usize>::empty(),
            r.search_state.selected is None,
            r.repeat == false,
            r.awake == true,
            r.ui_dirty == true,
    {
        App {
            progress: 0,
            total: 0,
            paused: false,
            idx: 0,
            title: String::new(),
            artist: String::new(),
            source: String::new(),
            cover: None,
            is_unicode: false,
            osu_path: String::from_str(osu_path),
            tracks,
            ui_state: UIState::Main,
            search_state: SearchState::default(),
            repeat: false,
            awake: true,
            ui_dirty: true,
        }
    }

    /// The control message that opens the current track on the backend.
    pub fn open(&self) -> (c: Control)
        requires
            self.wf(),
        ensures
            c matches Control::Open(p) && p@ == file_path_view(
                self.osu_path@,
                self.current().audio_hash@,
            ),
    {
        Control::Open(get_file_path(self.osu_path.as_str(), self.tracks[self.idx].audio_hash.as_str()))
    }

    /// The displayed title of a track under the current unicode preference:
    /// the localized title unless it is blank, else the fallback.
    pub fn get_title(&self, item: &Track) -> (r: String)
        ensures
            r@ == title_view(*item, self.is_unicode),
    {
        if !self.is_unicode {
            item.title.clone()
        } else {
            if is_blank(item.title_unicode.as_str()) {
                item.title.clone()
            } else {
                item.title_unicode.clone()
            }
        }
    }

    /// The displayed artist of a track, under the same precedence rule.
    pub fn get_artist(&self, item: &Track) -> (r: String)
        ensures
            r@ == artist_view(*item, self.is_unicode),
    {
        if !self.is_unicode {
            item.artist.clone()
        } else {
            if is_blank(item.artist_unicode.as_str()) {
                item.artist.clone()
            } else {
                item.artist_unicode.clone()
            }
        }
    }

    /// The terminal title: application name, transport word, current track.
    pub fn construct_terminal_title(&self) -> (r: String)
        requires
            self.wf(),
        ensures
            r@ == terminal_title_view(*self),
    {
        let mut r = String::new();
        r.append("clicking-circles-player - ");
        if self.paused {
            r.append("Paused");
        } else {
            r.append("Playing");
        }
        r.append(" ");
        let t = self.get_title(&self.tracks[self.idx]);
        r.append(t.as_str());
        proof {
            assert(r@ =~= terminal_title_view(*self));
        }
        r
    }

    /// Push the transport state to the OS surface and refresh the terminal
    /// title. Always issued, even when nothing changed: the push is
    /// idempotent by design, not edge-triggered.
    pub fn set_playback(&self) -> (r: Vec<Effect>)
        requires
            self.wf(),
        ensures
            r@.len() == 2,
            is_playback_push(r@[0], *self),
            is_term_title(r@[1], *self),
    {
        let mut effects: Vec<Effect> = Vec::new();
        effects.push(Effect::Playback { paused: self.paused, position: self.progress });
        effects.push(Effect::TermTitle(self.construct_terminal_title()));
        effects
    }

    /// Push the full display metadata to the OS surface and refresh the
    /// terminal title.
    pub fn set_metadata(&self) -> (r: Vec<Effect>)
        requires
            self.wf(),
        ensures
            effs_metadata(r@, *self, self.paused),
    {
        let cover = match &self.cover {
            Some(s) => Some(s.clone()),
            None => None,
        };
        let mut effects: Vec<Effect> = Vec::new();
        effects.push(
            Effect::Metadata {
                title: self.title.clone(),
                artist: self.artist.clone(),
                album: self.source.clone(),
                duration: self.total,
                cover,
            },
        );
        effects.push(Effect::TermTitle(self.construct_terminal_title()));
        effects
    }

    /// Record a backend position report, clamped to zero, and re-push the
    /// playback state.
    pub fn update_progress(&mut self, time: i64) -> (r: Vec<Effect>)
        requires
            old(self).wf(),
        ensures
            final(self).wf(),
            *final(self) == (App {
                progress: if time >= 0 {
                    time
                } else {
                    0
                },
                ..*old(self)
            }),
            r@.len() == 2,
            is_playback_push(r@[0], *final(self)),
            is_term_title(r@[1], *final(self)),
    {
        self.progress = if time >= 0 {
            time
        } else {
            0
        };
        self.set_playback()
    }

    /// Record a backend duration report, clamped to zero, and re-push the
    /// full metadata.
    pub fn update_duration(&mut self, total: i64) -> (r: Vec<Effect>)
        requires
            old(self).wf(),
        ensures
            final(self).wf(),
            *final(self) == (App {
                total: if total >= 0 {
                    total
                } else {
                    0
                },
                ..*old(self)
            }),
            effs_metadata(r@, *final(self), final(self).paused),
    {
        self.total = if total >= 0 {
            total
        } else {
            0
        };
        self.set_metadata()
    }

    /// Advance the cursor one track, wrapping at the end of the playlist.
    pub fn next_idx(&mut self)
        requires
            old(self).wf(),
        ensures
            final(self).wf(),
            final(self).idx as int == next_of(old(self).idx as int, old(self).tracks@.len() as int),
            *final(self) == (App {
                idx: next_of(old(self).idx as int, old(self).tracks@.len() as int) as usize,
                ..*old(self)
            }),
    {
        let n = self.tracks.len();
        self.idx += 1;
        if self.idx >= n {
            self.idx = 0;
        }
    }

    /// Retreat the cursor one track, wrapping at the start of the playlist.
    pub fn prev_idx(&mut self)
        requires
            old(self).wf(),
        ensures
            final(self).wf(),
            final(self).idx as int == prev_of(old(self).idx as int, old(self).tracks@.len() as int),
            *final(self) == (App {
                idx: prev_of(old(self).idx as int, old(self).tracks@.len() as int) as usize,
                ..*old(self)
            }),
    {
        if self.idx == 0 {
            self.idx = self.tracks.len() - 1;
        } else {
            self.idx -= 1;
        }
    }

    /// Recompute the stored display metadata from the current track; with
    /// `with_image`, also pick one of its background images at random as the
    /// new cover. Ends with a metadata push and a terminal retitle; the
    /// cover-load request comes first when an image was asked for.
    pub fn update_metadata(&mut self, with_image: bool) -> (r: Vec<Effect>)
        requires
            old(self).wf(),
        ensures
            final(self).wf(),
            display_refreshed(*old(self), *final(self)),
            !with_image ==> final(self).cover == old(self).cover && effs_metadata(
                r@,
                *final(self),
                final(self).paused,
            ),
            with_image ==> {
                &&& cover_from(final(self).cover, old(self).current())
                &&& r@.len() == 3
                &&& is_load_cover(r@[0], *final(self))
                &&& is_metadata_push(r@[1], *final(self))
                &&& is_term_title_with(r@[2], *final(self), final(self).paused)
            },
    {
        let t = self.get_title(&self.tracks[self.idx]);
        let a = self.get_artist(&self.tracks[self.idx]);
        let s = self.tracks[self.idx].source.clone();
        self.title = t;
        self.artist = a;
        self.source = s;

        let mut effects: Vec<Effect> = Vec::new();
        if with_image {
            let chosen: Option<String> = match choose_random(&self.tracks[self.idx].bg_hashes) {
                Some(h) => Some(h.clone()),
                None => None,
            };
            self.cover = match &chosen {
                Some(h) => Some(h.clone()),
                None => None,
            };
            effects.push(Effect::LoadCover(chosen));
        }
        let mut tail = self.set_metadata();
        effects.append(&mut tail);
        effects
    }

    /// Flip the display-language preference and recompute the display
    /// metadata in place — a core-local change, no backend interaction.
    pub fn toggle_unicode(&mut self) -> (r: Vec<Effect>)
        requires
            old(self).wf(),
        ensures
            final(self).wf(),
            display_refreshed(
                (App { is_unicode: !old(self).is_unicode, ..*old(self) }),
                *final(self),
            ),
            final(self).cover == old(self).cover,
            effs_metadata(r@, *final(self), final(self).paused),
    {
        self.is_unicode = !self.is_unicode;
        self.update_metadata(false)
    }

    /// Set the pause flag. Pausing releases the idle inhibitor and asks the
    /// worker to pause; resuming acquires the inhibitor (when not already
    /// held) and asks the worker to play. Either way the OS surface and the
    /// terminal title are refreshed, deliberately even when nothing changed.
    pub fn set_paused(&mut self, paused: bool) -> (r: Vec<Effect>)
        requires
            old(self).wf(),
        ensures
            final(self).wf(),
            *final(self) == paused_step(*old(self), paused),
            effs_set_paused(r@, *final(self), old(self).awake),
    {
        self.paused = paused;
        let mut effects: Vec<Effect> = Vec::new();
        if paused {
            self.awake = false;
            effects.push(Effect::ReleaseAwake);
            effects.push(Effect::Control(Control::Pause));
        } else {
            if !self.awake {
                effects.push(Effect::AcquireAwake);
            }
            self.awake = true;
            effects.push(Effect::Control(Control::Play));
        }
        let mut tail = self.set_playback();
        effects.append(&mut tail);
        effects
    }

    /// Search the playlist for the query, case-insensitively, returning
    /// matching indices in playlist order.
    pub fn search(&self, query: &str) -> (r: Vec<usize>)
        ensures
            r@ == search_result(self.tracks@, unicode_lower(query@)),
            query@.len() == 0 ==> r@ == Seq::new(self.tracks@.len(), |i: int| i as usize),
    {
        search_tracks(&self.tracks, query)
    }

    /// One line of the search-result list: "title - artist" of the given
    /// track under the current unicode preference.
    pub fn item_to_string(&self, i: usize) -> (r: String)
        requires
            self.wf(),
            i < self.tracks@.len(),
        ensures
            r@ == title_view(self.tracks@[i as int], self.is_unicode) + " - "@ + artist_view(
                self.tracks@[i as int],
                self.is_unicode,
            ),
    {
        let mut r = String::new();
        let t = self.get_title(&self.tracks[i]);
        let a = self.get_artist(&self.tracks[i]);
        r.append(t.as_str());
        r.append(" - ");
        r.append(a.as_str());
        proof {
            assert(r@ =~= title_view(self.tracks@[i as int], self.is_unicode) + " - "@
                + artist_view(self.tracks@[i as int], self.is_unicode));
        }
        r
    }

    /// Remember the height of the rendered result list (at least one line)
    /// as the page size for page motions.
    pub fn set_list_height(&mut self, height: usize)
        requires
            old(self).wf(),
        ensures
            final(self).wf(),
            *final(self) == (App {
                search_state: (SearchState {
                    list_height: if height >= 1 {
                        height
                    } else {
                        1
                    },
                    ..old(self).search_state
                }),
                ..*old(self)
            }),
    {
        let h = if height >= 1 {
            height
        } else {
            1
        };
        self.search_state.list_height = h;
    }

    /// Enter the search view with a fresh search state: empty query,
    /// text-entry mode, no results, no selection.
    pub fn enter_search(&mut self)
        requires
            old(self).wf(),
        ensures
            final(self).wf(),
            *final(self) == (App {
                ui_state: UIState::Search,
                search_state: final(self).search_state,
                ..*old(self)
            }),
            final(self).search_state.query@ == Seq::<char>::empty(),
            final(self).search_state.input_mode == InputMode::Editing,
            final(self).search_state.results@ == Seq::<usize>::empty(),
            final(self).search_state.selected is None,
            final(self).search_state.list_height == 1,
    {
        self.search_state = SearchState::default();
        self.ui_state = UIState::Search;
    }

    /// React to one playback-worker event: record a position or duration
    /// report; on end-of-file advance the cursor (unless repeating) and
    /// re-open whatever track the cursor now names; on the worker's quit
    /// acknowledgement ask the caller to leave the main loop.
    pub fn handle_player_event(&mut self, ev: PlayerEvent) -> (r: Vec<Effect>)
        requires
            old(self).wf(),
        ensures
            final(self).wf(),
            final(self).ui_dirty == true,
            ev matches PlayerEvent::Pos(t) ==> {
                &&& *final(self) == (App {
                    progress: if t >= 0 {
                        t
                    } else {
                        0
                    },
                    ui_dirty: true,
                    ..*old(self)
                })
                &&& r@.len() == 2
                &&& is_playback_push(r@[0], *final(self))
                &&& is_term_title(r@[1], *final(self))
            },
            ev matches PlayerEvent::Duration(d) ==> {
                &&& *final(self) == (App {
                    total: if d >= 0 {
                        d
                    } else {
                        0
                    },
                    ui_dirty: true,
                    ..*old(self)
                })
                &&& effs_metadata(r@, *final(self), final(self).paused)
            },
            ev == PlayerEvent::Eof ==> {
                &&& old(self).repeat ==> final(self).idx == old(self).idx
                &&& !old(self).repeat ==> final(self).idx as int == next_of(
                    old(self).idx as int,
                    old(self).tracks@.len() as int,
                )
                &&& skipped_to(*old(self), *final(self), final(self).idx as int)
                &&& effs_open_refresh(r@, *final(self), final(self).paused)
            },
            ev == PlayerEvent::Quit ==> *final(self) == (App { ui_dirty: true, ..*old(self) })
                && r@.len() == 1 && r@[0] == Effect::Exit,
    {
        self.ui_dirty = true;
        match ev {
            PlayerEvent::Pos(t) => self.update_progress(t),
            PlayerEvent::Duration(d) => self.update_duration(d),
            PlayerEvent::Eof => {
                if !self.repeat {
                    self.next_idx();
                }
                let mut effects: Vec<Effect> = Vec::new();
                effects.push(Effect::Control(self.open()));
                let mut tail = self.update_metadata(true);
                effects.append(&mut tail);
                effects
            },
            PlayerEvent::Quit => {
                let mut effects: Vec<Effect> = Vec::new();
                effects.push(Effect::Exit);
                effects
            },
        }
    }

    /// React to one OS media-control event: toggle or set the pause state
    /// (idempotently), or skip to the neighbouring track.
    pub fn handle_media_event(&mut self, ev: MediaEvent) -> (r: Vec<Effect>)
        requires
            old(self).wf(),
        ensures
            final(self).wf(),
            final(self).ui_dirty == true,
            ev == MediaEvent::Toggle ==> *final(self) == paused_step(
                (App { ui_dirty: true, ..*old(self) }),
                !old(self).paused,
            ) && effs_set_paused(r@, *final(self), old(self).awake),
            ev == MediaEvent::Play ==> *final(self) == paused_step(
                (App { ui_dirty: true, ..*old(self) }),
                false,
            ) && effs_set_paused(r@, *final(self), old(self).awake),
            ev == MediaEvent::Pause ==> *final(self) == paused_step(
                (App { ui_dirty: true, ..*old(self) }),
                true,
            ) && effs_set_paused(r@, *final(self), old(self).awake),
            ev == MediaEvent::Next ==> skipped_to(
                *old(self),
                *final(self),
                next_of(old(self).idx as int, old(self).tracks@.len() as int),
            ) && effs_open_refresh(r@, *final(self), final(self).paused),
            ev == MediaEvent::Previous ==> skipped_to(
                *old(self),
                *final(self),
                prev_of(old(self).idx as int, old(self).tracks@.len() as int),
            ) && effs_open_refresh(r@, *final(self), final(self).paused),
    {
        self.ui_dirty = true;
        match ev {
            MediaEvent::Toggle => {
                let p = !self.paused;
                self.set_paused(p)
            },
            MediaEvent::Play => self.set_paused(false),
            MediaEvent::Pause => self.set_paused(true),
            MediaEvent::Next => {
                self.next_idx();
                let mut effects: Vec<Effect> = Vec::new();
                effects.push(Effect::Control(self.open()));
                let mut tail = self.update_metadata(true);
                effects.append(&mut tail);
                effects
            },
            MediaEvent::Previous => {
                self.prev_idx();
                let mut effects: Vec<Effect> = Vec::new();
                effects.push(Effect::Control(self.open()));
                let mut tail = self.update_metadata(true);
                effects.append(&mut tail);
                effects
            },
        }
    }

    /// Route one key pressed in the main view: quit, pause toggle, track
    /// skip, unicode toggle, repeat toggle, seek, or entering search.
    pub fn handle_main_key(&mut self, key: Key) -> (r: Vec<Effect>)
        requires
            old(self).wf(),
            old(self).ui_state == UIState::Main,
        ensures
            final(self).wf(),
            final(self).ui_dirty == true,
            key == Key::Char('q') ==> *final(self) == (App { ui_dirty: true, ..*old(self) })
                && r@.len() == 1 && r@[0] == Effect::Control(Control::Quit),
            key == Key::Char(' ') ==> *final(self) == paused_step(
                (App { ui_dirty: true, ..*old(self) }),
                !old(self).paused,
            ) && effs_set_paused(r@, *final(self), old(self).awake),
            key == Key::Char('>') ==> skipped_to(
                *old(self),
                *final(self),
                next_of(old(self).idx as int, old(self).tracks@.len() as int),
            ) && effs_open_refresh(r@, *final(self), final(self).paused),
            key == Key::Char('<') ==> skipped_to(
                *old(self),
                *final(self),
                prev_of(old(self).idx as int, old(self).tracks@.len() as int),
            ) && effs_open_refresh(r@, *final(self), final(self).paused),
            key == Key::Char('u') ==> display_refreshed(
                (App { is_unicode: !old(self).is_unicode, ui_dirty: true, ..*old(self) }),
                *final(self),
            ) && final(self).cover == old(self).cover && effs_metadata(
                r@,
                *final(self),
                final(self).paused,
            ),
            key == Key::Char('r') ==> *final(self) == (App {
                repeat: !old(self).repeat,
                ui_dirty: true,
                ..*old(self)
            }) && r@.len() == 0,
            key == Key::Left ==> *final(self) == (App { ui_dirty: true, ..*old(self) })
                && r@.len() == 1 && r@[0] == Effect::Control(
                Control::Seek((old(self).progress - SEEK_STEP_MS) as i64),
            ),
            key == Key::Right ==> *final(self) == (App { ui_dirty: true, ..*old(self) })
                && r@.len() == 1 && r@[0] == Effect::Control(
                Control::Seek(
                    if old(self).progress + SEEK_STEP_MS <= i64::MAX {
                        (old(self).progress + SEEK_STEP_MS) as i64
                    } else {
                        i64::MAX
                    },
                ),
            ),
            key == Key::Char('s') ==> {
                &&& *final(self) == (App {
                    ui_state: UIState::Search,
                    search_state: final(self).search_state,
                    ui_dirty: true,
                    ..*old(self)
                })
                &&& final(self).search_state.query@ == Seq::<char>::empty()
                &&& final(self).search_state.input_mode == InputMode::Editing
                &&& final(self).search_state.results@ == Seq::<usize>::empty()
                &&& final(self).search_state.selected is None
                &&& r@.len() == 0
            },
            (match key {
                Key::Char(c) => c != 'q' && c != ' ' && c != '>' && c != '<' && c != 'u' && c
                    != 'r' && c != 's',
                Key::Left => false,
                Key::Right => false,
                _ => true,
            }) ==> *final(self) == (App { ui_dirty: true, ..*old(self) }) && r@.len() == 0,
    {
        self.ui_dirty = true;
        match key {
            Key::Char('q') => {
                let mut effects: Vec<Effect> = Vec::new();
                effects.push(Effect::Control(Control::Quit));
                effects
            },
            Key::Char(' ') => {
                let p = !self.paused;
                self.set_paused(p)
            },
            Key::Char('>') => {
                self.next_idx();
                let mut effects: Vec<Effect> = Vec::new();
                effects.push(Effect::Control(self.open()));
                let mut tail = self.update_metadata(true);
                effects.append(&mut tail);
                effects
            },
            Key::Char('<') => {
                self.prev_idx();
                let mut effects: Vec<Effect> = Vec::new();
                effects.push(Effect::Control(self.open()));
                let mut tail = self.update_metadata(true);
                effects.append(&mut tail);
                effects
            },
            Key::Char('u') => self.toggle_unicode(),
            Key::Char('r') => {
                self.repeat = !self.repeat;
                Vec::new()
            },
            Key::Left => {
                let mut effects: Vec<Effect> = Vec::new();
                effects.push(Effect::Control(Control::Seek(self.progress - SEEK_STEP_MS)));
                effects
            },
            Key::Right => {
                let target = if self.progress <= i64::MAX - SEEK_STEP_MS {
                    self.progress + SEEK_STEP_MS
                } else {
                    i64::MAX
                };
                let mut effects: Vec<Effect> = Vec::new();
                effects.push(Effect::Control(Control::Seek(target)));
                effects
            },
            Key::Char('s') => {
                self.enter_search();
                Vec::new()
            },
            _ => Vec::new(),
        }
    }

    /// Route one key pressed in the search view. In text-entry mode, escape
    /// abandons the search, enter or tab commits the query (running the
    /// search, selecting the first hit, and switching to browsing), and any
    /// other key is forwarded to the text-entry buffer whose current content
    /// is `input_text`. In browsing mode, single steps wrap circularly, page
    /// jumps clamp, and enter jumps to the selected track, opens it,
    /// unpauses, and returns to the main view; motion keys do nothing while
    /// the result list is empty.
    pub fn handle_search_key(&mut self, key: Key, input_text: &str) -> (r: Vec<Effect>)
        requires
            old(self).wf(),
            old(self).ui_state == UIState::Search,
        ensures
            final(self).wf(),
            final(self).ui_dirty == true,
            old(self).search_state.input_mode == InputMode::Editing ==> {
                &&& key == Key::Esc ==> *final(self) == (App {
                    ui_state: UIState::Main,
                    ui_dirty: true,
                    ..*old(self)
                }) && r@.len() == 0
                &&& (key == Key::Enter || key == Key::Tab) ==> {
                    &&& *final(self) == (App {
                        search_state: final(self).search_state,
                        ui_dirty: true,
                        ..*old(self)
                    })
                    &&& final(self).search_state.query@ == input_text@
                    &&& final(self).search_state.input_mode == InputMode::Normal
                    &&& final(self).search_state.results@ == search_result(
                        old(self).tracks@,
                        unicode_lower(input_text@),
                    )
                    &&& final(self).search_state.selected == (if search_result(
                        old(self).tracks@,
                        unicode_lower(input_text@),
                    ).len() > 0 {
                        Some(0usize)
                    } else {
                        None::<usize>
                    })
                    &&& final(self).search_state.list_height == old(
                        self,
                    ).search_state.list_height
                    &&& r@.len() == 0
                }
                &&& !(key == Key::Esc || key == Key::Enter || key == Key::Tab) ==> *final(self)
                    == (App { ui_dirty: true, ..*old(self) }) && r@.len() == 1 && r@[0]
                    == Effect::FeedInput
            },
            old(self).search_state.input_mode == InputMode::Normal ==> {
                let st = old(self).search_state;
                let total = st.results@.len() as int;
                let cur = sel_or_zero(st);
                &&& key == Key::Up ==> r@.len() == 0 && *final(self) == (if total > 0 {
                    with_selection(*old(self), Some((((cur - 1) % total)) as usize))
                } else {
                    (App { ui_dirty: true, ..*old(self) })
                })
                &&& key == Key::Down ==> r@.len() == 0 && *final(self) == (if total > 0 {
                    with_selection(*old(self), Some((((cur + 1) % total)) as usize))
                } else {
                    (App { ui_dirty: true, ..*old(self) })
                })
                &&& key == Key::PageUp ==> r@.len() == 0 && *final(self) == (if total > 0 {
                    with_selection(
                        *old(self),
                        Some(
                            (if cur >= st.list_height {
                                cur - st.list_height
                            } else {
                                0int
                            }) as usize,
                        ),
                    )
                } else {
                    (App { ui_dirty: true, ..*old(self) })
                })
                &&& key == Key::PageDown ==> r@.len() == 0 && *final(self) == (if total > 0 {
                    with_selection(
                        *old(self),
                        Some(
                            (if cur + st.list_height < total {
                                cur + st.list_height
                            } else {
                                total - 1
                            }) as usize,
                        ),
                    )
                } else {
                    (App { ui_dirty: true, ..*old(self) })
                })
                &&& key == Key::Char('u') ==> display_refreshed(
                    (App { is_unicode: !old(self).is_unicode, ui_dirty: true, ..*old(self) }),
                    *final(self),
                ) && final(self).cover == old(self).cover && effs_metadata(
                    r@,
                    *final(self),
                    final(self).paused,
                )
                &&& (key == Key::Esc || key == Key::Tab) ==> *final(self) == (App {
                    search_state: (SearchState { input_mode: InputMode::Editing, ..st }),
                    ui_dirty: true,
                    ..*old(self)
                }) && r@.len() == 0
                &&& key == Key::Enter ==> (match st.selected {
                    Some(i) => {
                        let tgt = st.results@[i as int] as int;
                        &&& final(self).idx == st.results@[i as int]
                        &&& final(self).paused == false
                        &&& final(self).awake == true
                        &&& final(self).ui_state == UIState::Main
                        &&& final(self).title@ == title_view(
                            old(self).tracks@[tgt],
                            old(self).is_unicode,
                        )
                        &&& final(self).artist@ == artist_view(
                            old(self).tracks@[tgt],
                            old(self).is_unicode,
                        )
                        &&& final(self).source@ == old(self).tracks@[tgt].source@
                        &&& cover_from(final(self).cover, old(self).tracks@[tgt])
                        &&& final(self).progress == old(self).progress
                        &&& final(self).total == old(self).total
                        &&& final(self).is_unicode == old(self).is_unicode
                        &&& final(self).osu_path == old(self).osu_path
                        &&& final(self).tracks == old(self).tracks
                        &&& final(self).search_state == old(self).search_state
                        &&& final(self).repeat == old(self).repeat
                        &&& r@.len() == (if old(self).awake {
                            7int
                        } else {
                            8int
                        })
                        &&& effs_open_refresh(r@.subrange(0, 4), *final(self), old(self).paused)
                        &&& effs_set_paused(
                            r@.subrange(4, r@.len() as int),
                            *final(self),
                            old(self).awake,
                        )
                    },
                    None => *final(self) == (App { ui_dirty: true, ..*old(self) }) && r@.len()
                        == 0,
                })
                &&& (match key {
                    Key::Up | Key::Down | Key::PageUp | Key::PageDown | Key::Esc | Key::Tab
                        | Key::Enter => false,
                    Key::Char(c) => c != 'u',
                    _ => true,
                }) ==> *final(self) == (App { ui_dirty: true, ..*old(self) }) && r@.len() == 0
            },
    {
        self.ui_dirty = true;
        match self.search_state.input_mode {
            InputMode::Normal => match key {
                Key::Up => {
                    let total = self.search_state.results.len();
                    if total > 0 {
                        let cur = match self.search_state.selected {
                            Some(i) => i,
                            None => 0,
                        };
                        let i = circular_previous(cur, total, 1);
                        self.search_state.selected = Some(i);
                    }
                    Vec::new()
                },
                Key::Down => {
                    let total = self.search_state.results.len();
                    if total > 0 {
                        let cur = match self.search_state.selected {
                            Some(i) => i,
                            None => 0,
                        };
                        let i = circular_next(cur, total, 1);
                        self.search_state.selected = Some(i);
                    }
                    Vec::new()
                },
                Key::PageUp => {
                    let total = self.search_state.results.len();
                    if total > 0 {
                        let cur = match self.search_state.selected {
                            Some(i) => i,
                            None => 0,
                        };
                        let i = previous(cur, self.search_state.list_height);
                        self.search_state.selected = Some(i);
                    }
                    Vec::new()
                },
                Key::PageDown => {
                    let total = self.search_state.results.len();
                    if total > 0 {
                        let cur = match self.search_state.selected {
                            Some(i) => i,
                            None => 0,
                        };
                        let i = next(cur, total, self.search_state.list_height);
                        self.search_state.selected = Some(i);
                    }
                    Vec::new()
                },
                Key::Char('u') => self.toggle_unicode(),
                Key::Esc | Key::Tab => {
                    self.search_state.input_mode = InputMode::Editing;
                    Vec::new()
                },
                Key::Enter => {
                    match self.search_state.selected {
                        Some(i) => {
                            self.idx = self.search_state.results[i];
                            let mut effects: Vec<Effect> = Vec::new();
                            effects.push(Effect::Control(self.open()));
                            let mut tail = self.update_metadata(true);
                            effects.append(&mut tail);
                            let mut rest = self.set_paused(false);
                            effects.append(&mut rest);
                            self.ui_state = UIState::Main;
                            effects
                        },
                        None => Vec::new(),
                    }
                },
                _ => Vec::new(),
            },
            InputMode::Editing => match key {
                Key::Esc => {
                    self.ui_state = UIState::Main;
                    Vec::new()
                },
                Key::Enter | Key::Tab => {
                    let results = self.search(input_text);
                    proof {
                        crate::search::lemma_search_result_in_range(
                            self.tracks@,
                            unicode_lower(input_text@),
                        );
                    }
                    let has_any = results.len() > 0;
                    self.search_state.results = results;
                    self.search_state.selected = if has_any {
                        Some(0)
                    } else {
                        None
                    };
                    self.search_state.query = String::from_str(input_text);
                    self.search_state.input_mode = InputMode::Normal;
                    Vec::new()
                },
                _ => {
                    let mut effects: Vec<Effect> = Vec::new();
                    effects.push(Effect::FeedInput);
                    effects
                },
            },
        }
    }
}

} // verus!
