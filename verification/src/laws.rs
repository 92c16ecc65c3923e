//! The laws the core keeps across calls: transitions relate as stated here
//! for every state, not just the ones the tests happen to visit.

use crate::app::{display_refreshed, paused_step, App};
use crate::cursor::{advanced_by, lemma_advance_full_cycle, next_of};
use crate::track::{artist_view, title_view};
use vstd::prelude::*;

verus! {

/// The stored display metadata agrees with what the current track and the
/// unicode preference derive: true from the first metadata refresh on.
pub open spec fn display_coherent(a: App) -> bool {
    &&& a.title@ == title_view(a.current(), a.is_unicode)
    &&& a.artist@ == artist_view(a.current(), a.is_unicode)
    &&& a.source@ == a.current().source@
}

/// The state relation `toggle_unicode` ensures: the preference flipped, the
/// display metadata recomputed, the cover untouched.
pub open spec fn toggle_step(a: App, b: App) -> bool {
    &&& display_refreshed((App { is_unicode: !a.is_unicode, ..a }), b)
    &&& b.cover == a.cover
}

/// Setting the pause flag is idempotent: setting it again to the value it
/// was just set to moves the state nowhere. In particular two consecutive
/// `set_paused(true)` calls leave the same transport state as one.
pub proof fn lemma_set_paused_idempotent(a: App, p: bool)
    ensures
        paused_step(paused_step(a, p), p) == paused_step(a, p),
{
}

/// Toggling the unicode preference twice restores the original display
/// metadata — title, artist, source and cover — and the original
/// preference, provided the stored metadata was derived from the state to
/// begin with.
pub proof fn lemma_toggle_unicode_reversible(a: App, b: App, c: App)
    requires
        display_coherent(a),
        toggle_step(a, b),
        toggle_step(b, c),
    ensures
        c.is_unicode == a.is_unicode,
        c.title@ == a.title@,
        c.artist@ == a.artist@,
        c.source@ == a.source@,
        c.cover == a.cover,
        display_coherent(c),
{
}

/// One full revolution of the playlist cursor: a run of states each
/// obtained from the last by a single cursor advance returns to its
/// starting index after exactly one step per track.
pub proof fn lemma_cursor_cycle(states: Seq<App>)
    requires
        states.len() >= 1,
        states[0].wf(),
        states.len() - 1 == states[0].tracks@.len(),
        forall|k: int|
            0 <= k < states.len() - 1 ==> (#[trigger] states[k + 1]).idx as int == next_of(
                states[k].idx as int,
                states[k].tracks@.len() as int,
            ) && states[k + 1] == (App { idx: states[k + 1].idx, ..states[k] }),
    ensures
        states.last().idx == states[0].idx,
{
    let len = states[0].tracks@.len() as int;
    assert forall|k: int| 0 <= k < states.len() implies #[trigger] states[k].tracks
        == states[0].tracks && states[k].idx as int == advanced_by(
        states[0].idx as int,
        len,
        k as nat,
    ) && states[k].idx < len by {
        lemma_cursor_cycle_step(states, k);
    }
    let n = states.len() - 1;
    assert(states[n].tracks == states[0].tracks);
    assert(states.last() == states[n]);
    lemma_advance_full_cycle(states[0].idx as int, len);
}

proof fn lemma_cursor_cycle_step(states: Seq<App>, k: int)
    requires
        states.len() >= 1,
        states[0].wf(),
        forall|j: int|
            0 <= j < states.len() - 1 ==> (#[trigger] states[j + 1]).idx as int == next_of(
                states[j].idx as int,
                states[j].tracks@.len() as int,
            ) && states[j + 1] == (App { idx: states[j + 1].idx, ..states[j] }),
        0 <= k < states.len(),
    ensures
        states[k].tracks == states[0].tracks,
        states[k].idx as int == advanced_by(
            states[0].idx as int,
            states[0].tracks@.len() as int,
            k as nat,
        ),
        states[k].idx < states[0].tracks@.len(),
    decreases k,
{
    let len = states[0].tracks@.len() as int;
    if k == 0 {
    } else {
        lemma_cursor_cycle_step(states, k - 1);
        assert(states[(k - 1) + 1].idx as int == next_of(states[k - 1].idx as int, len));
        assert(states[(k - 1) + 1] == (App { idx: states[(k - 1) + 1].idx, ..states[k - 1] }));
        assert(0 <= next_of(states[k - 1].idx as int, len) < len);
    }
}

} // verus!
