//! The search index: case-insensitive substring search over the playlist's
//! text fields, and the selection cursor over the result list.
//!
//! Selection motion follows two regimes: single steps wrap circularly, page
//! jumps clamp at the ends of the result list.

use crate::text::{
    ascii_lower, contains_sub, is_substring_of, to_ascii_lower, to_unicode_lower, unicode_lower,
};
use crate::track::Track;
use vstd::arithmetic::div_mod::{
    lemma_fundamental_div_mod, lemma_mod_add_multiples_vanish, lemma_mod_multiples_vanish,
    lemma_small_mod,
};
use vstd::prelude::*;

verus! {

/// Whether the search view is taking query text or browsing results.
#[derive(Debug, PartialEq, Eq, Structural, Clone, Copy)]
pub enum InputMode {
    Normal,
    Editing,
}

/// The state of the search view: the committed query, the input mode, the
/// matching playlist indices in playlist order, the selection into that
/// result list, and the page size taken from the last rendered list height.
#[derive(Debug, Clone)]
pub struct SearchState {
    pub query: String,
    pub input_mode: InputMode,
    pub results: Vec<usize>,
    pub selected: Option<usize>,
    pub list_height: usize,
}

impl Default for SearchState {
    /// A fresh search view: empty query, text-entry mode, no results, no
    /// selection, and a one-line page until something is rendered.
    fn default() -> (r: SearchState)
        ensures
            r.query@ == Seq::<char>::empty(),
            r.input_mode == InputMode::Editing,
            r.results@ == Seq::<usize>::empty(),
            r.selected is None,
            r.list_height == 1,
    {
        SearchState {
            query: String::new(),
            input_mode: InputMode::Editing,
            results: Vec::new(),
            selected: None,
            list_height: 1,
        }
    }
}

/// Page motion upward: move `offset` steps back, clamping at the first
/// entry.
pub fn previous(current: usize, offset: usize) -> (r: usize)
    ensures
        r as int == if current >= offset {
            current - offset
        } else {
            0int
        },
{
    current.saturating_sub(offset)
}

/// Page motion downward over `total` entries: move `offset` steps forward,
/// clamping at the last entry — never wrapping.
pub fn next(current: usize, total: usize, offset: usize) -> (r: usize)
    requires
        total > 0,
    ensures
        r as int == if current + offset < total {
            current + offset
        } else {
            total - 1
        },
{
    let stepped = current.saturating_add(offset);
    if stepped < total {
        stepped
    } else {
        total - 1
    }
}

/// Single-step motion upward over `total` entries, wrapping circularly.
pub fn circular_previous(current: usize, total: usize, offset: usize) -> (r: usize)
    requires
        total > 0,
        current < total,
    ensures
        r as int == (current - offset) % (total as int),
{
    let m = offset % total;
    let r = if m <= current {
        current - m
    } else {
        total - (m - current)
    };
    proof {
        let c = current as int;
        let o = offset as int;
        let t = total as int;
        lemma_fundamental_div_mod(o, t);
        lemma_mod_multiples_vanish(-(o / t), c - (o % t), t);
        assert(c - o == t * (-(o / t)) + (c - (o % t))) by (nonlinear_arith)
            requires
                o == t * (o / t) + (o % t),
        ;
        if m <= current {
            lemma_small_mod((c - (o % t)) as nat, t as nat);
        } else {
            lemma_mod_add_multiples_vanish(c - (o % t), t);
            lemma_small_mod((c - (o % t) + t) as nat, t as nat);
        }
    }
    r
}

/// Single-step motion downward over `total` entries, wrapping circularly.
pub fn circular_next(current: usize, total: usize, offset: usize) -> (r: usize)
    requires
        total > 0,
        current < total,
        current + offset <= usize::MAX,
    ensures
        r as int == (current + offset) % (total as int),
{
    (current + offset) % total
}

/// Does the query (already lowercased) match the track? The ASCII fields are
/// compared under ASCII lowercasing, the free-text fields under full Unicode
/// lowercasing, as a substring test either way.
pub open spec fn track_matches(t: Track, q: Seq<char>) -> bool {
    ||| is_substring_of(q, ascii_lower(t.title@))
    ||| is_substring_of(q, ascii_lower(t.artist@))
    ||| is_substring_of(q, unicode_lower(t.source@))
    ||| is_substring_of(q, unicode_lower(t.title_unicode@))
    ||| is_substring_of(q, unicode_lower(t.artist_unicode@))
    ||| is_substring_of(q, unicode_lower(t.tags@))
}

/// The indices of the tracks matching `q`, in playlist order.
pub open spec fn search_result(tracks: Seq<Track>, q: Seq<char>) -> Seq<usize>
    decreases tracks.len(),
{
    if tracks.len() == 0 {
        Seq::empty()
    } else if track_matches(tracks.last(), q) {
        search_result(tracks.drop_last(), q).push((tracks.len() - 1) as usize)
    } else {
        search_result(tracks.drop_last(), q)
    }
}

/// A query that matches every track selects every index, in order.
pub proof fn lemma_search_result_all(tracks: Seq<Track>, q: Seq<char>)
    requires
        forall|i: int| 0 <= i < tracks.len() ==> track_matches(#[trigger] tracks[i], q),
    ensures
        search_result(tracks, q) == Seq::new(tracks.len(), |i: int| i as usize),
    decreases tracks.len(),
{
    if tracks.len() == 0 {
        assert(search_result(tracks, q) =~= Seq::new(tracks.len(), |i: int| i as usize));
    } else {
        lemma_search_result_all(tracks.drop_last(), q);
        assert(tracks.last() == tracks[tracks.len() - 1]);
        assert(search_result(tracks, q) =~= Seq::new(tracks.len(), |i: int| i as usize));
    }
}

/// The empty query matches every track, so it selects every index, in order
/// — searching with nothing narrows nothing.
pub proof fn lemma_search_result_empty_query(tracks: Seq<Track>, q: Seq<char>)
    requires
        q.len() == 0,
    ensures
        search_result(tracks, q) == Seq::new(tracks.len(), |i: int| i as usize),
{
    assert forall|i: int| 0 <= i < tracks.len() implies track_matches(#[trigger] tracks[i], q) by {
        crate::text::lemma_empty_is_substring(ascii_lower(tracks[i].title@));
    }
    lemma_search_result_all(tracks, q);
}

/// Everything `search_result` selects is a valid playlist index.
pub proof fn lemma_search_result_in_range(tracks: Seq<Track>, q: Seq<char>)
    ensures
        forall|j: int|
            0 <= j < search_result(tracks, q).len() ==> (#[trigger] search_result(tracks, q)[j])
                < tracks.len(),
    decreases tracks.len(),
{
    if tracks.len() > 0 {
        lemma_search_result_in_range(tracks.drop_last(), q);
        let sub = search_result(tracks.drop_last(), q);
        let whole = search_result(tracks, q);
        assert forall|j: int| 0 <= j < whole.len() implies (#[trigger] whole[j]) < tracks.len() by {
            if track_matches(tracks.last(), q) {
                assert(whole == sub.push((tracks.len() - 1) as usize));
                if j < sub.len() {
                    assert(whole[j] == sub[j]);
                }
            } else {
                assert(whole == sub);
            }
        }
    }
}

fn track_matches_exec(t: &Track, lq: &str) -> (r: bool)
    ensures
        r == track_matches(*t, lq@),
{
    let lt = to_ascii_lower(t.title.as_str());
    if contains_sub(lt.as_str(), lq) {
        return true;
    }
    let la = to_ascii_lower(t.artist.as_str());
    if contains_sub(la.as_str(), lq) {
        return true;
    }
    let ls = to_unicode_lower(t.source.as_str());
    if contains_sub(ls.as_str(), lq) {
        return true;
    }
    let ltu = to_unicode_lower(t.title_unicode.as_str());
    if contains_sub(ltu.as_str(), lq) {
        return true;
    }
    let lau = to_unicode_lower(t.artist_unicode.as_str());
    if contains_sub(lau.as_str(), lq) {
        return true;
    }
    let lg = to_unicode_lower(t.tags.as_str());
    contains_sub(lg.as_str(), lq)
}

/// Search the playlist: lowercase the query, then keep, in playlist order,
/// the index of every track one of whose text fields contains it.
pub fn search_tracks(tracks: &Vec<Track>, query: &str) -> (r: Vec<usize>)
    ensures
        r@ == search_result(tracks@, unicode_lower(query@)),
        query@.len() == 0 ==> r@ == Seq::new(tracks@.len(), |i: int| i as usize),
{
    let lq = to_unicode_lower(query);
    let mut r: Vec<usize> = Vec::new();
    let n = tracks.len();
    let mut i: usize = 0;
    while i < n
        invariant
            n == tracks@.len(),
            i <= n,
            lq@ == unicode_lower(query@),
            r@ == search_result(tracks@.subrange(0, i as int), unicode_lower(query@)),
        decreases n - i,
    {
        proof {
            let part = tracks@.subrange(0, i + 1);
            assert(part.drop_last() =~= tracks@.subrange(0, i as int));
            assert(part.last() == tracks@[i as int]);
        }
        if track_matches_exec(&tracks[i], lq.as_str()) {
            r.push(i);
        }
        i += 1;
    }
    proof {
        assert(tracks@.subrange(0, n as int) =~= tracks@);
        if query@.len() == 0 {
            lemma_search_result_empty_query(tracks@, unicode_lower(query@));
        }
    }
    r
}

} // verus!
