//! The immutable track record and the display-name rules derived from it.

use crate::text::seq_is_blank;
use vstd::prelude::*;

verus! {

/// One entry of the playlist, loaded once from the catalogue and never
/// mutated afterwards. `audio_hash` names the audio asset; `bg_hashes` name
/// candidate background images; `tags` is the tag list joined by spaces.
#[derive(Debug, Clone)]
pub struct Track {
    pub audio_hash: String,
    pub bg_hashes: Vec<String>,
    pub title: String,
    pub title_unicode: String,
    pub artist: String,
    pub artist_unicode: String,
    pub source: String,
    pub tags: String,
}

/// The displayed title: with the unicode preference on, the localized title
/// wins unless it is blank after trimming; otherwise the fallback title.
pub open spec fn title_view(t: Track, unicode: bool) -> Seq<char> {
    if !unicode {
        t.title@
    } else if seq_is_blank(t.title_unicode@) {
        t.title@
    } else {
        t.title_unicode@
    }
}

/// The displayed artist, under the same precedence rule as the title.
pub open spec fn artist_view(t: Track, unicode: bool) -> Seq<char> {
    if !unicode {
        t.artist@
    } else if seq_is_blank(t.artist_unicode@) {
        t.artist@
    } else {
        t.artist_unicode@
    }
}

} // verus!
