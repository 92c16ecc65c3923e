//! Content-addressed asset paths: a hash `h` lives at `root/h[0:1]/h[0:2]/h`,
//! mirroring a three-level fan-out layout, and every cached cover crop is
//! named after the background-image hash it was made from.

use crate::text::push_char;
use vstd::prelude::*;

verus! {

/// The path under `root` of the asset named by `hash`, fanned out by the
/// hash's first one and two characters.
pub open spec fn file_path_view(root: Seq<char>, hash: Seq<char>) -> Seq<char> {
    root + seq!['/'] + hash.subrange(0, 1) + seq!['/'] + hash.subrange(0, 2) + seq!['/'] + hash
}

/// Resolve the on-disk location of a content-addressed asset.
pub fn get_file_path(osu_path: &str, hash: &str) -> (r: String)
    requires
        hash@.len() >= 2,
    ensures
        r@ == file_path_view(osu_path@, hash@),
{
    let mut r = String::new();
    r.append(osu_path);
    push_char(&mut r, '/');
    r.append(hash.substring_char(0, 1));
    push_char(&mut r, '/');
    r.append(hash.substring_char(0, 2));
    push_char(&mut r, '/');
    r.append(hash);
    proof {
        assert(r@ =~= file_path_view(osu_path@, hash@));
    }
    r
}

/// The deterministic file name of the cached square cover crop generated
/// from the background image named by `hash`.
pub open spec fn cover_name_view(hash: Seq<char>) -> Seq<char> {
    hash + ".cover.jpg"@
}

/// Name the cover-crop cache artifact for a background-image hash.
pub fn cover_cache_name(hash: &str) -> (r: String)
    ensures
        r@ == cover_name_view(hash@),
{
    let mut r = String::new();
    r.append(hash);
    r.append(".cover.jpg");
    proof {
        assert(r@ =~= cover_name_view(hash@));
    }
    r
}

} // verus!
