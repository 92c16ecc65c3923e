//! Text utilities for the search index and display metadata: ASCII
//! lowercasing, substring matching, blank detection and space-joining.

use vstd::prelude::*;

verus! {

/// The ASCII-lowercase image of a single character: `'A'..='Z'` map to
/// `'a'..='z'`, everything else is unchanged.
pub open spec fn spec_lower_char(c: char) -> char {
    if 'A' <= c && c <= 'Z' {
        (((c as u8) + 32) as char)
    } else {
        c
    }
}

/// The ASCII-lowercase image of a character sequence.
pub open spec fn ascii_lower(s: Seq<char>) -> Seq<char> {
    s.map_values(|c: char| spec_lower_char(c))
}

fn lower_char(c: char) -> (r: char)
    ensures
        r == spec_lower_char(c),
{
    if 'A' <= c && c <= 'Z' {
        ((c as u8) + 32) as char
    } else {
        c
    }
}

/// Relies on std's `String::push`: appends one character at the end.
#[verifier::external_body]
pub(crate) fn push_char(s: &mut String, c: char)
    ensures
        final(s)@ == old(s)@.push(c),
{
    s.push(c)
}

/// ASCII-lowercase a string: uppercase ASCII letters are mapped to their
/// lowercase counterparts, all other characters (including non-ASCII ones)
/// are kept as they are.
pub fn to_ascii_lower(s: &str) -> (r: String)
    ensures
        r@ == ascii_lower(s@),
{
    let len = s.unicode_len();
    let mut r = String::new();
    let mut i: usize = 0;
    while i < len
        invariant
            len == s@.len(),
            i <= len,
            r@ == ascii_lower(s@.subrange(0, i as int)),
        decreases len - i,
    {
        let c = s.get_char(i);
        push_char(&mut r, lower_char(c));
        proof {
            assert(s@.subrange(0, i + 1).drop_last() =~= s@.subrange(0, i as int));
            assert(ascii_lower(s@.subrange(0, i + 1)) =~= ascii_lower(s@.subrange(0, i as int)).push(
                spec_lower_char(s@[i as int]),
            ));
        }
        i += 1;
    }
    proof {
        assert(s@.subrange(0, len as int) =~= s@);
    }
    r
}

/// What `str::to_lowercase` returns: the Unicode lowercase mapping of a
/// character sequence, which depends on the characters alone.
pub uninterp spec fn unicode_lower(s: Seq<char>) -> Seq<char>;

/// Relies on `str::to_lowercase`: the result is a function of the input
/// characters alone, and lowercasing the empty string yields the empty
/// string.
#[verifier::external_body]
pub(crate) fn to_unicode_lower(s: &str) -> (r: String)
    ensures
        r@ == unicode_lower(s@),
        s@.len() == 0 ==> r@.len() == 0,
{
    s.to_lowercase()
}

/// `needle` occurs contiguously somewhere inside `hay` (the empty sequence
/// occurs in everything).
pub open spec fn is_substring_of(needle: Seq<char>, hay: Seq<char>) -> bool {
    exists|k: int|
        0 <= k <= hay.len() - needle.len() && #[trigger] hay.subrange(k, k + needle.len())
            == needle
}

/// The empty sequence is a substring of every sequence.
pub proof fn lemma_empty_is_substring(hay: Seq<char>)
    ensures
        forall|needle: Seq<char>| needle.len() == 0 ==> is_substring_of(needle, hay),
{
    assert forall|needle: Seq<char>| needle.len() == 0 implies is_substring_of(needle, hay) by {
        assert(hay.subrange(0, 0 + needle.len() as int) =~= needle);
    }
}

/// Does `needle` occur in `hay` starting at character position `k`?
fn matches_at(hay: &str, hay_len: usize, needle: &str, needle_len: usize, k: usize) -> (r: bool)
    requires
        hay_len == hay@.len(),
        needle_len == needle@.len(),
        k + needle_len <= hay_len,
    ensures
        r == (hay@.subrange(k as int, k + needle@.len()) == needle@),
{
    let mut j: usize = 0;
    while j < needle_len
        invariant
            hay_len == hay@.len(),
            needle_len == needle@.len(),
            k + needle_len <= hay_len,
            j <= needle_len,
            forall|t: int| 0 <= t < j ==> hay@[k + t] == needle@[t],
        decreases needle_len - j,
    {
        if hay.get_char(k + j) != needle.get_char(j) {
            assert(hay@.subrange(k as int, k + needle@.len())[j as int] != needle@[j as int]);
            return false;
        }
        j += 1;
    }
    assert(hay@.subrange(k as int, k + needle@.len()) =~= needle@);
    true
}

/// Case-sensitive substring test over character sequences.
pub fn contains_sub(hay: &str, needle: &str) -> (r: bool)
    ensures
        r == is_substring_of(needle@, hay@),
{
    let hay_len = hay.unicode_len();
    let needle_len = needle.unicode_len();
    if needle_len == 0 {
        proof {
            assert(hay@.subrange(0, 0 + needle@.len() as int) =~= needle@);
        }
        return true;
    }
    if needle_len > hay_len {
        return false;
    }
    let last = hay_len - needle_len;
    let mut k: usize = 0;
    while k <= last
        invariant
            hay_len == hay@.len(),
            needle_len == needle@.len(),
            0 < needle_len <= hay_len,
            last == hay_len - needle_len,
            k <= last + 1,
            forall|t: int|
                0 <= t < k ==> #[trigger] hay@.subrange(t, t + needle@.len()) != needle@,
        decreases last + 1 - k,
    {
        if matches_at(hay, hay_len, needle, needle_len, k) {
            return true;
        }
        k += 1;
    }
    false
}

/// All characters of `s` are whitespace (true of the empty sequence); this is
/// exactly when trimming `s` leaves nothing.
pub open spec fn seq_is_blank(s: Seq<char>) -> bool {
    forall|i: int| 0 <= i < s.len() ==> is_space_char(s[i])
}

/// Membership in Unicode's White_Space set, the set honoured by std's `trim`.
pub open spec fn is_space_char(c: char) -> bool {
    ||| ('\u{0009}' <= c && c <= '\u{000D}')
    ||| c == ' '
    ||| c == '\u{0085}'
    ||| c == '\u{00A0}'
    ||| c == '\u{1680}'
    ||| ('\u{2000}' <= c && c <= '\u{200A}')
    ||| c == '\u{2028}'
    ||| c == '\u{2029}'
    ||| c == '\u{202F}'
    ||| c == '\u{205F}'
    ||| c == '\u{3000}'
}

fn is_space_char_exec(c: char) -> (r: bool)
    ensures
        r == is_space_char(c),
{
    ('\u{0009}' <= c && c <= '\u{000D}') || c == ' ' || c == '\u{0085}' || c == '\u{00A0}' || c
        == '\u{1680}' || ('\u{2000}' <= c && c <= '\u{200A}') || c == '\u{2028}' || c == '\u{2029}'
        || c == '\u{202F}' || c == '\u{205F}' || c == '\u{3000}'
}

/// Is the string empty or made of whitespace only?
pub fn is_blank(s: &str) -> (r: bool)
    ensures
        r == seq_is_blank(s@),
{
    let len = s.unicode_len();
    let mut i: usize = 0;
    while i < len
        invariant
            len == s@.len(),
            i <= len,
            forall|t: int| 0 <= t < i ==> is_space_char(s@[t]),
        decreases len - i,
    {
        if !is_space_char_exec(s.get_char(i)) {
            return false;
        }
        i += 1;
    }
    true
}

/// The members of `items` laid end to end with a single space between
/// neighbours.
pub open spec fn space_joined(items: Seq<Seq<char>>) -> Seq<char>
    decreases items.len(),
{
    if items.len() == 0 {
        Seq::empty()
    } else if items.len() == 1 {
        items[0]
    } else {
        space_joined(items.drop_last()) + seq![' '] + items.last()
    }
}

/// Join strings with single spaces, as the catalogue's tag lists are joined.
pub fn join_with_spaces(items: &Vec<String>) -> (r: String)
    ensures
        r@ == space_joined(items@.map_values(|s: String| s@)),
{
    let ghost views = items@.map_values(|s: String| s@);
    let mut r = String::new();
    let mut i: usize = 0;
    while i < items.len()
        invariant
            views == items@.map_values(|s: String| s@),
            i <= items@.len(),
            r@ == space_joined(views.subrange(0, i as int)),
        decreases items@.len() - i,
    {
        if i > 0 {
            push_char(&mut r, ' ');
        }
        r.append(items[i].as_str());
        proof {
            let part = views.subrange(0, i + 1);
            assert(part.drop_last() =~= views.subrange(0, i as int));
            assert(part.last() == views[i as int]);
            if i == 0 {
                assert(space_joined(part) == views[0]);
            } else {
                assert(r@ =~= space_joined(part.drop_last()) + seq![' '] + part.last());
            }
        }
        i += 1;
    }
    proof {
        assert(views.subrange(0, items@.len() as int) =~= views);
    }
    r
}

} // verus!
