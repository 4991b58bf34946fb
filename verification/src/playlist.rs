//! Playlist files: which reader a file's extension calls for, and what the
//! readers hand back. The common list formats go to an outside decoder; cue
//! sheets are read by this crate's own parser; anything else is unsupported.

use vstd::prelude::*;
use crate::cue::{cue_from, directives_view, parse_cue, CueDirective};

verus! {

/// An upper-case ASCII letter.
pub open spec fn is_ascii_upper(c: char) -> bool {
    65 <= c as int <= 90
}

/// The characters are equal up to ASCII case.
pub open spec fn ascii_eq_char(a: char, b: char) -> bool {
    ||| a == b
    ||| (is_ascii_upper(a) && a as int + 32 == b as int)
    ||| (is_ascii_upper(b) && b as int + 32 == a as int)
}

/// The strings are equal up to ASCII case.
pub open spec fn ascii_eq(a: Seq<char>, b: Seq<char>) -> bool {
    a.len() == b.len() && forall|i: int| 0 <= i < a.len() ==> ascii_eq_char(a[i], b[i])
}

/// Whether the strings are equal up to ASCII case.
pub fn eq_ignore_ascii_case(a: &str, b: &str) -> (r: bool)
    ensures
        r == ascii_eq(a@, b@),
{
    let a_len = a.unicode_len();
    let b_len = b.unicode_len();
    if a_len != b_len {
        return false;
    }
    let mut i: usize = 0;
    while i < a_len
        invariant
            i <= a_len,
            a_len == a@.len(),
            a_len == b@.len(),
            forall|j: int| 0 <= j < i ==> ascii_eq_char(a@[j], b@[j]),
        decreases a_len - i,
    {
        let ca = a.get_char(i) as u32;
        let cb = b.get_char(i) as u32;
        let same = ca == cb || (65 <= ca && ca <= 90 && ca + 32 == cb) || (65 <= cb && cb <= 90
            && cb + 32 == ca);
        if !same {
            return false;
        }
        i = i + 1;
    }
    true
}

/// Which reader a playlist extension calls for.
#[derive(Clone, Copy, Debug, PartialEq, Eq)]
pub enum PlaylistKind {
    Decoded,
    CueSheet,
    Unsupported,
}

/// The reader for the extension, compared without regard to ASCII case: the
/// common list formats go to the decoder, cue sheets to the cue parser.
pub open spec fn playlist_kind_spec(e: Seq<char>) -> PlaylistKind {
    if ascii_eq(e, "m3u"@) || ascii_eq(e, "m3u8"@) || ascii_eq(e, "pls"@) || ascii_eq(
        e,
        "xspf"@,
    ) {
        PlaylistKind::Decoded
    } else if ascii_eq(e, "cue"@) {
        PlaylistKind::CueSheet
    } else {
        PlaylistKind::Unsupported
    }
}

/// Which reader the file extension calls for.
pub fn playlist_kind(extension: &str) -> (r: PlaylistKind)
    ensures
        r == playlist_kind_spec(extension@),
{
    if eq_ignore_ascii_case(extension, "m3u") || eq_ignore_ascii_case(extension, "m3u8")
        || eq_ignore_ascii_case(extension, "pls") || eq_ignore_ascii_case(extension, "xspf") {
        PlaylistKind::Decoded
    } else if eq_ignore_ascii_case(extension, "cue") {
        PlaylistKind::CueSheet
    } else {
        PlaylistKind::Unsupported
    }
}

/// The set of URLs a playlist's content decodes to, when it decodes at all.
/// Which URLs come back depends on the content alone; the order they come
/// back in does not, so only the set is named.
pub uninterp spec fn decoded_playlist(content: Seq<char>) -> Option<Set<Seq<char>>>;

/// The URLs in the list, as a set of character sequences.
pub open spec fn url_set(v: Seq<String>) -> Set<Seq<char>> {
    Set::new(|s: Seq<char>| exists|i: int| 0 <= i < v.len() && v[i]@ == s)
}

/// Relies on playlist_decoder::decode: it extracts the URLs of M3U, PLS,
/// XSPF and ASX content, deduplicated through a hash set, so the entries are
/// distinct and their set is a function of the content alone, while their
/// order is not.
#[verifier::external_body]
fn decode_playlist_urls(content: &str) -> (r: Option<Vec<String>>)
    ensures
        match r {
            Some(v) => decoded_playlist(content@) == Some(url_set(v@)) && (forall|i: int, j: int|
                0 <= i < j < v@.len() ==> v@[i]@ != v@[j]@),
            None => decoded_playlist(content@) is None,
        },
{
    match playlist_decoder::decode(content) {
        Ok(v) => Some(v),
        Err(_) => None,
    }
}

/// What a playlist file holds.
pub enum PlaylistContent {
    /// The URLs of a decoded list, each appearing once.
    Urls(Vec<String>),
    /// The directives of a cue sheet, in order.
    CueLines(Vec<CueDirective>),
    /// The decoder could not make sense of the content.
    DecodeFailed,
    /// The extension names no playlist format this crate reads.
    Unsupported,
}

/// Read a playlist file's content with the reader its extension calls for:
/// the decoded formats yield their set of URLs, a cue sheet yields its
/// directives in order, and an unknown extension is unsupported.
pub fn read_playlist(content: &str, extension: &str) -> (r: PlaylistContent)
    ensures
        playlist_kind_spec(extension@) is Decoded ==> match r {
            PlaylistContent::Urls(v) => decoded_playlist(content@) == Some(url_set(v@)) && (forall|
                i: int,
                j: int,
            | 0 <= i < j < v@.len() ==> v@[i]@ != v@[j]@),
            PlaylistContent::DecodeFailed => decoded_playlist(content@) is None,
            _ => false,
        },
        playlist_kind_spec(extension@) is CueSheet ==> match r {
            PlaylistContent::CueLines(ds) => directives_view(ds@) == cue_from(content@, 0),
            _ => false,
        },
        playlist_kind_spec(extension@) is Unsupported ==> r is Unsupported,
{
    match playlist_kind(extension) {
        PlaylistKind::Decoded => match decode_playlist_urls(content) {
            Some(v) => PlaylistContent::Urls(v),
            None => PlaylistContent::DecodeFailed,
        },
        PlaylistKind::CueSheet => PlaylistContent::CueLines(parse_cue(content)),
        PlaylistKind::Unsupported => PlaylistContent::Unsupported,
    }
}

} // verus!
