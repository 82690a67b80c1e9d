//! Which files make up the track list, and in what order.

use vstd::prelude::*;
use crate::paths::{extension, extension_of, file_name, file_name_of};

verus! {

/// Why a track list could not be made.
#[derive(Debug, Clone, Copy, PartialEq, Eq)]
pub enum TrackListError {
    /// No path among the candidates names a playable file.
    NotFound,
}

/// The code of `c` with ASCII capitals taken to lower case.
pub open spec fn ascii_fold(c: char) -> u32 {
    if 65 <= (c as u32) <= 90 {
        (c as u32 + 32) as u32
    } else {
        c as u32
    }
}

/// `a` and `b` are equal up to ASCII case.
pub open spec fn same_ignoring_ascii_case(a: Seq<char>, b: Seq<char>) -> bool {
    &&& a.len() == b.len()
    &&& forall|i: int| 0 <= i < a.len() ==> ascii_fold(#[trigger] a[i]) == ascii_fold(b[i])
}

/// A file name that is empty or starts with `.`.
pub open spec fn is_hidden_name(name: Seq<char>) -> bool {
    name.len() == 0 || name[0] == '.'
}

/// An extension of a playable format: mp3, wav or flac in any case.
pub open spec fn is_track_extension(e: Seq<char>) -> bool {
    same_ignoring_ascii_case(e, seq!['m', 'p', '3']) || same_ignoring_ascii_case(
        e,
        seq!['w', 'a', 'v'],
    ) || same_ignoring_ascii_case(e, seq!['f', 'l', 'a', 'c'])
}

/// A path that the track list keeps: a visible file with a playable extension.
pub open spec fn is_track_path(p: Seq<char>) -> bool {
    &&& !is_hidden_name(file_name_of(p))
    &&& match extension_of(p) {
        Some(e) => is_track_extension(e),
        None => false,
    }
}

/// The candidates that are tracks, in their order.
pub open spec fn track_paths(candidates: Seq<Seq<char>>) -> Seq<Seq<char>> {
    candidates.filter(|p: Seq<char>| is_track_path(p))
}

/// `a` comes no later than `b` in lexicographic order of code points.
pub open spec fn lex_le(a: Seq<char>, b: Seq<char>) -> bool
    decreases a.len(),
{
    if a.len() == 0 {
        true
    } else if b.len() == 0 {
        false
    } else if a[0] != b[0] {
        (a[0] as u32) < (b[0] as u32)
    } else {
        lex_le(a.drop_first(), b.drop_first())
    }
}

/// Every path comes no later than those after it.
pub open spec fn is_sorted_paths(s: Seq<Seq<char>>) -> bool {
    forall|i: int, j: int| 0 <= i < j < s.len() ==> lex_le(#[trigger] s[i], #[trigger] s[j])
}

/// The views of a vector of strings.
pub open spec fn views(v: Seq<String>) -> Seq<Seq<char>> {
    v.map_values(|s: String| s@)
}

/// Relies on `slice::sort` of std: strings are put in ascending order, which
/// for `String` compares UTF-8 bytes and so orders by code point; the items
/// are the same ones.
#[verifier::external_body]
fn sort_paths(v: &mut Vec<String>)
    ensures
        views(final(v)@).to_multiset() == views(old(v)@).to_multiset(),
        is_sorted_paths(views(final(v)@)),
{
    v.sort();
}

/// Whether `a` and `b` are equal up to ASCII case.
pub fn eq_ignore_ascii_case(a: &str, b: &str) -> (r: bool)
    ensures
        r == same_ignoring_ascii_case(a@, b@),
{
    let n: usize = a.unicode_len();
    if n != b.unicode_len() {
        return false;
    }
    let mut i: usize = 0;
    while i < n
        invariant
            i <= n,
            n == a@.len(),
            n == b@.len(),
            forall|k: int| 0 <= k < i ==> ascii_fold(#[trigger] a@[k]) == ascii_fold(b@[k]),
        decreases n - i,
    {
        let x: u32 = a.get_char(i) as u32;
        let y: u32 = b.get_char(i) as u32;
        let fx: u32 = if 65 <= x && x <= 90 {
            x + 32
        } else {
            x
        };
        let fy: u32 = if 65 <= y && y <= 90 {
            y + 32
        } else {
            y
        };
        if fx != fy {
            assert(ascii_fold(a@[i as int]) != ascii_fold(b@[i as int]));
            return false;
        }
        i = i + 1;
    }
    true
}

/// Whether `path` names a visible file with a playable extension.
pub fn is_track(path: &str) -> (r: bool)
    ensures
        r == is_track_path(path@),
{
    let name = file_name(path);
    if name.unicode_len() == 0 || name.as_str().get_char(0) == '.' {
        return false;
    }
    match extension(path) {
        Some(e) => {
            let e = e.as_str();
            proof {
                reveal_strlit("mp3");
                reveal_strlit("wav");
                reveal_strlit("flac");
                assert("mp3"@ =~= seq!['m', 'p', '3']);
                assert("wav"@ =~= seq!['w', 'a', 'v']);
                assert("flac"@ =~= seq!['f', 'l', 'a', 'c']);
            }
            eq_ignore_ascii_case(e, "mp3") || eq_ignore_ascii_case(e, "wav")
                || eq_ignore_ascii_case(e, "flac")
        },
        None => false,
    }
}

/// The candidates that are tracks, in their order.
pub fn select_tracks(candidates: &Vec<String>) -> (r: Vec<String>)
    ensures
        views(r@) == track_paths(views(candidates@)),
{
    let mut kept: Vec<String> = Vec::new();
    let mut i: usize = 0;
    while i < candidates.len()
        invariant
            i <= candidates@.len(),
            views(kept@) == track_paths(views(candidates@.subrange(0, i as int))),
        decreases candidates@.len() - i,
    {
        let p = &candidates[i];
        let keep = is_track(p.as_str());
        proof {
            let pred = |q: Seq<char>| is_track_path(q);
            let before = views(candidates@.subrange(0, i as int));
            assert(views(candidates@.subrange(0, i + 1)) =~= before.push(p@));
            before.lemma_filter_push(p@, pred);
        }
        if keep {
            let ghost old_kept = kept@;
            kept.push(p.clone());
            assert(views(kept@) =~= views(old_kept).push(p@));
        }
        i = i + 1;
    }
    assert(candidates@.subrange(0, candidates@.len() as int) =~= candidates@);
    kept
}

/// The track list made from `candidates`: those that are tracks, sorted; or
/// `NotFound` where there are none.
pub fn collect_tracks(candidates: &Vec<String>) -> (r: Result<Vec<String>, TrackListError>)
    ensures
        match r {
            Ok(list) => {
                &&& track_paths(views(candidates@)).len() > 0
                &&& views(list@).to_multiset() == track_paths(views(candidates@)).to_multiset()
                &&& is_sorted_paths(views(list@))
            },
            Err(e) => e == TrackListError::NotFound && track_paths(views(candidates@)).len() == 0,
        },
{
    let mut list = select_tracks(candidates);
    if list.len() == 0 {
        return Err(TrackListError::NotFound);
    }
    sort_paths(&mut list);
    proof {
        broadcast use vstd::seq_lib::group_to_multiset_ensures;
        assert(views(list@).to_multiset().len() == views(list@).len());
    }
    Ok(list)
}

} // verus!
