//! Choosing the image address from a `srcset` attribute.
//!
//! A `srcset` is a list of entries separated by commas. An entry holds an
//! address and, after white space, a descriptor such as `1x` or `2x`. The
//! entry whose descriptor names the double density is preferred.

use vstd::prelude::*;
use crate::text::{Stop, scan, lemma_scan, scan_until, chars_of};

verus! {

/// The origin that addresses relative to the site are completed with.
pub open spec fn site_origin() -> Seq<char> {
    "https://shikimori.one"@
}

/// The scheme that addresses without one are completed with.
pub open spec fn default_scheme() -> Seq<char> {
    "https:"@
}

/// Where the entry that begins at `start` ends: at the next comma, or at the
/// end of `s`.
pub open spec fn entry_end(s: Seq<char>, start: int) -> int {
    scan(s, start, s.len() as int, Stop::Comma)
}

/// The bounds of the first word in `from..end`: the address of an entry.
pub open spec fn word_span(s: Seq<char>, from: int, end: int) -> (int, int) {
    let a = scan(s, from, end, Stop::Word);
    let b = scan(s, a, end, Stop::Space);
    (a, b)
}

/// The bounds of the second word in `from..end`: the descriptor of an entry.
pub open spec fn descriptor_span(s: Seq<char>, from: int, end: int) -> (int, int) {
    word_span(s, word_span(s, from, end).1, end)
}

/// Whether `2x` occurs in `s` within `from..end`.
pub open spec fn holds_2x(s: Seq<char>, from: int, end: int) -> bool {
    exists|i: int| from <= i && i + 1 < end && s[i] == '2' && #[trigger] s[i + 1] == 'x'
}

/// Whether the descriptor of the entry `start..end` asks for the double
/// density.
pub open spec fn is_double_density(s: Seq<char>, start: int, end: int) -> bool {
    holds_2x(s, descriptor_span(s, start, end).0, descriptor_span(s, start, end).1)
}

/// The bounds of the address of the first double-density entry that begins
/// at or after `start`, where `start` is the beginning of an entry.
pub open spec fn double_density_from(s: Seq<char>, start: int) -> Option<(int, int)>
    decreases s.len() - start,
{
    if start < 0 || start > s.len() {
        None
    } else if is_double_density(s, start, entry_end(s, start)) {
        Some(word_span(s, start, entry_end(s, start)))
    } else if entry_end(s, start) >= s.len() {
        None
    } else {
        proof {
            lemma_scan(s, start, s.len() as int, Stop::Comma);
        }
        double_density_from(s, entry_end(s, start) + 1)
    }
}

/// The address of the first entry of a `srcset`, or the whole text where
/// that entry is blank.
pub open spec fn first_entry_source(s: Seq<char>) -> Seq<char> {
    let (a, b) = word_span(s, 0, entry_end(s, 0));
    if a < b {
        s.subrange(a, b)
    } else {
        s
    }
}

/// The address that a `srcset` is read as: that of its first double-density
/// entry; where no entry is one, that of its first entry.
pub open spec fn image_source(s: Seq<char>) -> Seq<char> {
    match double_density_from(s, 0) {
        Some((a, b)) => s.subrange(a, b),
        None => first_entry_source(s),
    }
}

/// The absolute address for `src`: one that begins with `//` gets the
/// scheme, another that begins with `/` gets the site's origin, any other
/// stays.
pub open spec fn normalized_url(src: Seq<char>) -> Seq<char> {
    if src.len() >= 2 && src[0] == '/' && src[1] == '/' {
        default_scheme() + src
    } else if src.len() >= 1 && src[0] == '/' {
        site_origin() + src
    } else {
        src
    }
}

/// The address of the image that a `srcset` stands for.
pub open spec fn image_url(srcset: Seq<char>) -> Seq<char> {
    normalized_url(image_source(srcset))
}

/// A span of words lies inside the range it was looked for in.
pub proof fn lemma_word_span(s: Seq<char>, from: int, end: int)
    requires
        0 <= from <= end <= s.len(),
    ensures
        from <= word_span(s, from, end).0 <= word_span(s, from, end).1 <= end,
{
    lemma_scan(s, from, end, Stop::Word);
    lemma_scan(s, scan(s, from, end, Stop::Word), end, Stop::Space);
}

/// Finds the bounds of the first word of `v` in `from..end`.
fn find_word(v: &Vec<char>, from: usize, end: usize) -> (r: (usize, usize))
    requires
        from <= end <= v.len(),
    ensures
        (r.0 as int, r.1 as int) == word_span(v@, from as int, end as int),
        from <= r.0 <= r.1 <= end,
{
    let a = scan_until(v, from, end, Stop::Word);
    let b = scan_until(v, a, end, Stop::Space);
    (a, b)
}

/// Tells whether `2x` occurs in `v` within `from..end`.
fn find_2x(v: &Vec<char>, from: usize, end: usize) -> (b: bool)
    requires
        from <= end <= v.len(),
    ensures
        b == holds_2x(v@, from as int, end as int),
{
    let mut i: usize = from;
    while end - i >= 2
        invariant
            from <= i <= end <= v.len(),
            forall|j: int| from <= j < i ==> !(v@[j] == '2' && #[trigger] v@[j + 1] == 'x'),
        decreases end - i,
    {
        if v[i] == '2' && v[i + 1] == 'x' {
            return true;
        }
        i += 1;
    }
    false
}

/// Finds the address of the first double-density entry of `v` at or after
/// `start`.
fn find_double_density(v: &Vec<char>, start: usize) -> (r: Option<(usize, usize)>)
    requires
        start <= v.len(),
    ensures
        match r {
            Some((a, b)) => double_density_from(v@, start as int) == Some((a as int, b as int))
                && a <= b <= v.len(),
            None => double_density_from(v@, start as int) is None,
        },
{
    let n = v.len();
    let mut at: usize = start;
    loop
        invariant
            n == v.len(),
            at <= n,
            double_density_from(v@, at as int) == double_density_from(v@, start as int),
        decreases n - at,
    {
        let end = scan_until(v, at, n, Stop::Comma);
        let (a, b) = find_word(v, at, end);
        let (c, d) = find_word(v, b, end);
        if find_2x(v, c, d) {
            return Some((a, b));
        }
        if end >= n {
            return None;
        }
        at = end + 1;
    }
}

/// Reads the address out of a `srcset`.
pub fn select_image_source(srcset: &str) -> (r: String)
    ensures
        r@ == image_source(srcset@),
{
    let v = chars_of(srcset);
    let span = match find_double_density(&v, 0) {
        Some(span) => span,
        None => {
            let end = scan_until(&v, 0, v.len(), Stop::Comma);
            find_word(&v, 0, end)
        },
    };
    if span.0 < span.1 {
        String::from_str(srcset.substring_char(span.0, span.1))
    } else {
        proof {
            if double_density_from(v@, 0) is Some {
                lemma_double_density_is_word(v@, 0);
            }
        }
        String::from_str(srcset)
    }
}

/// The address of a double-density entry is not empty: an entry with a
/// descriptor has a word before it.
pub proof fn lemma_double_density_is_word(s: Seq<char>, start: int)
    requires
        0 <= start <= s.len(),
        double_density_from(s, start) is Some,
    ensures
        double_density_from(s, start) matches Some(span) && span.0 < span.1,
    decreases s.len() - start,
{
    let end = entry_end(s, start);
    lemma_scan(s, start, s.len() as int, Stop::Comma);
    if is_double_density(s, start, end) {
        let (a, b) = word_span(s, start, end);
        lemma_word_span(s, start, end);
        lemma_word_span(s, b, end);
        lemma_scan(s, start, end, Stop::Word);
        lemma_scan(s, a, end, Stop::Space);
        // With no first word the entry is all white space, and so has no
        // second word either.
        assert(a == b ==> a == end);
    } else {
        lemma_double_density_is_word(s, end + 1);
    }
}

/// Where `2x` occurs nowhere in a `srcset`, it is read as the address of its
/// first entry, or as the whole text where that entry is blank.
pub proof fn law_first_entry_without_2x(s: Seq<char>)
    requires
        !holds_2x(s, 0, s.len() as int),
    ensures
        image_source(s) == first_entry_source(s),
{
    lemma_no_double_density(s, 0);
}

/// Where `2x` occurs nowhere in a `srcset`, none of its entries asks for the
/// double density.
proof fn lemma_no_double_density(s: Seq<char>, start: int)
    requires
        0 <= start <= s.len(),
        !holds_2x(s, 0, s.len() as int),
    ensures
        double_density_from(s, start) is None,
    decreases s.len() - start,
{
    let end = entry_end(s, start);
    lemma_scan(s, start, s.len() as int, Stop::Comma);
    lemma_word_span(s, start, end);
    lemma_word_span(s, word_span(s, start, end).1, end);
    if end < s.len() {
        lemma_no_double_density(s, end + 1);
    }
}

/// Completes an address read from a page to an absolute one.
pub fn normalize_image_url(src: &str) -> (r: String)
    ensures
        r@ == normalized_url(src@),
{
    let n = src.unicode_len();
    if n >= 2 && src.get_char(0) == '/' && src.get_char(1) == '/' {
        String::from_str("https:").concat(src)
    } else if n >= 1 && src.get_char(0) == '/' {
        String::from_str("https://shikimori.one").concat(src)
    } else {
        String::from_str(src)
    }
}

/// Gives the absolute address of the image that a `srcset` stands for.
pub fn resolve_srcset(srcset: &str) -> (r: String)
    ensures
        r@ == image_url(srcset@),
{
    let src = select_image_source(srcset);
    normalize_image_url(src.as_str())
}

} // verus!
