//! Scanning text char by char.

use vstd::prelude::*;

verus! {

/// Whether `c` is white space: one of the code points with the Unicode
/// property `White_Space`.
pub open spec fn is_space(c: char) -> bool {
    let u = c as u32;
    ||| 0x09 <= u <= 0x0D
    ||| u == 0x20
    ||| u == 0x85
    ||| u == 0xA0
    ||| u == 0x1680
    ||| 0x2000 <= u <= 0x200A
    ||| u == 0x2028
    ||| u == 0x2029
    ||| u == 0x202F
    ||| u == 0x205F
    ||| u == 0x3000
}

/// What a scan stops at.
#[derive(Debug, Clone, Copy, PartialEq, Eq, Structural)]
pub enum Stop {
    /// A white-space char.
    Space,
    /// A char that is not white space.
    Word,
    /// A comma.
    Comma,
}

/// Whether a scan for `stop` ends at the char `c`.
pub open spec fn stops_at(stop: Stop, c: char) -> bool {
    match stop {
        Stop::Space => is_space(c),
        Stop::Word => !is_space(c),
        Stop::Comma => c == ',',
    }
}

/// The first index in `from..end` at which `s` holds a char that `stop`
/// describes, or `end` where there is none.
pub open spec fn scan(s: Seq<char>, from: int, end: int, stop: Stop) -> int
    decreases end - from,
{
    if from >= end || from < 0 || end > s.len() {
        end
    } else if stops_at(stop, s[from]) {
        from
    } else {
        scan(s, from + 1, end, stop)
    }
}

/// A scan ends inside its range, at a char that stops it or at the end of the
/// range, and passes no such char on its way.
pub proof fn lemma_scan(s: Seq<char>, from: int, end: int, stop: Stop)
    requires
        0 <= from <= end <= s.len(),
    ensures
        from <= scan(s, from, end, stop) <= end,
        scan(s, from, end, stop) < end ==> stops_at(stop, s[scan(s, from, end, stop)]),
        forall|j: int| from <= j < scan(s, from, end, stop) ==> !stops_at(stop, #[trigger] s[j]),
    decreases end - from,
{
    if from < end && !stops_at(stop, s[from]) {
        lemma_scan(s, from + 1, end, stop);
    }
}

/// Tells whether `c` is white space.
pub fn is_space_char(c: char) -> (b: bool)
    ensures
        b == is_space(c),
{
    let u: u32 = c as u32;
    (0x09 <= u && u <= 0x0D) || u == 0x20 || u == 0x85 || u == 0xA0 || u == 0x1680 || (0x2000 <= u
        && u <= 0x200A) || u == 0x2028 || u == 0x2029 || u == 0x202F || u == 0x205F || u == 0x3000
}

/// Tells whether a scan for `stop` ends at `c`.
pub fn stops_at_char(stop: Stop, c: char) -> (b: bool)
    ensures
        b == stops_at(stop, c),
{
    match stop {
        Stop::Space => is_space_char(c),
        Stop::Word => !is_space_char(c),
        Stop::Comma => c == ',',
    }
}

/// Scans `v` from `from` up to `end` for the first char that `stop` describes.
pub fn scan_until(v: &Vec<char>, from: usize, end: usize, stop: Stop) -> (i: usize)
    requires
        from <= end <= v.len(),
    ensures
        i == scan(v@, from as int, end as int, stop),
        from <= i <= end,
{
    let mut i: usize = from;
    while i < end && !stops_at_char(stop, v[i])
        invariant
            from <= i <= end <= v.len(),
            scan(v@, i as int, end as int, stop) == scan(v@, from as int, end as int, stop),
        decreases end - i,
    {
        i += 1;
    }
    i
}

/// The chars of `s`, in a vector.
pub fn chars_of(s: &str) -> (v: Vec<char>)
    ensures
        v@ == s@,
{
    let mut v: Vec<char> = Vec::new();
    for c in it: s.chars()
        invariant
            it.seq() == s@,
            v@ == it.seq().take(it.index() as int),
    {
        v.push(c);
    }
    assert(v@ == s@);
    v
}

/// Tells whether `v` begins with `prefix`.
pub fn starts_with(v: &Vec<char>, prefix: &Vec<char>) -> (b: bool)
    ensures
        b == prefix@.is_prefix_of(v@),
{
    if prefix.len() > v.len() {
        return false;
    }
    let mut i: usize = 0;
    while i < prefix.len()
        invariant
            i <= prefix.len() <= v.len(),
            forall|j: int| 0 <= j < i ==> v@[j] == prefix@[j],
        decreases prefix.len() - i,
    {
        if v[i] != prefix[i] {
            return false;
        }
        i += 1;
    }
    assert(v@.subrange(0, prefix@.len() as int) =~= prefix@);
    true
}

} // verus!
