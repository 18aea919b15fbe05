//! Byte-level text scanning: substring search and whole-line matching.

use vstd::prelude::*;

verus! {

/// `pat` stands in `hay` starting at byte `i`.
pub open spec fn occurs_at(hay: Seq<u8>, pat: Seq<u8>, i: int) -> bool {
    0 <= i && i + pat.len() <= hay.len() && hay.subrange(i, i + pat.len()) == pat
}

/// `pat` stands somewhere in `hay`.
pub open spec fn occurs_in(hay: Seq<u8>, pat: Seq<u8>) -> bool {
    exists|i: int| occurs_at(hay, pat, i)
}

/// Byte `i` begins a line: it is the first byte or follows a newline.
pub open spec fn line_starts_at(hay: Seq<u8>, i: int) -> bool {
    i == 0 || (0 < i <= hay.len() && hay[i - 1] == 10u8)
}

/// A line ends right before byte `j`: at the end of the text, at a newline,
/// or at a carriage return that a newline follows.
pub open spec fn line_ends_at(hay: Seq<u8>, j: int) -> bool {
    j == hay.len() || (0 <= j < hay.len() && hay[j] == 10u8) || (0 <= j && j + 1 < hay.len()
        && hay[j] == 13u8 && hay[j + 1] == 10u8)
}

/// A whole line of `hay`, starting at byte `i`, is exactly `line`.
pub open spec fn line_at(hay: Seq<u8>, line: Seq<u8>, i: int) -> bool {
    occurs_at(hay, line, i) && line_starts_at(hay, i) && line_ends_at(hay, i + line.len())
}

/// Some whole line of `hay` is exactly `line`.
pub open spec fn has_line(hay: Seq<u8>, line: Seq<u8>) -> bool {
    exists|i: int| line_at(hay, line, i)
}

fn matches_at(hay: &[u8], pat: &[u8], i: usize) -> (r: bool)
    requires
        i + pat@.len() <= hay@.len(),
    ensures
        r == occurs_at(hay@, pat@, i as int),
{
    let hay_len: usize = hay.len();
    let mut k: usize = 0;
    while k < pat.len()
        invariant
            hay_len == hay@.len(),
            k <= pat@.len(),
            i + pat@.len() <= hay@.len(),
            forall|j: int| 0 <= j < k ==> hay@[i + j] == pat@[j],
        decreases pat@.len() - k,
    {
        if hay[i + k] != pat[k] {
            assert(hay@.subrange(i as int, i + pat@.len())[k as int] != pat@[k as int]);
            return false;
        }
        k += 1;
    }
    assert(hay@.subrange(i as int, i + pat@.len()) =~= pat@);
    true
}

/// Whether `pat` occurs anywhere in `hay`.
pub fn contains_bytes(hay: &[u8], pat: &[u8]) -> (r: bool)
    ensures
        r == occurs_in(hay@, pat@),
{
    if pat.len() > hay.len() {
        return false;
    }
    let last: usize = hay.len() - pat.len();
    let mut i: usize = 0;
    while i < last
        invariant
            last == hay@.len() - pat@.len(),
            i <= last,
            forall|j: int| 0 <= j < i ==> !occurs_at(hay@, pat@, j),
        decreases last - i,
    {
        if matches_at(hay, pat, i) {
            assert(occurs_at(hay@, pat@, i as int));
            return true;
        }
        i += 1;
    }
    let r = matches_at(hay, pat, last);
    if r {
        assert(occurs_at(hay@, pat@, last as int));
    }
    r
}

fn starts_line(hay: &[u8], i: usize) -> (r: bool)
    requires
        i <= hay@.len(),
    ensures
        r == line_starts_at(hay@, i as int),
{
    i == 0 || hay[i - 1] == 10u8
}

fn ends_line(hay: &[u8], j: usize) -> (r: bool)
    requires
        j <= hay@.len(),
    ensures
        r == line_ends_at(hay@, j as int),
{
    j == hay.len() || hay[j] == 10u8 || (j + 1 < hay.len() && hay[j] == 13u8 && hay[j + 1] == 10u8)
}

/// Whether some whole line of `hay` is exactly `line`; lines end at `\n` or `\r\n`.
pub fn contains_line(hay: &[u8], line: &[u8]) -> (r: bool)
    ensures
        r == has_line(hay@, line@),
{
    if line.len() > hay.len() {
        return false;
    }
    let last: usize = hay.len() - line.len();
    let mut i: usize = 0;
    while i < last
        invariant
            last == hay@.len() - line@.len(),
            hay@.len() == hay.len(),
            line@.len() == line.len(),
            i <= last,
            forall|j: int| 0 <= j < i ==> !line_at(hay@, line@, j),
        decreases last - i,
    {
        if starts_line(hay, i) && matches_at(hay, line, i) && ends_line(hay, i + line.len()) {
            assert(line_at(hay@, line@, i as int));
            return true;
        }
        i += 1;
    }
    let r = starts_line(hay, last) && matches_at(hay, line, last) && ends_line(hay, hay.len());
    if r {
        assert(line_at(hay@, line@, last as int));
    }
    r
}

} // verus!
