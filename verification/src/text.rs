//! Character-level comparisons on string slices.

use vstd::prelude::*;

verus! {

/// Whether `part` occurs in `whole` starting at character position `start`.
pub open spec fn occurs_at(whole: Seq<char>, part: Seq<char>, start: int) -> bool {
    &&& 0 <= start
    &&& start + part.len() <= whole.len()
    &&& whole.subrange(start, start + part.len()) == part
}

/// Whether `part` occurs anywhere in `whole`.
pub open spec fn contains_seq(whole: Seq<char>, part: Seq<char>) -> bool {
    exists|start: int| occurs_at(whole, part, start)
}

/// Whether `whole` ends with `suffix`.
pub open spec fn ends_with_seq(whole: Seq<char>, suffix: Seq<char>) -> bool {
    suffix.len() <= whole.len() && occurs_at(whole, suffix, whole.len() - suffix.len())
}

/// Compares `part` with the characters of `whole` starting at `start`.
pub(crate) fn matches_at(whole: &str, whole_len: usize, part: &str, part_len: usize, start: usize) -> (r: bool)
    requires
        whole_len == whole@.len(),
        part_len == part@.len(),
        start + part_len <= whole_len,
    ensures
        r == occurs_at(whole@, part@, start as int),
{
    let mut i: usize = 0;
    while i < part_len
        invariant
            whole_len == whole@.len(),
            part_len == part@.len(),
            start + part_len <= whole_len,
            i <= part_len,
            forall|j: int| 0 <= j < i ==> whole@[start + j] == part@[j],
        decreases part_len - i,
    {
        if whole.get_char(start + i) != part.get_char(i) {
            assert(whole@.subrange(start as int, start + part_len)[i as int] != part@[i as int]);
            return false;
        }
        i = i + 1;
    }
    assert(whole@.subrange(start as int, start + part_len) =~= part@);
    true
}

/// Whether two string slices hold the same characters.
pub fn str_equal(a: &str, b: &str) -> (r: bool)
    ensures
        r == (a@ == b@),
{
    let a_len = a.unicode_len();
    let b_len = b.unicode_len();
    if a_len != b_len {
        return false;
    }
    let r = matches_at(a, a_len, b, b_len, 0);
    proof {
        if r {
            assert(a@ =~= a@.subrange(0, b_len as int));
        } else {
            assert(a@.subrange(0, a_len as int) =~= a@);
        }
    }
    r
}

/// Whether `part` occurs as a contiguous run of characters in `whole`.
pub fn str_contains(whole: &str, part: &str) -> (r: bool)
    ensures
        r == contains_seq(whole@, part@),
{
    let whole_len = whole.unicode_len();
    let part_len = part.unicode_len();
    if part_len > whole_len {
        assert forall|start: int| !occurs_at(whole@, part@, start) by {}
        return false;
    }
    let last = whole_len - part_len;
    let mut start: usize = 0;
    while start < last
        invariant
            whole_len == whole@.len(),
            part_len == part@.len(),
            last == whole_len - part_len,
            part_len <= whole_len,
            start <= last,
            forall|s: int| 0 <= s < start ==> !occurs_at(whole@, part@, s),
        decreases last - start,
    {
        if matches_at(whole, whole_len, part, part_len, start) {
            return true;
        }
        start = start + 1;
    }
    if matches_at(whole, whole_len, part, part_len, last) {
        return true;
    }
    assert forall|s: int| !occurs_at(whole@, part@, s) by {}
    false
}

/// Whether `whole` ends with `suffix`.
pub fn str_ends_with(whole: &str, suffix: &str) -> (r: bool)
    ensures
        r == ends_with_seq(whole@, suffix@),
{
    let whole_len = whole.unicode_len();
    let suffix_len = suffix.unicode_len();
    if suffix_len > whole_len {
        return false;
    }
    matches_at(whole, whole_len, suffix, suffix_len, whole_len - suffix_len)
}

/// Whether `name` is one of `names`.
pub open spec fn listed(names: Seq<&'static str>, name: Seq<char>) -> bool {
    exists|i: int| 0 <= i < names.len() && (#[trigger] names[i])@ == name
}

/// Whether `name` holds the same characters as one of `names`.
pub fn str_listed(names: &[&'static str], name: &str) -> (r: bool)
    ensures
        r == listed(names@, name@),
{
    let mut i: usize = 0;
    while i < names.len()
        invariant
            i <= names@.len(),
            forall|j: int| 0 <= j < i ==> (#[trigger] names@[j])@ != name@,
        decreases names@.len() - i,
    {
        if str_equal(names[i], name) {
            return true;
        }
        i = i + 1;
    }
    false
}

/// Whether `whole` is `first`, then `middle`, then `last`, back to back.
pub fn str_is_concat3(whole: &str, first: &str, middle: &str, last: &str) -> (r: bool)
    ensures
        r == (whole@ == first@ + middle@ + last@),
{
    let whole_len = whole.unicode_len();
    let first_len = first.unicode_len();
    let middle_len = middle.unicode_len();
    let last_len = last.unicode_len();
    let ghost joined = first@ + middle@ + last@;
    if whole_len < first_len || whole_len - first_len < middle_len
        || whole_len - first_len - middle_len != last_len {
        assert(whole@.len() != joined.len());
        return false;
    }
    let middle_start = first_len;
    let last_start = first_len + middle_len;
    assert(joined.subrange(0, first_len as int) =~= first@);
    assert(joined.subrange(middle_start as int, last_start as int) =~= middle@);
    assert(joined.subrange(last_start as int, whole_len as int) =~= last@);
    if !matches_at(whole, whole_len, first, first_len, 0) {
        return false;
    }
    if !matches_at(whole, whole_len, middle, middle_len, middle_start) {
        return false;
    }
    if !matches_at(whole, whole_len, last, last_len, last_start) {
        return false;
    }
    assert forall|k: int| 0 <= k < whole_len implies whole@[k] == joined[k] by {
        if k < first_len {
            assert(whole@.subrange(0, first_len as int)[k] == first@[k]);
        } else if k < last_start {
            assert(whole@.subrange(middle_start as int, last_start as int)[k - middle_start] == middle@[k - middle_start]);
        } else {
            assert(whole@.subrange(last_start as int, whole_len as int)[k - last_start] == last@[k - last_start]);
        }
    }
    assert(whole@ =~= joined);
    true
}


/// Whether the characters `a`, `b` stand next to each other somewhere in `w` at or after
/// position `i`.
pub open spec fn has_pair_from(w: Seq<char>, a: char, b: char, i: int) -> bool
    decreases w.len() - i,
{
    if i < 0 || i + 1 >= w.len() {
        false
    } else if w[i] == a && w[i + 1] == b {
        true
    } else {
        has_pair_from(w, a, b, i + 1)
    }
}

/// A pair at position `j` is found by a search from any `i <= j`.
pub proof fn lemma_pair_found(w: Seq<char>, a: char, b: char, i: int, j: int)
    requires
        0 <= i <= j,
        j + 1 < w.len(),
        w[j] == a,
        w[j + 1] == b,
    ensures
        has_pair_from(w, a, b, i),
    decreases j - i,
{
    if i < j {
        lemma_pair_found(w, a, b, i + 1, j);
    }
}

/// A text in which two adjacent characters of `p` never stand next to each other does
/// not contain `p`.
pub proof fn lemma_pair_blocks(w: Seq<char>, p: Seq<char>, k: int)
    requires
        0 <= k,
        k + 1 < p.len(),
        !has_pair_from(w, p[k], p[k + 1], 0),
    ensures
        !contains_seq(w, p),
{
    if contains_seq(w, p) {
        let s = choose|s: int| occurs_at(w, p, s);
        assert(w.subrange(s, s + p.len())[k] == p[k]);
        assert(w.subrange(s, s + p.len())[k + 1] == p[k + 1]);
        lemma_pair_found(w, p[k], p[k + 1], 0, s + k);
    }
}
} // verus!
