//! Character-level helpers: whitespace classification and trimming.

use vstd::prelude::*;

verus! {

/// A character with the Unicode `White_Space` property.
pub open spec fn is_space_char(c: char) -> bool {
    (0x09 <= c as u32 && c as u32 <= 0x0d) || c as u32 == 0x20 || c as u32 == 0x85
        || c as u32 == 0xa0 || c as u32 == 0x1680
        || (0x2000 <= c as u32 && c as u32 <= 0x200a) || c as u32 == 0x2028
        || c as u32 == 0x2029 || c as u32 == 0x202f || c as u32 == 0x205f || c as u32 == 0x3000
}

/// Whether every character of `s` is whitespace; true of the empty sequence.
pub open spec fn all_space(s: Seq<char>) -> bool {
    forall|i: int| 0 <= i < s.len() ==> is_space_char(s[i])
}

/// `s` with leading whitespace removed.
pub open spec fn trim_front(s: Seq<char>) -> Seq<char>
    decreases s.len(),
{
    if s.len() == 0 {
        s
    } else if is_space_char(s.first()) {
        trim_front(s.drop_first())
    } else {
        s
    }
}

/// `s` with trailing whitespace removed.
pub open spec fn trim_back(s: Seq<char>) -> Seq<char>
    decreases s.len(),
{
    if s.len() == 0 {
        s
    } else if is_space_char(s.last()) {
        trim_back(s.drop_last())
    } else {
        s
    }
}

/// `s` with surrounding whitespace removed.
pub open spec fn spec_trim(s: Seq<char>) -> Seq<char> {
    trim_back(trim_front(s))
}

/// The trimmed sequence is empty exactly when everything was whitespace.
pub proof fn lemma_trim_empty_iff_all_space(s: Seq<char>)
    ensures
        spec_trim(s).len() == 0 <==> all_space(s),
{
    lemma_trim_front_subrange(s);
    let k = choose|k: int|
        0 <= k <= s.len() && #[trigger] trim_front(s) =~= s.subrange(k, s.len() as int) && (
        forall|i: int| 0 <= i < k ==> is_space_char(s[i])) && (k < s.len() ==> !is_space_char(
            s[k],
        ));
    let t = trim_front(s);
    lemma_trim_back_subrange(t);
    let m = choose|m: int|
        0 <= m <= t.len() && #[trigger] trim_back(t) =~= t.subrange(0, m) && (forall|i: int|
            m <= i < t.len() ==> is_space_char(t[i])) && (m > 0 ==> !is_space_char(t[m - 1]));
    if all_space(s) {
        assert(k == s.len()) by {
            if k < s.len() {
                assert(is_space_char(s[k]));
            }
        }
        assert(t.len() == 0);
    }
    if spec_trim(s).len() == 0 {
        assert(m == 0);
        assert forall|i: int| 0 <= i < s.len() implies is_space_char(s[i]) by {
            if i >= k {
                assert(s[i] == t[i - k]);
            }
        }
    }
}

/// `trim_front` keeps a suffix whose first character, if any, is not whitespace.
pub proof fn lemma_trim_front_subrange(s: Seq<char>)
    ensures
        exists|k: int|
            0 <= k <= s.len() && #[trigger] trim_front(s) =~= s.subrange(k, s.len() as int)
                && (forall|i: int| 0 <= i < k ==> is_space_char(s[i])) && (k < s.len()
                ==> !is_space_char(s[k])),
    decreases s.len(),
{
    if s.len() == 0 {
        assert(trim_front(s) =~= s.subrange(0, s.len() as int));
    } else if is_space_char(s.first()) {
        lemma_trim_front_subrange(s.drop_first());
        let k0 = choose|k0: int|
            0 <= k0 <= s.drop_first().len() && #[trigger] trim_front(s.drop_first())
                =~= s.drop_first().subrange(k0, s.drop_first().len() as int) && (forall|i: int|
                0 <= i < k0 ==> is_space_char(s.drop_first()[i])) && (k0 < s.drop_first().len()
                ==> !is_space_char(s.drop_first()[k0]));
        assert(trim_front(s) =~= s.subrange(k0 + 1, s.len() as int));
        assert(forall|i: int| 0 <= i < k0 + 1 ==> is_space_char(s[i])) by {
            assert(forall|i: int|
                1 <= i < k0 + 1 ==> is_space_char(s.drop_first()[i - 1]) && s[i]
                    == s.drop_first()[i - 1]);
        }
    } else {
        assert(trim_front(s) =~= s.subrange(0, s.len() as int));
    }
}

/// `trim_back` keeps a prefix whose last character, if any, is not whitespace.
pub proof fn lemma_trim_back_subrange(s: Seq<char>)
    ensures
        exists|k: int|
            0 <= k <= s.len() && #[trigger] trim_back(s) =~= s.subrange(0, k) && (forall|i: int|
                k <= i < s.len() ==> is_space_char(s[i])) && (k > 0 ==> !is_space_char(s[k - 1])),
    decreases s.len(),
{
    if s.len() == 0 {
        assert(trim_back(s) =~= s.subrange(0, 0));
    } else if is_space_char(s.last()) {
        lemma_trim_back_subrange(s.drop_last());
        let k0 = choose|k0: int|
            0 <= k0 <= s.drop_last().len() && #[trigger] trim_back(s.drop_last())
                =~= s.drop_last().subrange(0, k0) && (forall|i: int|
                k0 <= i < s.drop_last().len() ==> is_space_char(s.drop_last()[i])) && (k0 > 0
                ==> !is_space_char(s.drop_last()[k0 - 1]));
        assert(trim_back(s) =~= s.subrange(0, k0));
        assert forall|i: int| k0 <= i < s.len() implies is_space_char(s[i]) by {
            if i < s.len() - 1 {
                assert(s[i] == s.drop_last()[i]);
            } else {
                assert(s[i] == s.last());
            }
        }
        assert(k0 > 0 ==> s[k0 - 1] == s.drop_last()[k0 - 1]);
    } else {
        assert(trim_back(s) =~= s.subrange(0, s.len() as int));
    }
}

/// Relies on `String::push`: appends exactly the one character `c`.
#[verifier::external_body]
pub fn push_char(s: &mut String, c: char)
    ensures
        final(s)@ == old(s)@.push(c),
{
    s.push(c);
}

/// Whether `c` has the Unicode `White_Space` property.
pub fn is_space(c: char) -> (r: bool)
    ensures
        r == is_space_char(c),
{
    let u = c as u32;
    (0x09 <= u && u <= 0x0d) || u == 0x20 || u == 0x85 || u == 0xa0 || u == 0x1680 || (0x2000 <= u
        && u <= 0x200a) || u == 0x2028 || u == 0x2029 || u == 0x202f || u == 0x205f || u == 0x3000
}

/// `s` with surrounding whitespace removed.
pub fn trim(s: &str) -> (r: String)
    ensures
        r@ == spec_trim(s@),
{
    let n = s.unicode_len();
    let mut start: usize = 0;
    while start < n && is_space(s.get_char(start))
        invariant
            0 <= start <= n,
            n == s@.len(),
            forall|i: int| 0 <= i < start ==> is_space_char(s@[i]),
        decreases n - start,
    {
        start = start + 1;
    }
    let mut end: usize = n;
    while end > start && is_space(s.get_char(end - 1))
        invariant
            start <= end <= n,
            n == s@.len(),
            forall|i: int| 0 <= i < start ==> is_space_char(s@[i]),
            start < n ==> !is_space_char(s@[start as int]),
            forall|i: int| end <= i < n ==> is_space_char(s@[i]),
        decreases end,
    {
        end = end - 1;
    }
    let out = s.substring_char(start, end);
    proof {
        if start < end {
            lemma_trim_indices(s@, start as int, end as int);
        } else {
            assert(all_space(s@));
            lemma_trim_empty_iff_all_space(s@);
            assert(s@.subrange(start as int, end as int) =~= spec_trim(s@));
        }
    }
    String::from_str(out)
}

/// Characterizes `spec_trim` by the bounding indices of its non-space core.
proof fn lemma_trim_indices(s: Seq<char>, start: int, end: int)
    requires
        0 <= start < end <= s.len(),
        forall|i: int| 0 <= i < start ==> is_space_char(s[i]),
        !is_space_char(s[start]),
        forall|i: int| end <= i < s.len() ==> is_space_char(s[i]),
        !is_space_char(s[end - 1]),
    ensures
        spec_trim(s) =~= s.subrange(start, end),
{
    lemma_trim_front_subrange(s);
    let k = choose|k: int|
        0 <= k <= s.len() && #[trigger] trim_front(s) =~= s.subrange(k, s.len() as int) && (
        forall|i: int| 0 <= i < k ==> is_space_char(s[i])) && (k < s.len() ==> !is_space_char(
            s[k],
        ));
    assert(k == start) by {
        if k < start {
            assert(is_space_char(s[k]));
        }
        if k > start {
            assert(is_space_char(s[start]));
        }
    }
    let t = trim_front(s);
    lemma_trim_back_subrange(t);
    let m = choose|m: int|
        0 <= m <= t.len() && #[trigger] trim_back(t) =~= t.subrange(0, m) && (forall|i: int|
            m <= i < t.len() ==> is_space_char(t[i])) && (m > 0 ==> !is_space_char(t[m - 1]));
    assert(t =~= s.subrange(start, s.len() as int));
    assert(m == end - start) by {
        if m < end - start {
            assert(t[end - start - 1] == s[end - 1]);
            assert(is_space_char(t[end - start - 1]));
        }
        if m > end - start {
            assert(t[m - 1] == s[m - 1 + start]);
            assert(is_space_char(t[m - 1]));
        }
    }
    assert(spec_trim(s) =~= s.subrange(start, end));
}

} // verus!
