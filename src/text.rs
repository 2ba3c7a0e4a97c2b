//! Character-level helpers over `str`: trimming, searching and comparing.

use vstd::prelude::*;

verus! {

broadcast use vstd::string::group_string_axioms;

/// Characters with the Unicode `White_Space` property (what `char::is_whitespace` accepts).
pub open spec fn is_white_space(c: char) -> bool {
    let u = c as u32;
    (0x9 <= u <= 0xd) || u == 0x20 || u == 0x85 || u == 0xa0 || u == 0x1680 || (0x2000 <= u
        <= 0x200a) || u == 0x2028 || u == 0x2029 || u == 0x202f || u == 0x205f || u == 0x3000
}

/// `s` without its trailing white space.
pub open spec fn trim_end_spec(s: Seq<char>) -> Seq<char>
    decreases s.len(),
{
    if s.len() > 0 && is_white_space(s.last()) {
        trim_end_spec(s.drop_last())
    } else {
        s
    }
}

/// Index of the first occurrence of `c` in `s`, if any.
#[verifier::opaque]
pub open spec fn first_index_of(s: Seq<char>, c: char) -> Option<int> {
    if exists|i: int| 0 <= i < s.len() && s[i] == c {
        Some(choose|i: int| 0 <= i < s.len() && s[i] == c && forall|j: int| 0 <= j < i ==> s[j] != c)
    } else {
        None
    }
}

/// Whether `s` holds a two-character separator `a` `b` starting at `i`.
pub open spec fn pair_at(s: Seq<char>, a: char, b: char, i: int) -> bool {
    0 <= i && i + 1 < s.len() && s[i] == a && s[i + 1] == b
}

/// Index of the first occurrence of the pair `a` `b` in `s`, if any.
#[verifier::opaque]
pub open spec fn first_pair_of(s: Seq<char>, a: char, b: char) -> Option<int> {
    if exists|i: int| pair_at(s, a, b, i) {
        Some(choose|i: int| pair_at(s, a, b, i) && forall|j: int| 0 <= j < i ==> !pair_at(s, a, b, j))
    } else {
        None
    }
}

/// The characters of `s`, in order.
pub fn chars_of(s: &str) -> (r: Vec<char>)
    ensures
        r@ == s@,
{
    let mut v: Vec<char> = Vec::new();
    for c in it: s.chars()
        invariant
            v@ == it.seq().take(it.index() as int),
    {
        v.push(c);
    }
    v
}

/// Whether `c` is a white-space character.
pub fn white_space(c: char) -> (r: bool)
    ensures
        r == is_white_space(c),
{
    let u = c as u32;
    (0x9 <= u && u <= 0xd) || u == 0x20 || u == 0x85 || u == 0xa0 || u == 0x1680 || (0x2000 <= u
        && u <= 0x200a) || u == 0x2028 || u == 0x2029 || u == 0x202f || u == 0x205f || u == 0x3000
}

proof fn lemma_trim_end_prefix(s: Seq<char>, n: int)
    requires
        0 <= n <= s.len(),
        forall|j: int| n <= j < s.len() ==> is_white_space(s[j]),
    ensures
        trim_end_spec(s) == trim_end_spec(s.take(n)),
    decreases s.len() - n,
{
    if n < s.len() {
        assert(s.drop_last() =~= s.take(s.len() - 1));
        assert(s.take(s.len() - 1).take(n) =~= s.take(n));
        lemma_trim_end_prefix(s.drop_last(), n);
    } else {
        assert(s.take(n) =~= s);
    }
}

/// Length of `s` once its trailing white space is dropped.
pub fn trimmed_len(s: &Vec<char>) -> (n: usize)
    ensures
        n <= s.len(),
        s@.take(n as int) == trim_end_spec(s@),
{
    let mut n = s.len();
    while n > 0 && white_space(s[n - 1])
        invariant
            n <= s.len(),
            forall|j: int| n <= j < s.len() ==> is_white_space(s@[j]),
        decreases n,
    {
        n = n - 1;
    }
    proof {
        lemma_trim_end_prefix(s@, n as int);
        let t = s@.take(n as int);
        if t.len() > 0 {
            assert(t.last() == s@[n - 1]);
        }
    }
    n
}

/// The first index in `from..to` where `s` holds `c`, if any.
pub fn find_char(s: &Vec<char>, c: char, from: usize, to: usize) -> (r: Option<usize>)
    requires
        from <= to <= s.len(),
    ensures
        r matches Some(k) ==> from <= k < to && s@[k as int] == c,
        r matches Some(k) ==> first_index_of(s@.subrange(from as int, to as int), c) == Some(k - from),
        r is None ==> first_index_of(s@.subrange(from as int, to as int), c) is None,
{
    reveal(first_index_of);
    let ghost w = s@.subrange(from as int, to as int);
    let mut i = from;
    while i < to
        invariant
            from <= i <= to <= s.len(),
            w == s@.subrange(from as int, to as int),
            forall|j: int| 0 <= j < i - from ==> w[j] != c,
        decreases to - i,
    {
        if s[i] == c {
            let ghost k = i - from;
            assert(w[k] == c);
            let ghost m = choose|m: int| 0 <= m < w.len() && w[m] == c && forall|j: int| 0 <= j < m ==> w[j] != c;
            assert(m == k) by {
                if m < k {
                    assert(w[m] != c);
                }
                if k < m {
                    assert(w[k] != c);
                }
            }
            assert(first_index_of(w, c) == Some(k)) by {
                reveal(first_index_of);
            }
            return Some(i);
        }
        i = i + 1;
    }
    None
}

/// The first index in `from..to` where `s` holds `a` followed by `b`, if any.
pub fn find_pair(s: &Vec<char>, a: char, b: char, from: usize, to: usize) -> (r: Option<usize>)
    requires
        from <= to <= s.len(),
    ensures
        r matches Some(k) ==> from <= k && k + 2 <= to,
        r matches Some(k) ==> first_pair_of(s@.subrange(from as int, to as int), a, b) == Some(k - from),
        r is None ==> first_pair_of(s@.subrange(from as int, to as int), a, b) is None,
{
    reveal(first_pair_of);
    let ghost w = s@.subrange(from as int, to as int);
    let mut i = from;
    while to - i >= 2
        invariant
            from <= i <= to <= s.len(),
            w == s@.subrange(from as int, to as int),
            forall|j: int| 0 <= j < i - from ==> !pair_at(w, a, b, j),
        decreases to - i,
    {
        if s[i] == a && s[i + 1] == b {
            let ghost k = i - from;
            assert(pair_at(w, a, b, k));
            let ghost m = choose|m: int| pair_at(w, a, b, m) && forall|j: int| 0 <= j < m ==> !pair_at(w, a, b, j);
            assert(m == k) by {
                if m < k {
                    assert(!pair_at(w, a, b, m));
                }
                if k < m {
                    assert(!pair_at(w, a, b, k));
                }
            }
            assert(first_pair_of(w, a, b) == Some(k)) by {
                reveal(first_pair_of);
            }
            return Some(i);
        }
        i = i + 1;
    }
    assert forall|j: int| !pair_at(w, a, b, j) by {
        if 0 <= j < i - from {
        }
    }
    None
}

/// Whether `s[from..to]` spells out `word`.
pub fn spells(s: &Vec<char>, from: usize, to: usize, word: &str) -> (r: bool)
    requires
        from <= to <= s.len(),
    ensures
        r == (s@.subrange(from as int, to as int) == word@),
{
    let w = chars_of(word);
    if w.len() != to - from {
        return false;
    }
    let mut i: usize = 0;
    while i < w.len()
        invariant
            w@ == word@,
            w.len() == to - from,
            from <= to <= s.len(),
            i <= w.len(),
            forall|j: int| 0 <= j < i ==> s@[from + j] == w@[j],
        decreases w.len() - i,
    {
        if s[from + i] != w[i] {
            assert(s@.subrange(from as int, to as int)[i as int] != w@[i as int]);
            return false;
        }
        i = i + 1;
    }
    assert(s@.subrange(from as int, to as int) =~= w@);
    true
}

/// The code of `c` with an ASCII upper-case letter turned to lower case.
pub open spec fn ascii_lower(c: char) -> u32 {
    if 'A' <= c <= 'Z' {
        (c as u32 + 32) as u32
    } else {
        c as u32
    }
}

/// Equality of two texts up to ASCII case.
pub open spec fn eq_ascii_case(a: Seq<char>, b: Seq<char>) -> bool {
    a.len() == b.len() && forall|i: int| 0 <= i < a.len() ==> ascii_lower(a[i]) == ascii_lower(b[i])
}

fn lower_ascii(c: char) -> (r: u32)
    ensures
        r == ascii_lower(c),
{
    if 'A' <= c && c <= 'Z' {
        c as u32 + 32
    } else {
        c as u32
    }
}

/// Whether `a` and `b` are equal up to ASCII case.
pub fn eq_ignore_ascii_case(a: &str, b: &str) -> (r: bool)
    ensures
        r == eq_ascii_case(a@, b@),
{
    let x = chars_of(a);
    let y = chars_of(b);
    if x.len() != y.len() {
        return false;
    }
    let mut i: usize = 0;
    while i < x.len()
        invariant
            x@ == a@,
            y@ == b@,
            x.len() == y.len(),
            i <= x.len(),
            forall|j: int| 0 <= j < i ==> ascii_lower(x@[j]) == ascii_lower(y@[j]),
        decreases x.len() - i,
    {
        if lower_ascii(x[i]) != lower_ascii(y[i]) {
            return false;
        }
        i = i + 1;
    }
    true
}

/// Whether `s` begins with `p`.
pub open spec fn has_prefix(s: Seq<char>, p: Seq<char>) -> bool {
    p.len() <= s.len() && s.take(p.len() as int) == p
}

/// Whether `s` ends with `p`.
pub open spec fn has_suffix(s: Seq<char>, p: Seq<char>) -> bool {
    p.len() <= s.len() && s.skip(s.len() - p.len()) == p
}

/// Whether `s` begins with `p`.
pub fn starts_with(s: &str, p: &str) -> (r: bool)
    ensures
        r == has_prefix(s@, p@),
{
    let x = chars_of(s);
    let y = chars_of(p);
    if y.len() > x.len() {
        return false;
    }
    let r = spells(&x, 0, y.len(), p);
    assert(x@.subrange(0, y.len() as int) =~= s@.take(p@.len() as int));
    r
}

/// Whether `s` ends with `p`.
pub fn ends_with(s: &str, p: &str) -> (r: bool)
    ensures
        r == has_suffix(s@, p@),
{
    let x = chars_of(s);
    let y = chars_of(p);
    if y.len() > x.len() {
        return false;
    }
    let r = spells(&x, x.len() - y.len(), x.len(), p);
    assert(x@.subrange(x.len() - y.len(), x.len() as int) =~= s@.skip(s@.len() - p@.len()));
    r
}

} // verus!
