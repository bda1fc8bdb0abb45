//! Small verified helpers over `String` / `&str`, and the searching spec
//! functions that the parsing contracts are stated with.

use vstd::prelude::*;

verus! {

/// `String::push` appends one character; vstd does not specify it.
/// Relies on `alloc::string::String::push`: appends the given char to the end.
pub assume_specification[ String::push ](s: &mut String, ch: char)
    ensures
        final(s)@ == old(s)@.push(ch),
;

/// `p` is a prefix of `s`.
pub open spec fn has_prefix(s: Seq<char>, p: Seq<char>) -> bool {
    p.len() <= s.len() && s.subrange(0, p.len() as int) == p
}

/// True iff the string begins with the given prefix.
pub fn starts_with(s: &str, prefix: &str) -> (r: bool)
    ensures
        r == has_prefix(s@, prefix@),
{
    let n = s.unicode_len();
    let m = prefix.unicode_len();
    if m > n {
        assert(!has_prefix(s@, prefix@));
        return false;
    }
    let mut i: usize = 0;
    while i < m
        invariant
            0 <= i <= m,
            m <= n,
            n == s@.len(),
            m == prefix@.len(),
            forall|j: int| 0 <= j < i ==> s@[j] == prefix@[j],
        decreases m - i,
    {
        if s.get_char(i) != prefix.get_char(i) {
            assert(s@.subrange(0, m as int)[i as int] != prefix@[i as int]);
            return false;
        }
        i += 1;
    }
    assert(s@.subrange(0, m as int) =~= prefix@);
    true
}

/// True iff the two strings hold the same characters.
pub fn str_eq(a: &str, b: &str) -> (r: bool)
    ensures
        r == (a@ == b@),
{
    let n = a.unicode_len();
    let m = b.unicode_len();
    if n != m {
        return false;
    }
    let mut i: usize = 0;
    while i < n
        invariant
            0 <= i <= n,
            n == a@.len(),
            n == b@.len(),
            forall|j: int| 0 <= j < i ==> a@[j] == b@[j],
        decreases n - i,
    {
        if a.get_char(i) != b.get_char(i) {
            return false;
        }
        i += 1;
    }
    assert(a@ =~= b@);
    true
}

/// `n` copies of the character `c`.
pub open spec fn char_run(c: char, n: int) -> Seq<char> {
    Seq::new(n as nat, |i: int| c)
}

/// A string of `n` copies of `c`.
pub fn repeat_char(c: char, n: usize) -> (r: String)
    ensures
        r@ == char_run(c, n as int),
{
    let mut out = String::new();
    let mut i: usize = 0;
    while i < n
        invariant
            0 <= i <= n,
            out@ =~= char_run(c, i as int),
        decreases n - i,
    {
        out.push(c);
        i += 1;
    }
    assert(out@ =~= char_run(c, n as int));
    out
}

/// The least index `j >= from` with `s[j] == c`, if any.
pub open spec fn spec_find_char(s: Seq<char>, c: char, from: int) -> Option<int>
    decreases s.len() - from,
{
    if from < 0 || from >= s.len() {
        None
    } else if s[from] == c {
        Some(from)
    } else {
        spec_find_char(s, c, from + 1)
    }
}

pub proof fn lemma_find_char_props(s: Seq<char>, c: char, from: int)
    requires
        0 <= from <= s.len(),
    ensures
        match spec_find_char(s, c, from) {
            Some(j) => from <= j < s.len() && s[j] == c && forall|k: int|
                from <= k < j ==> s[k] != c,
            None => forall|k: int| from <= k < s.len() ==> s[k] != c,
        },
    decreases s.len() - from,
{
    if from < s.len() && s[from] != c {
        lemma_find_char_props(s, c, from + 1);
    }
}

/// Find the first occurrence of `c` at or after `from`.
pub fn find_char(s: &str, c: char, from: usize) -> (r: Option<usize>)
    requires
        from <= s@.len(),
    ensures
        match r {
            Some(j) => from <= j < s@.len() && s@[j as int] == c && Some(j as int)
                == spec_find_char(s@, c, from as int),
            None => spec_find_char(s@, c, from as int) is None,
        },
{
    let n = s.unicode_len();
    let mut i: usize = from;
    while i < n
        invariant
            from <= i <= n,
            n == s@.len(),
            spec_find_char(s@, c, from as int) == spec_find_char(s@, c, i as int),
        decreases n - i,
    {
        if s.get_char(i) == c {
            return Some(i);
        }
        i += 1;
    }
    None
}

/// The least index `j >= from` where `c` occurs twice in a row.
pub open spec fn spec_find_double(s: Seq<char>, c: char, from: int) -> Option<int>
    decreases s.len() - from,
{
    if from < 0 || from + 1 >= s.len() {
        None
    } else if s[from] == c && s[from + 1] == c {
        Some(from)
    } else {
        spec_find_double(s, c, from + 1)
    }
}

/// Find the first index at or after `from` where `c` occurs twice in a row.
pub fn find_double(s: &str, c: char, from: usize) -> (r: Option<usize>)
    requires
        from <= s@.len(),
    ensures
        match r {
            Some(j) => Some(j as int) == spec_find_double(s@, c, from as int),
            None => spec_find_double(s@, c, from as int) is None,
        },
{
    let n = s.unicode_len();
    if n == 0 {
        return None;
    }
    let mut i: usize = from;
    while i < n - 1
        invariant
            from <= i,
            i <= n,
            n >= 1,
            n == s@.len(),
            spec_find_double(s@, c, from as int) == spec_find_double(s@, c, i as int),
        decreases n - i,
    {
        if s.get_char(i) == c && s.get_char(i + 1) == c {
            return Some(i);
        }
        i += 1;
    }
    None
}

/// The greatest index `j` with `s[j] == c`, if any.
pub open spec fn spec_rfind_char(s: Seq<char>, c: char) -> Option<int>
    decreases s.len(),
{
    if s.len() == 0 {
        None
    } else if s[s.len() - 1] == c {
        Some(s.len() - 1)
    } else {
        spec_rfind_char(s.drop_last(), c)
    }
}

proof fn lemma_rfind_step(s: Seq<char>, c: char, i: int)
    requires
        0 <= i < s.len(),
        forall|k: int| i < k < s.len() ==> s[k] != c,
    ensures
        s[i] == c ==> spec_rfind_char(s, c) == Some(i),
        s[i] != c ==> spec_rfind_char(s, c) == spec_rfind_char(s.subrange(0, i), c),
    decreases s.len(),
{
    if i == s.len() - 1 {
        assert(s.drop_last() =~= s.subrange(0, i));
    } else {
        lemma_rfind_step(s.drop_last(), c, i);
        assert(s.drop_last().subrange(0, i) =~= s.subrange(0, i));
        assert(s.drop_last()[i] == s[i]);
    }
}

/// Find the last occurrence of `c` in `s`.
pub fn rfind_char(s: &str, c: char) -> (r: Option<usize>)
    ensures
        match r {
            Some(j) => Some(j as int) == spec_rfind_char(s@, c),
            None => spec_rfind_char(s@, c) is None,
        },
{
    let n = s.unicode_len();
    let mut i: usize = n;
    while i > 0
        invariant
            0 <= i <= n,
            n == s@.len(),
            forall|k: int| i <= k < s@.len() ==> s@[k] != c,
        decreases i,
    {
        i -= 1;
        if s.get_char(i) == c {
            proof {
                lemma_rfind_step(s@, c, i as int);
            }
            return Some(i);
        }
    }
    proof {
        lemma_none_when_absent(s@, c);
    }
    None
}

proof fn lemma_none_when_absent(s: Seq<char>, c: char)
    requires
        forall|k: int| 0 <= k < s.len() ==> s[k] != c,
    ensures
        spec_rfind_char(s, c) is None,
    decreases s.len(),
{
    if s.len() > 0 {
        lemma_none_when_absent(s.drop_last(), c);
    }
}

/// The length of `s` with trailing spaces removed.
pub open spec fn spec_trimmed_len(s: Seq<char>) -> int
    decreases s.len(),
{
    if s.len() == 0 {
        0
    } else if s[s.len() - 1] == ' ' {
        spec_trimmed_len(s.drop_last())
    } else {
        s.len() as int
    }
}

/// Count the characters of `s` that remain after trailing spaces are dropped.
pub fn trimmed_len(s: &str) -> (r: usize)
    ensures
        r as int == spec_trimmed_len(s@),
{
    let n = s.unicode_len();
    proof {
        assert(s@.subrange(0, s@.len() as int) =~= s@);
    }
    let mut i: usize = n;
    while i > 0
        invariant
            0 <= i <= n,
            n == s@.len(),
            spec_trimmed_len(s@) == spec_trimmed_len(s@.subrange(0, i as int)),
            forall|k: int| i <= k < s@.len() ==> s@[k] == ' ',
        decreases i,
    {
        if s.get_char(i - 1) != ' ' {
            proof {
                let t = s@.subrange(0, i as int);
                assert(t[t.len() - 1] != ' ');
            }
            return i;
        }
        proof {
            let t = s@.subrange(0, i as int);
            assert(t.drop_last() =~= s@.subrange(0, i - 1));
        }
        i -= 1;
    }
    proof {
        assert(s@.subrange(0, 0) =~= Seq::<char>::empty());
    }
    0
}

/// `o` as an optional character sequence.
pub open spec fn opt_view(o: Option<String>) -> Option<Seq<char>> {
    match o {
        Some(s) => Some(s@),
        None => None,
    }
}

} // verus!
