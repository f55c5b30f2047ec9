use vstd::prelude::*;

verus! {

/// `sub` occurs in `s` starting at position `i`.
pub open spec fn matches_at(s: Seq<char>, sub: Seq<char>, i: int) -> bool {
    &&& 0 <= i
    &&& i + sub.len() <= s.len()
    &&& s.subrange(i, i + sub.len()) == sub
}

/// `sub` occurs somewhere in `s`.
pub open spec fn has_substring(s: Seq<char>, sub: Seq<char>) -> bool {
    exists|i: int| matches_at(s, sub, i)
}

/// `p` is a prefix of `s`.
pub open spec fn is_prefix(p: Seq<char>, s: Seq<char>) -> bool {
    p.len() <= s.len() && s.subrange(0, p.len() as int) == p
}

/// Position of the first occurrence of `c` in `s`, or `s.len()` if there is none.
pub open spec fn first_index(s: Seq<char>, c: char) -> int
    decreases s.len(),
{
    if s.len() == 0 {
        0
    } else if s[0] == c {
        0
    } else {
        1 + first_index(s.subrange(1, s.len() as int), c)
    }
}

/// The part of `s` before the first occurrence of `c`; all of `s` if `c` does
/// not occur.
pub open spec fn head_before(s: Seq<char>, c: char) -> Seq<char> {
    s.subrange(0, first_index(s, c))
}

/// `first_index` names the first occurrence: nothing before it is `c`, and it
/// is `c` itself unless `c` does not occur at all.
pub proof fn lemma_first_index(s: Seq<char>, c: char)
    ensures
        0 <= first_index(s, c) <= s.len(),
        first_index(s, c) < s.len() ==> s[first_index(s, c)] == c,
        forall|t: int| 0 <= t < first_index(s, c) ==> s[t] != c,
    decreases s.len(),
{
    if s.len() > 0 && s[0] != c {
        let tail = s.subrange(1, s.len() as int);
        lemma_first_index(tail, c);
        assert forall|t: int| 0 <= t < first_index(s, c) implies s[t] != c by {
            if t >= 1 {
                assert(tail[t - 1] == s[t]);
            }
        }
    }
}

/// A position with `c` that nothing earlier matches is the first occurrence.
pub proof fn lemma_first_index_unique(s: Seq<char>, c: char, i: int)
    requires
        0 <= i < s.len(),
        s[i] == c,
        forall|t: int| 0 <= t < i ==> s[t] != c,
    ensures
        first_index(s, c) == i,
{
    lemma_first_index(s, c);
}

/// Tests two string slices for character-wise equality.
pub fn str_eq(a: &str, b: &str) -> (r: bool)
    ensures
        r == (a@ == b@),
{
    let na = a.unicode_len();
    let nb = b.unicode_len();
    if na != nb {
        return false;
    }
    let mut i: usize = 0;
    while i < na
        invariant
            0 <= i <= na,
            na == a@.len(),
            na == b@.len(),
            forall|t: int| 0 <= t < i ==> a@[t] == b@[t],
        decreases na - i,
    {
        if a.get_char(i) != b.get_char(i) {
            return false;
        }
        i = i + 1;
    }
    proof {
        assert(a@ =~= b@);
    }
    true
}

/// Tests whether `sub` occurs in `s` starting at position `i`.
fn matches_at_exec(s: &str, sub: &str, i: usize) -> (r: bool)
    ensures
        r == matches_at(s@, sub@, i as int),
{
    let ns = s.unicode_len();
    let np = sub.unicode_len();
    if i > ns || np > ns - i {
        return false;
    }
    let mut t: usize = 0;
    while t < np
        invariant
            0 <= t <= np,
            np == sub@.len(),
            ns == s@.len(),
            i + np <= ns,
            forall|u: int| 0 <= u < t ==> s@[i + u] == sub@[u],
        decreases np - t,
    {
        if s.get_char(i + t) != sub.get_char(t) {
            proof {
                if matches_at(s@, sub@, i as int) {
                    assert(s@.subrange(i as int, i + sub@.len())[t as int] == s@[i + t]);
                }
            }
            return false;
        }
        t = t + 1;
    }
    proof {
        assert(s@.subrange(i as int, i + sub@.len()) =~= sub@);
    }
    true
}

/// Tests whether `p` is a prefix of `s`.
pub fn str_starts_with(s: &str, p: &str) -> (r: bool)
    ensures
        r == is_prefix(p@, s@),
{
    matches_at_exec(s, p, 0)
}

/// Tests whether `sub` occurs anywhere in `s`.
pub fn str_contains(s: &str, sub: &str) -> (r: bool)
    ensures
        r == has_substring(s@, sub@),
{
    let ns = s.unicode_len();
    let np = sub.unicode_len();
    if np == 0 {
        proof {
            assert(s@.subrange(0, 0) =~= sub@);
            assert(matches_at(s@, sub@, 0));
        }
        return true;
    }
    let mut i: usize = 0;
    while i < ns
        invariant
            0 <= i <= ns,
            ns == s@.len(),
            np == sub@.len(),
            np >= 1,
            forall|j: int| 0 <= j < i ==> !matches_at(s@, sub@, j),
        decreases ns - i,
    {
        if matches_at_exec(s, sub, i) {
            return true;
        }
        i = i + 1;
    }
    proof {
        assert forall|j: int| !matches_at(s@, sub@, j) by {
            if 0 <= j < s@.len() {
            }
        }
    }
    false
}

/// Copies the part of `s` before the first `c`; all of `s` if `c` does not occur.
pub fn head_before_exec(s: &str, c: char) -> (r: String)
    ensures
        r@ == head_before(s@, c),
{
    let n = s.unicode_len();
    let mut i: usize = 0;
    while i < n
        invariant
            0 <= i <= n,
            n == s@.len(),
            forall|t: int| 0 <= t < i ==> s@[t] != c,
        decreases n - i,
    {
        if s.get_char(i) == c {
            proof {
                lemma_first_index_unique(s@, c, i as int);
            }
            let pre = s.substring_char(0, i);
            return String::from_str(pre);
        }
        i = i + 1;
    }
    proof {
        lemma_first_index(s@, c);
        assert(first_index(s@, c) == s@.len());
        assert(s@.subrange(0, s@.len() as int) =~= s@);
    }
    String::from_str(s)
}

/// Decimal digit characters of `n`, most significant first.
pub open spec fn dec_chars(n: int) -> Seq<char>
    decreases n,
{
    if n < 10 {
        seq![digit_to_char(n)]
    } else {
        dec_chars(n / 10).push(digit_to_char(n % 10))
    }
}

/// The character for one decimal digit.
pub open spec fn digit_to_char(d: int) -> char {
    if d == 0 {
        '0'
    } else if d == 1 {
        '1'
    } else if d == 2 {
        '2'
    } else if d == 3 {
        '3'
    } else if d == 4 {
        '4'
    } else if d == 5 {
        '5'
    } else if d == 6 {
        '6'
    } else if d == 7 {
        '7'
    } else if d == 8 {
        '8'
    } else {
        '9'
    }
}

/// Appends one decimal digit character.
fn push_digit_char(out: &mut String, d: u16)
    requires
        d < 10,
    ensures
        final(out)@ == old(out)@.push(digit_to_char(d as int)),
{
    let c: char = if d == 0 {
        '0'
    } else if d == 1 {
        '1'
    } else if d == 2 {
        '2'
    } else if d == 3 {
        '3'
    } else if d == 4 {
        '4'
    } else if d == 5 {
        '5'
    } else if d == 6 {
        '6'
    } else if d == 7 {
        '7'
    } else if d == 8 {
        '8'
    } else {
        '9'
    };
    crate::trusted::push_char(out, c);
}

/// Appends the decimal digits of `n`.
fn push_decimal(out: &mut String, n: u16)
    ensures
        final(out)@ == old(out)@ + dec_chars(n as int),
    decreases n,
{
    if n < 10 {
        push_digit_char(out, n);
        proof {
            assert(old(out)@ + dec_chars(n as int) =~= old(out)@.push(digit_to_char(n as int)));
        }
    } else {
        push_decimal(out, n / 10);
        push_digit_char(out, n % 10);
        proof {
            assert(old(out)@ + dec_chars(n as int) =~= (old(out)@ + dec_chars(n as int / 10)).push(
                digit_to_char(n as int % 10)));
        }
    }
}

/// Renders `n` in decimal.
pub fn u16_to_string(n: u16) -> (r: String)
    ensures
        r@ == dec_chars(n as int),
{
    let mut out = String::new();
    push_decimal(&mut out, n);
    proof {
        assert(Seq::<char>::empty() + dec_chars(n as int) =~= dec_chars(n as int));
    }
    out
}

} // verus!
