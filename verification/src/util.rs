use vstd::prelude::*;

verus! {

/// Whether `c` is a decimal digit.
pub open spec fn is_digit_char(c: char) -> bool {
    '0' <= c && c <= '9'
}

/// Numeric value of a decimal digit character.
pub open spec fn digit_value(c: char) -> int {
    c as int - '0' as int
}

/// Numeric value of a run of decimal digit characters, most significant first.
pub open spec fn decimal_value(s: Seq<char>) -> int
    decreases s.len(),
{
    if s.len() == 0 {
        0
    } else {
        decimal_value(s.drop_last()) * 10 + digit_value(s.last())
    }
}

/// Ten to the `n`-th power.
pub open spec fn pow10(n: nat) -> int
    decreases n,
{
    if n == 0 {
        1
    } else {
        10 * pow10((n - 1) as nat)
    }
}

/// A run of digits of length n has a value below ten to the n.
proof fn lemma_decimal_value_bound(s: Seq<char>)
    requires
        forall|i: int| 0 <= i < s.len() ==> is_digit_char(#[trigger] s[i]),
    ensures
        0 <= decimal_value(s) < pow10(s.len()),
    decreases s.len(),
{
    if s.len() > 0 {
        assert(forall|i: int|
            0 <= i < s.drop_last().len() ==> is_digit_char(#[trigger] s.drop_last()[i]));
        lemma_decimal_value_bound(s.drop_last());
        assert(is_digit_char(s.last()));
    }
}

/// Whether `s` is one valid dotted-quad group: one to three decimal digits
/// whose numeric value is at most 255. Leading zeros are accepted.
pub open spec fn is_octet(s: Seq<char>) -> bool {
    &&& 1 <= s.len() <= 3
    &&& forall|i: int| 0 <= i < s.len() ==> is_digit_char(#[trigger] s[i])
    &&& decimal_value(s) <= 255
}

/// The dots at positions `i < j < k` cut `s` into four valid groups.
pub open spec fn ipv4_split_at(s: Seq<char>, i: int, j: int, k: int) -> bool {
    &&& 0 <= i < j < k < s.len()
    &&& s[i] == '.'
    &&& s[j] == '.'
    &&& s[k] == '.'
    &&& is_octet(s.subrange(0, i))
    &&& is_octet(s.subrange(i + 1, j))
    &&& is_octet(s.subrange(j + 1, k))
    &&& is_octet(s.subrange(k + 1, s.len() as int))
}

/// Whether `s` is a dotted-quad IPv4 address: four dot-separated groups of one
/// to three digits, each group numerically in [0, 255]. A group may carry
/// leading zeros.
pub open spec fn is_ipv4_chars(s: Seq<char>) -> bool {
    exists|i: int, j: int, k: int| ipv4_split_at(s, i, j, k)
}

/// In a dotted-quad split, the dots stand nowhere but at the three cut points:
/// every group is all digits, and a dot is no digit.
proof fn lemma_dots_only_at_split(s: Seq<char>, i: int, j: int, k: int)
    requires
        ipv4_split_at(s, i, j, k),
    ensures
        forall|t: int| 0 <= t < s.len() && #[trigger] s[t] == '.' ==> t == i || t == j || t == k,
{
    assert forall|t: int| 0 <= t < s.len() && #[trigger] s[t] == '.' implies t == i || t == j
        || t == k by {
        if t < i {
            assert(s.subrange(0, i)[t] == s[t]);
        } else if i < t < j {
            assert(s.subrange(i + 1, j)[t - i - 1] == s[t]);
        } else if j < t < k {
            assert(s.subrange(j + 1, k)[t - j - 1] == s[t]);
        } else if k < t {
            assert(s.subrange(k + 1, s.len() as int)[t - k - 1] == s[t]);
        }
    }
}

/// Checks whether the characters of `s` from `from` (inclusive) to `to`
/// (exclusive) form one valid dotted-quad group.
fn check_group(s: &str, from: usize, to: usize) -> (r: bool)
    requires
        from <= to <= s@.len(),
    ensures
        r == is_octet(s@.subrange(from as int, to as int)),
{
    let n = to - from;
    if n < 1 || n > 3 {
        return false;
    }
    let mut val: u32 = 0;
    let mut idx: usize = from;
    while idx < to
        invariant
            from <= idx <= to <= s@.len(),
            1 <= to - from <= 3,
            forall|t: int| from <= t < idx ==> is_digit_char(#[trigger] s@[t]),
            val == decimal_value(s@.subrange(from as int, idx as int)),
            val < 1000,
        decreases to - idx,
    {
        let c = s.get_char(idx);
        if !('0' <= c && c <= '9') {
            proof {
                assert(s@.subrange(from as int, to as int)[idx - from] == s@[idx as int]);
            }
            return false;
        }
        let d: u32 = (c as u32) - ('0' as u32);
        proof {
            let pre = s@.subrange(from as int, idx as int);
            assert(forall|t: int| 0 <= t < pre.len() ==> is_digit_char(#[trigger] pre[t]));
            lemma_decimal_value_bound(pre);
            assert(pre.len() <= 2 ==> pow10(pre.len()) <= 100) by {
                assert(pow10(0) == 1);
                assert(pow10(1) == 10);
                assert(pow10(2) == 100);
            }
            assert(val <= 99);
        }
        val = val * 10 + d;
        proof {
            let pre = s@.subrange(from as int, idx as int);
            let ext = s@.subrange(from as int, idx as int + 1);
            assert(ext.drop_last() =~= pre);
            assert(ext.last() == s@[idx as int]);
        }
        idx = idx + 1;
    }
    proof {
        let g = s@.subrange(from as int, to as int);
        assert(forall|t: int| 0 <= t < g.len() ==> is_digit_char(#[trigger] g[t]));
    }
    val <= 255
}

/// Decides whether `s` is a syntactically valid dotted-quad IPv4 address:
/// four dot-separated groups of one to three decimal digits, each group
/// numerically in [0, 255]. Groups with leading zeros such as "001" pass.
pub fn is_ipv4(s: &String) -> (r: bool)
    ensures
        r == is_ipv4_chars(s@),
{
    let st = s.as_str();
    let n = st.unicode_len();
    if n < 7 || n > 15 {
        proof {
            if is_ipv4_chars(s@) {
                let (i, j, k) = choose|i: int, j: int, k: int| ipv4_split_at(s@, i, j, k);
                assert(s@.subrange(0, i).len() == i);
                assert(s@.subrange(i + 1, j).len() == j - i - 1);
                assert(s@.subrange(j + 1, k).len() == k - j - 1);
                assert(s@.subrange(k + 1, s@.len() as int).len() == s@.len() - k - 1);
                assert(false);
            }
        }
        return false;
    }
    let mut count: usize = 0;
    let mut d0: usize = 0;
    let mut d1: usize = 0;
    let mut d2: usize = 0;
    let mut idx: usize = 0;
    while idx < n
        invariant
            0 <= idx <= n,
            n == s@.len(),
            st@ == s@,
            count <= 3,
            count >= 1 ==> d0 < idx,
            count >= 2 ==> d0 < d1 < idx,
            count >= 3 ==> d1 < d2 < idx,
            forall|t: int|
                0 <= t < idx ==> ((#[trigger] s@[t] == '.') <==> ((count >= 1 && t == d0) || (
                count >= 2 && t == d1) || (count >= 3 && t == d2))),
        decreases n - idx,
    {
        let c = st.get_char(idx);
        if c == '.' {
            if count == 0 {
                d0 = idx;
            } else if count == 1 {
                d1 = idx;
            } else if count == 2 {
                d2 = idx;
            } else {
                // a fourth dot: four distinct dot positions cannot all sit on
                // the three cut points of a dotted quad
                proof {
                    if is_ipv4_chars(s@) {
                        let (i, j, k) = choose|i: int, j: int, k: int| ipv4_split_at(s@, i, j, k);
                        lemma_dots_only_at_split(s@, i, j, k);
                        assert(s@[d0 as int] == '.');
                        assert(s@[d1 as int] == '.');
                        assert(s@[d2 as int] == '.');
                        assert(s@[idx as int] == '.');
                        assert(false);
                    }
                }
                return false;
            }
            count = count + 1;
        }
        idx = idx + 1;
    }
    if count != 3 {
        proof {
            if is_ipv4_chars(s@) {
                let (i, j, k) = choose|i: int, j: int, k: int| ipv4_split_at(s@, i, j, k);
                assert(s@[i] == '.');
                assert(s@[j] == '.');
                assert(s@[k] == '.');
                assert(false);
            }
        }
        return false;
    }
    let g0 = check_group(st, 0, d0);
    let g1 = check_group(st, d0 + 1, d1);
    let g2 = check_group(st, d1 + 1, d2);
    let g3 = check_group(st, d2 + 1, n);
    let r = g0 && g1 && g2 && g3;
    proof {
        assert(s@[d0 as int] == '.');
        assert(s@[d1 as int] == '.');
        assert(s@[d2 as int] == '.');
        if r {
            assert(ipv4_split_at(s@, d0 as int, d1 as int, d2 as int));
        } else {
            if is_ipv4_chars(s@) {
                let (i, j, k) = choose|i: int, j: int, k: int| ipv4_split_at(s@, i, j, k);
                lemma_dots_only_at_split(s@, i, j, k);
                // the three dots found are exactly the three cut points
                assert(i == d0 && j == d1 && k == d2);
                assert(false);
            }
        }
    }
    r
}

} // verus!
