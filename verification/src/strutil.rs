//! Verified helpers over character sequences: locating path separators,
//! substring scans, prefix tests, and decimal parsing.

use vstd::prelude::*;
use vstd::string::*;

verus! {

/// Some character of `s` is `c`.
pub open spec fn contains_char(s: Seq<char>, c: char) -> bool {
    exists|i: int| 0 <= i < s.len() && s[i] == c
}

/// `i` is the index of the last `'/'` in `s`.
pub open spec fn is_last_slash(s: Seq<char>, i: int) -> bool {
    &&& 0 <= i < s.len()
    &&& s[i] == '/'
    &&& forall|j: int| i < j < s.len() ==> s[j] != '/'
}

/// The index of the last `'/'` in `s`; meaningful only when `s` contains one.
pub open spec fn last_slash_index(s: Seq<char>) -> int {
    choose|i: int| is_last_slash(s, i)
}

/// At most one index can be the last slash.
pub proof fn lemma_last_slash_unique(s: Seq<char>, i: int, j: int)
    requires
        is_last_slash(s, i),
        is_last_slash(s, j),
    ensures
        i == j,
{
    if i < j {
        assert(s[j] != '/');
    }
    if j < i {
        assert(s[i] != '/');
    }
}

/// The last path segment of `s`: the characters after the last `'/'`, or all
/// of `s` when it holds no `'/'`.
pub open spec fn last_segment(s: Seq<char>) -> Seq<char> {
    if contains_char(s, '/') {
        s.subrange(last_slash_index(s) + 1, s.len() as int)
    } else {
        s
    }
}

/// Finds the index of the last `'/'` in `s`, if any.
pub fn find_last_slash(s: &str) -> (r: Option<usize>)
    ensures
        match r {
            Some(i) => is_last_slash(s@, i as int),
            None => !contains_char(s@, '/'),
        },
{
    let n = s.unicode_len();
    let mut i: usize = n;
    while i > 0
        invariant
            i <= n,
            n == s@.len(),
            forall|j: int| i <= j < s@.len() ==> s@[j] != '/',
        decreases i,
    {
        let c = s.get_char(i - 1);
        if c == '/' {
            return Some(i - 1);
        }
        i = i - 1;
    }
    None
}

/// Some window of three consecutive characters of `s` is `...`.
pub open spec fn contains_triple_dot(s: Seq<char>) -> bool {
    exists|i: int|
        0 <= i && i + 3 <= s.len() && #[trigger] s[i] == '.' && s[i + 1] == '.' && s[i + 2]
            == '.'
}

/// Scans `s` for three consecutive `.` characters.
pub fn has_triple_dot(s: &str) -> (r: bool)
    ensures
        r == contains_triple_dot(s@),
{
    let n = s.unicode_len();
    if n < 3 {
        return false;
    }
    let mut i: usize = 0;
    while i < n - 2
        invariant
            n == s@.len(),
            3 <= n,
            i <= n - 2,
            forall|j: int|
                0 <= j < i ==> !(#[trigger] s@[j] == '.' && s@[j + 1] == '.' && s@[j + 2]
                    == '.'),
        decreases n - i,
    {
        if s.get_char(i) == '.' && s.get_char(i + 1) == '.' && s.get_char(i + 2) == '.' {
            return true;
        }
        i = i + 1;
    }
    false
}

/// `i` is the index of the first `c` in `s`.
pub open spec fn is_first_index_of(s: Seq<char>, c: char, i: int) -> bool {
    &&& 0 <= i < s.len()
    &&& s[i] == c
    &&& forall|j: int| 0 <= j < i ==> s[j] != c
}

/// The index of the first `c` in `s`; meaningful only when `s` contains one.
pub open spec fn first_index_of(s: Seq<char>, c: char) -> int {
    choose|i: int| is_first_index_of(s, c, i)
}

/// At most one index can be the first occurrence.
pub proof fn lemma_first_index_unique(s: Seq<char>, c: char, i: int, j: int)
    requires
        is_first_index_of(s, c, i),
        is_first_index_of(s, c, j),
    ensures
        i == j,
{
    if i < j {
        assert(s[i] != c);
    }
    if j < i {
        assert(s[j] != c);
    }
}

/// Finds the index of the first `c` in `s`, if any.
pub fn find_first_char(s: &str, c: char) -> (r: Option<usize>)
    ensures
        match r {
            Some(i) => is_first_index_of(s@, c, i as int),
            None => !contains_char(s@, c),
        },
{
    let n = s.unicode_len();
    let mut i: usize = 0;
    while i < n
        invariant
            i <= n,
            n == s@.len(),
            forall|j: int| 0 <= j < i ==> s@[j] != c,
        decreases n - i,
    {
        if s.get_char(i) == c {
            return Some(i);
        }
        i = i + 1;
    }
    None
}

/// `p` is a prefix of `s`.
pub open spec fn spec_starts_with(s: Seq<char>, p: Seq<char>) -> bool {
    p.len() <= s.len() && forall|i: int| 0 <= i < p.len() ==> s[i] == p[i]
}

/// Whether `s` starts with `p`, character by character.
pub fn str_starts_with(s: &str, p: &str) -> (r: bool)
    ensures
        r == spec_starts_with(s@, p@),
{
    let n = s.unicode_len();
    let m = p.unicode_len();
    if m > n {
        return false;
    }
    let mut i: usize = 0;
    while i < m
        invariant
            i <= m,
            m <= n,
            n == s@.len(),
            m == p@.len(),
            forall|j: int| 0 <= j < i ==> s@[j] == p@[j],
        decreases m - i,
    {
        if s.get_char(i) != p.get_char(i) {
            return false;
        }
        i = i + 1;
    }
    true
}

/// Whether `a` and `b` hold the same characters.
pub fn str_eq(a: &str, b: &str) -> (r: bool)
    ensures
        r == (a@ == b@),
{
    let n = a.unicode_len();
    if n != b.unicode_len() {
        return false;
    }
    let mut i: usize = 0;
    while i < n
        invariant
            i <= n,
            n == a@.len(),
            n == b@.len(),
            forall|j: int| 0 <= j < i ==> a@[j] == b@[j],
        decreases n - i,
    {
        if a.get_char(i) != b.get_char(i) {
            return false;
        }
        i = i + 1;
    }
    proof {
        assert(a@ =~= b@);
    }
    true
}

/// The second space-separated field of `s`: the characters between the first
/// space and the next space or the end. Meaningful only when `s` contains a
/// space.
pub open spec fn second_field(s: Seq<char>) -> Seq<char> {
    let rest = s.subrange(first_index_of(s, ' ') + 1, s.len() as int);
    if contains_char(rest, ' ') {
        rest.subrange(0, first_index_of(rest, ' '))
    } else {
        rest
    }
}

/// Extracts the second space-separated field of `s`, if `s` holds a space.
pub fn second_token(s: &str) -> (r: Option<String>)
    ensures
        match r {
            Some(t) => contains_char(s@, ' ') && t@ == second_field(s@),
            None => !contains_char(s@, ' '),
        },
{
    match find_first_char(s, ' ') {
        None => None,
        Some(i) => {
            proof {
                lemma_first_index_unique(s@, ' ', i as int, first_index_of(s@, ' '));
            }
            let n = s.unicode_len();
            let rest = s.substring_char(i + 1, n);
            match find_first_char(rest, ' ') {
                None => Some(rest.to_owned()),
                Some(j) => {
                    proof {
                        lemma_first_index_unique(rest@, ' ', j as int, first_index_of(rest@, ' '));
                    }
                    Some(rest.substring_char(0, j).to_owned())
                },
            }
        },
    }
}

/// `c` is a decimal digit.
pub open spec fn is_digit(c: char) -> bool {
    '0' <= c && c <= '9'
}

/// The value of a digit; zero for any other character.
pub open spec fn digit_value(c: char) -> nat {
    if is_digit(c) {
        (c as nat - '0' as nat) as nat
    } else {
        0
    }
}

/// `s` is a nonempty run of decimal digits.
pub open spec fn all_digits(s: Seq<char>) -> bool {
    s.len() > 0 && forall|i: int| 0 <= i < s.len() ==> is_digit(#[trigger] s[i])
}

/// The number the digits of `s` write in base ten.
pub open spec fn decimal_value(s: Seq<char>) -> nat
    decreases s.len(),
{
    if s.len() == 0 {
        0
    } else {
        10 * decimal_value(s.drop_last()) + digit_value(s.last())
    }
}

/// Extending a digit string only grows its value.
pub proof fn lemma_decimal_value_prefix(s: Seq<char>, i: int)
    requires
        0 <= i <= s.len(),
    ensures
        decimal_value(s.subrange(0, i)) <= decimal_value(s),
    decreases s.len() - i,
{
    if i < s.len() {
        let pre = s.subrange(0, i);
        let next = s.subrange(0, i + 1);
        assert(next.drop_last() =~= pre);
        assert(next.last() == s[i]);
        assert(decimal_value(next) == 10 * decimal_value(pre) + digit_value(s[i]));
        lemma_decimal_value_prefix(s, i + 1);
    } else {
        assert(s.subrange(0, i) =~= s);
    }
}

/// Parses `s` as an unsigned decimal number: the value of its digits when
/// they are all digits and the value fits the type, nothing otherwise.
pub fn parse_u64_decimal(s: &str) -> (r: Option<u64>)
    ensures
        match r {
            Some(v) => all_digits(s@) && decimal_value(s@) <= u64::MAX && v == decimal_value(
                s@,
            ),
            None => !all_digits(s@) || decimal_value(s@) > u64::MAX,
        },
{
    let n = s.unicode_len();
    if n == 0 {
        return None;
    }
    let mut i: usize = 0;
    let mut val: u64 = 0;
    while i < n
        invariant
            i <= n,
            n == s@.len(),
            forall|j: int| 0 <= j < i ==> is_digit(#[trigger] s@[j]),
            val == decimal_value(s@.subrange(0, i as int)),
        decreases n - i,
    {
        let c = s.get_char(i);
        if !('0' <= c && c <= '9') {
            return None;
        }
        let d: u64 = (c as u32 - 48) as u64;
        proof {
            assert(d == digit_value(s@[i as int]));
        }
        if val > (u64::MAX - d) / 10 {
            proof {
                let next = s@.subrange(0, i as int + 1);
                assert(next.drop_last() =~= s@.subrange(0, i as int));
                assert(next.last() == s@[i as int]);
                assert(decimal_value(next) == 10 * decimal_value(s@.subrange(0, i as int))
                    + digit_value(s@[i as int]));
                assert(decimal_value(next) > u64::MAX);
                lemma_decimal_value_prefix(s@, i as int + 1);
            }
            return None;
        }
        proof {
            let next = s@.subrange(0, i as int + 1);
            assert(next.drop_last() =~= s@.subrange(0, i as int));
            assert(next.last() == s@[i as int]);
        }
        val = val * 10 + d;
        i = i + 1;
    }
    proof {
        assert(s@.subrange(0, n as int) =~= s@);
    }
    Some(val)
}

} // verus!
