//! Text helpers on `&str` / `String` with their meaning stated over `Seq<char>`.
use vstd::prelude::*;

verus! {

/// The character of a decimal digit.
pub open spec fn digit_char(d: nat) -> char {
    if d == 0 {
        '0'
    } else if d == 1 {
        '1'
    } else if d == 2 {
        '2'
    } else if d == 3 {
        '3'
    } else if d == 4 {
        '4'
    } else if d == 5 {
        '5'
    } else if d == 6 {
        '6'
    } else if d == 7 {
        '7'
    } else if d == 8 {
        '8'
    } else {
        '9'
    }
}

/// `n` written in decimal, without leading zeros.
pub open spec fn decimal(n: nat) -> Seq<char>
    decreases n,
{
    if n < 10 {
        seq![digit_char(n)]
    } else {
        decimal(n / 10).push(digit_char(n % 10))
    }
}

fn digit_str(d: u64) -> (r: &'static str)
    requires
        d < 10,
    ensures
        r@ == seq![digit_char(d as nat)],
{
    if d == 0 {
        proof { reveal_strlit("0"); }
        "0"
    } else if d == 1 {
        proof { reveal_strlit("1"); }
        "1"
    } else if d == 2 {
        proof { reveal_strlit("2"); }
        "2"
    } else if d == 3 {
        proof { reveal_strlit("3"); }
        "3"
    } else if d == 4 {
        proof { reveal_strlit("4"); }
        "4"
    } else if d == 5 {
        proof { reveal_strlit("5"); }
        "5"
    } else if d == 6 {
        proof { reveal_strlit("6"); }
        "6"
    } else if d == 7 {
        proof { reveal_strlit("7"); }
        "7"
    } else if d == 8 {
        proof { reveal_strlit("8"); }
        "8"
    } else {
        proof { reveal_strlit("9"); }
        "9"
    }
}

/// Appends `n` in decimal to `out`.
pub fn push_decimal(out: &mut String, n: u64)
    ensures
        final(out)@ == old(out)@ + decimal(n as nat),
    decreases n,
{
    if n >= 10 {
        push_decimal(out, n / 10);
    }
    out.append(digit_str(n % 10));
    proof {
        assert(n < 10 ==> decimal(n as nat) == seq![digit_char(n as nat)]);
    }
}

/// Whether `s` holds two dots in a row somewhere.
pub open spec fn has_double_dot(s: Seq<char>) -> bool {
    exists|k: int| 0 <= k && k + 1 < s.len() && s[k] == '.' && #[trigger] s[k + 1] == '.'
}

/// Whether one of the `/`-separated segments of `s` is exactly `..`.
pub open spec fn has_parent_segment(s: Seq<char>) -> bool {
    exists|k: int|
        0 <= k && k + 1 < s.len() && s[k] == '.' && #[trigger] s[k + 1] == '.' && (k == 0 || s[k
            - 1] == '/') && (k + 2 == s.len() || s[k + 2] == '/')
}

pub fn contains_double_dot(s: &str) -> (r: bool)
    ensures
        r == has_double_dot(s@),
{
    let n = s.unicode_len();
    let mut k: usize = 0;
    while k < n && k + 1 < n
        invariant
            n == s@.len(),
            forall|j: int| 0 <= j < k && j + 1 < n ==> !(s@[j] == '.' && #[trigger] s@[j + 1] == '.'),
        decreases n - k,
    {
        if s.get_char(k) == '.' && s.get_char(k + 1) == '.' {
            return true;
        }
        k = k + 1;
    }
    proof {
        assert forall|j: int| 0 <= j && j + 1 < s@.len() implies !(s@[j] == '.' && #[trigger] s@[j
            + 1] == '.') by {
            assert(j < k);
        }
    }
    false
}

pub fn contains_parent_segment(s: &str) -> (r: bool)
    ensures
        r == has_parent_segment(s@),
{
    let n = s.unicode_len();
    let mut k: usize = 0;
    while k < n && k + 1 < n
        invariant
            n == s@.len(),
            forall|j: int|
                0 <= j < k && j + 1 < n ==> !(s@[j] == '.' && #[trigger] s@[j + 1] == '.' && (j == 0 || s@[j
                    - 1] == '/') && (j + 2 == n || s@[j + 2] == '/')),
        decreases n - k,
    {
        if s.get_char(k) == '.' && s.get_char(k + 1) == '.' && (k == 0 || s.get_char(k - 1) == '/')
            && (k + 2 == n || s.get_char(k + 2) == '/') {
            return true;
        }
        k = k + 1;
    }
    proof {
        assert forall|j: int|
            0 <= j && j + 1 < s@.len() implies !(s@[j] == '.' && #[trigger] s@[j + 1] == '.' && (j
            == 0 || s@[j - 1] == '/') && (j + 2 == s@.len() || s@[j + 2] == '/')) by {
            assert(j < k);
        }
    }
    false
}

/// Whether `s` begins with `prefix`.
pub fn starts_with(s: &str, prefix: &str) -> (r: bool)
    ensures
        r == prefix@.is_prefix_of(s@),
{
    let n = s.unicode_len();
    let m = prefix.unicode_len();
    if m > n {
        return false;
    }
    let mut k: usize = 0;
    while k < m
        invariant
            n == s@.len(),
            m == prefix@.len(),
            m <= n,
            forall|j: int| 0 <= j < k ==> prefix@[j] == s@[j],
        decreases m - k,
    {
        if s.get_char(k) != prefix.get_char(k) {
            return false;
        }
        k = k + 1;
    }
    true
}

/// Whether two strings hold the same text.
pub fn same_text(a: &str, b: &str) -> (r: bool)
    ensures
        r == (a@ == b@),
{
    String::from_str(a) == String::from_str(b)
}

/// `a` followed by `b`, as a new `String`.
pub fn joined(a: &str, b: &str) -> (r: String)
    ensures
        r@ == a@ + b@,
{
    let mut out = String::from_str(a);
    out.append(b);
    out
}

} // verus!
