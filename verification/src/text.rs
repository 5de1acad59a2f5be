//! Character-level helpers shared by the parsers and renderers.

use vstd::prelude::*;

verus! {

/// ASCII lower-casing of one character; every other character is kept.
pub open spec fn lower_char(c: char) -> char {
    if 'A' <= c && c <= 'Z' {
        ((c as u32) + 32) as char
    } else {
        c
    }
}

/// ASCII upper-casing of one character; every other character is kept.
pub open spec fn upper_char(c: char) -> char {
    if 'a' <= c && c <= 'z' {
        ((c as u32) - 32) as char
    } else {
        c
    }
}

/// `str::to_ascii_lowercase` on a character sequence.
pub open spec fn ascii_lower(s: Seq<char>) -> Seq<char> {
    s.map_values(|c: char| lower_char(c))
}

/// `str::to_ascii_uppercase` on a character sequence.
pub open spec fn ascii_upper(s: Seq<char>) -> Seq<char> {
    s.map_values(|c: char| upper_char(c))
}

pub fn to_lower_char(c: char) -> (r: char)
    ensures
        r == lower_char(c),
{
    if 'A' <= c && c <= 'Z' {
        let b: u8 = (c as u32 + 32) as u8;
        b as char
    } else {
        c
    }
}

pub fn to_upper_char(c: char) -> (r: char)
    ensures
        r == upper_char(c),
{
    if 'a' <= c && c <= 'z' {
        let b: u8 = (c as u32 - 32) as u8;
        b as char
    } else {
        c
    }
}

/// Whether the ASCII lower-case form of `s` equals `target`.
pub fn lower_equals(s: &str, target: &str) -> (b: bool)
    ensures
        b == (ascii_lower(s@) == target@),
{
    let n = s.unicode_len();
    let m = target.unicode_len();
    if n != m {
        return false;
    }
    let mut i: usize = 0;
    while i < n
        invariant
            n == s@.len(),
            m == target@.len(),
            n == m,
            i <= n,
            forall|j: int| 0 <= j < i ==> lower_char(#[trigger] s@[j]) == target@[j],
        decreases n - i,
    {
        let c = s.get_char(i);
        let t = target.get_char(i);
        if to_lower_char(c) != t {
            assert(ascii_lower(s@)[i as int] != target@[i as int]);
            return false;
        }
        i = i + 1;
    }
    assert(ascii_lower(s@) =~= target@);
    true
}

/// Whether the ASCII upper-case form of `s` equals `target`.
pub fn upper_equals(s: &str, target: &str) -> (b: bool)
    ensures
        b == (ascii_upper(s@) == target@),
{
    let n = s.unicode_len();
    let m = target.unicode_len();
    if n != m {
        return false;
    }
    let mut i: usize = 0;
    while i < n
        invariant
            n == s@.len(),
            m == target@.len(),
            n == m,
            i <= n,
            forall|j: int| 0 <= j < i ==> upper_char(#[trigger] s@[j]) == target@[j],
        decreases n - i,
    {
        let c = s.get_char(i);
        let t = target.get_char(i);
        if to_upper_char(c) != t {
            assert(ascii_upper(s@)[i as int] != target@[i as int]);
            return false;
        }
        i = i + 1;
    }
    assert(ascii_upper(s@) =~= target@);
    true
}

/// Calls `String::push`. Claimed, as std documents it: the character is
/// appended at the end of the string.
#[verifier::external_body]
pub(crate) fn push_char(s: &mut String, c: char)
    ensures
        final(s)@ == old(s)@.push(c),
{
    s.push(c)
}

/// The character of a decimal digit.
pub open spec fn digit_char(d: nat) -> char {
    (48 + d) as char
}

/// The decimal representation of `n`, without leading zeros.
pub open spec fn decimal(n: nat) -> Seq<char>
    decreases n,
{
    if n < 10 {
        seq![digit_char(n)]
    } else {
        decimal(n / 10).push(digit_char(n % 10))
    }
}

fn digit_str(d: u64) -> (s: &'static str)
    requires
        d < 10,
    ensures
        s@ == seq![digit_char(d as nat)],
{
    proof {
        reveal_strlit("0");
        reveal_strlit("1");
        reveal_strlit("2");
        reveal_strlit("3");
        reveal_strlit("4");
        reveal_strlit("5");
        reveal_strlit("6");
        reveal_strlit("7");
        reveal_strlit("8");
        reveal_strlit("9");
    }
    let s = if d == 0 {
        "0"
    } else if d == 1 {
        "1"
    } else if d == 2 {
        "2"
    } else if d == 3 {
        "3"
    } else if d == 4 {
        "4"
    } else if d == 5 {
        "5"
    } else if d == 6 {
        "6"
    } else if d == 7 {
        "7"
    } else if d == 8 {
        "8"
    } else {
        "9"
    };
    assert(s@ =~= seq![digit_char(d as nat)]);
    s
}

/// `n` written in decimal, as `format!("{}", n)` does.
pub fn decimal_string(n: u64) -> (s: String)
    ensures
        s@ == decimal(n as nat),
    decreases n,
{
    if n < 10 {
        String::from_str(digit_str(n))
    } else {
        let mut s = decimal_string(n / 10);
        s.append(digit_str(n % 10));
        s
    }
}


/// Whether `w` occurs in `s` as a contiguous piece.
pub open spec fn has_infix(s: Seq<char>, w: Seq<char>) -> bool {
    exists|k: int| 0 <= k && k + w.len() <= s.len() && #[trigger] s.subrange(k, k + w.len()) == w
}

/// Whether `s` ends with `u`.
pub open spec fn ends_with(s: Seq<char>, u: Seq<char>) -> bool {
    u.len() <= s.len() && s.subrange(s.len() - u.len(), s.len() as int) == u
}

/// Whether `s` starts with `v`.
pub open spec fn starts_with(s: Seq<char>, v: Seq<char>) -> bool {
    v.len() <= s.len() && s.subrange(0, v.len() as int) == v
}

/// A text holds itself.
pub proof fn lemma_infix_self(w: Seq<char>)
    ensures
        has_infix(w, w),
{
    let k: int = 0;
    assert(w.subrange(k, k + w.len()) =~= w);
}

/// A piece of `a` is a piece of `a + b`.
pub broadcast proof fn lemma_infix_left(a: Seq<char>, b: Seq<char>, w: Seq<char>)
    requires
        has_infix(a, w),
    ensures
        #[trigger] has_infix(a + b, w),
{
    let k = choose|k: int| 0 <= k && k + w.len() <= a.len() && #[trigger] a.subrange(k, k + w.len()) == w;
    assert((a + b).subrange(k, k + w.len()) =~= a.subrange(k, k + w.len()));
}

/// A piece of `b` is a piece of `a + b`.
pub broadcast proof fn lemma_infix_right(a: Seq<char>, b: Seq<char>, w: Seq<char>)
    requires
        has_infix(b, w),
    ensures
        #[trigger] has_infix(a + b, w),
{
    let k = choose|k: int| 0 <= k && k + w.len() <= b.len() && #[trigger] b.subrange(k, k + w.len()) == w;
    assert((a + b).subrange(a.len() + k, a.len() + k + w.len()) =~= b.subrange(k, k + w.len()));
}

/// Where `a` ends with `u` and `c` starts with `v`, `a + x + c` holds
/// `u + x + v`.
pub proof fn lemma_infix_across(a: Seq<char>, x: Seq<char>, c: Seq<char>, u: Seq<char>, v: Seq<char>)
    requires
        ends_with(a, u),
        starts_with(c, v),
    ensures
        has_infix(a + x + c, u + x + v),
{
    let k = a.len() - u.len();
    let w = u + x + v;
    assert((a + x + c).subrange(k, k + w.len()) =~= w);
}

/// `a + b` ends with what `b` ends with.
pub proof fn lemma_ends_with_append(a: Seq<char>, b: Seq<char>, u: Seq<char>)
    requires
        ends_with(b, u),
    ensures
        ends_with(a + b, u),
{
    assert((a + b).subrange((a + b).len() - u.len(), (a + b).len() as int) =~= b.subrange(
        b.len() - u.len(),
        b.len() as int,
    ));
}


/// `a + b` ends with what `b` ends with.
pub broadcast proof fn lemma_ends_with_concat(a: Seq<char>, b: Seq<char>, u: Seq<char>)
    requires
        ends_with(b, u),
    ensures
        #[trigger] ends_with(a + b, u),
{
    lemma_ends_with_append(a, b, u);
}

/// A value written between a text that ends with `u` and one that starts
/// with `v` stands in the whole as `u + x + v`.
pub broadcast proof fn lemma_infix_between(a: Seq<char>, x: Seq<char>, c: Seq<char>, u: Seq<char>, v: Seq<char>)
    requires
        ends_with(a, u),
        starts_with(c, v),
    ensures
        #[trigger] has_infix(a + x + c, u + x + v),
{
    lemma_infix_across(a, x, c, u, v);
}

} // verus!
