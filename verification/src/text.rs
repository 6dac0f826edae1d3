//! Verified text helpers: decimal rendering and parsing, zero padding,
//! file-extension extraction, and query-string assembly.

use vstd::prelude::*;

verus! {

/// The character for a single decimal digit.
pub open spec fn digit_char(d: int) -> char {
    if d == 0 {
        '0'
    } else if d == 1 {
        '1'
    } else if d == 2 {
        '2'
    } else if d == 3 {
        '3'
    } else if d == 4 {
        '4'
    } else if d == 5 {
        '5'
    } else if d == 6 {
        '6'
    } else if d == 7 {
        '7'
    } else if d == 8 {
        '8'
    } else {
        '9'
    }
}

/// Decimal rendering of a natural number, most significant digit first.
pub open spec fn dec_str(n: nat) -> Seq<char>
    decreases n,
{
    if n < 10 {
        seq![digit_char(n as int)]
    } else {
        dec_str(n / 10).push(digit_char((n % 10) as int))
    }
}

/// One-character string slice for a digit.
fn digit_str(d: u64) -> (s: &'static str)
    requires
        d < 10,
    ensures
        s@ == seq![digit_char(d as int)],
{
    proof {
        reveal_strlit("0");
        reveal_strlit("1");
        reveal_strlit("2");
        reveal_strlit("3");
        reveal_strlit("4");
        reveal_strlit("5");
        reveal_strlit("6");
        reveal_strlit("7");
        reveal_strlit("8");
        reveal_strlit("9");
    }
    if d == 0 {
        "0"
    } else if d == 1 {
        "1"
    } else if d == 2 {
        "2"
    } else if d == 3 {
        "3"
    } else if d == 4 {
        "4"
    } else if d == 5 {
        "5"
    } else if d == 6 {
        "6"
    } else if d == 7 {
        "7"
    } else if d == 8 {
        "8"
    } else {
        "9"
    }
}

/// Character-by-character string equality.
pub fn str_eq(a: &str, b: &str) -> (r: bool)
    ensures
        r == (a@ == b@),
{
    let n = a.unicode_len();
    if n != b.unicode_len() {
        return false;
    }
    for i in 0..n
        invariant
            n == a@.len(),
            n == b@.len(),
            forall|j: int| 0 <= j < i ==> a@[j] == b@[j],
    {
        if a.get_char(i) != b.get_char(i) {
            return false;
        }
    }
    proof {
        assert(a@ =~= b@);
    }
    true
}

/// Renders a number as its decimal digits.
pub fn u64_to_string(n: u64) -> (s: String)
    ensures
        s@ == dec_str(n as nat),
    decreases n,
{
    if n < 10 {
        String::from_str(digit_str(n))
    } else {
        let mut s = u64_to_string(n / 10);
        s.append(digit_str(n % 10));
        s
    }
}

/// A decimal digit.
pub open spec fn is_digit(c: char) -> bool {
    '0' <= c && c <= '9'
}

/// The value of one decimal digit.
pub open spec fn digit_val(c: char) -> int {
    c as int - '0' as int
}

/// Every character is a decimal digit.
pub open spec fn all_digits(s: Seq<char>) -> bool {
    forall|i: int| 0 <= i < s.len() ==> is_digit(s[i])
}

/// The number written by a digit string, most significant digit first.
pub open spec fn dec_value(s: Seq<char>) -> int
    decreases s.len(),
{
    if s.len() == 0 {
        0
    } else {
        dec_value(s.drop_last()) * 10 + digit_val(s.last())
    }
}

proof fn lemma_dec_value_nonneg(s: Seq<char>)
    requires
        all_digits(s),
    ensures
        dec_value(s) >= 0,
    decreases s.len(),
{
    if s.len() > 0 {
        assert(all_digits(s.drop_last()));
        lemma_dec_value_nonneg(s.drop_last());
    }
}

proof fn lemma_dec_value_prefix_le(s: Seq<char>, i: int)
    requires
        0 <= i <= s.len(),
        all_digits(s),
    ensures
        dec_value(s.subrange(0, i)) <= dec_value(s),
    decreases s.len() - i,
{
    if i < s.len() {
        let p = s.subrange(0, i);
        let q = s.subrange(0, i + 1);
        assert(q.drop_last() =~= p);
        assert(all_digits(p));
        lemma_dec_value_nonneg(p);
        assert(dec_value(q) == dec_value(p) * 10 + digit_val(q.last()));
        lemma_dec_value_prefix_le(s, i + 1);
    } else {
        assert(s.subrange(0, i) =~= s);
    }
}

/// Reads a decimal number, rejecting empty or non-digit text and values
/// beyond `u32::MAX`.
pub fn parse_u32(s: &str) -> (r: Option<u32>)
    ensures
        match r {
            Some(n) => s@.len() > 0 && all_digits(s@) && n == dec_value(s@),
            None => s@.len() == 0 || !all_digits(s@) || dec_value(s@) > u32::MAX,
        },
{
    let n = s.unicode_len();
    if n == 0 {
        return None;
    }
    let mut acc: u32 = 0;
    proof {
        assert(s@.subrange(0, 0) =~= Seq::<char>::empty());
    }
    for i in 0..n
        invariant
            n == s@.len(),
            all_digits(s@.subrange(0, i as int)),
            acc == dec_value(s@.subrange(0, i as int)),
    {
        let c = s.get_char(i);
        if !('0' <= c && c <= '9') {
            return None;
        }
        let d: u32 = (c as u32) - 48;
        let wide: u64 = (acc as u64) * 10 + (d as u64);
        proof {
            assert(s@.subrange(0, i + 1).drop_last() =~= s@.subrange(0, i as int));
            assert(c as int - '0' as int == d as int) by {
                reveal_strlit("0");
            }
        }
        if wide > 0xffff_ffffu64 {
            proof {
                if all_digits(s@) {
                    lemma_dec_value_prefix_le(s@, i + 1);
                }
            }
            return None;
        }
        acc = wide as u32;
    }
    proof {
        assert(s@.subrange(0, n as int) =~= s@);
    }
    Some(acc)
}

/// A run of `k` zero characters.
pub open spec fn zeros(k: nat) -> Seq<char>
    decreases k,
{
    if k == 0 {
        Seq::empty()
    } else {
        zeros((k - 1) as nat).push('0')
    }
}

/// A number rendered in decimal and left-padded with zeros to at least
/// four characters, the shape of the per-post directory names.
pub open spec fn pad4_str(n: nat) -> Seq<char> {
    if dec_str(n).len() >= 4 {
        dec_str(n)
    } else {
        zeros((4 - dec_str(n).len()) as nat) + dec_str(n)
    }
}

/// Renders a number zero-padded to four characters.
pub fn pad4(n: u64) -> (s: String)
    ensures
        s@ == pad4_str(n as nat),
{
    let digits = u64_to_string(n);
    let len = digits.as_str().unicode_len();
    let mut out = String::new();
    let pad: usize = if len >= 4 {
        0
    } else {
        4 - len
    };
    proof {
        reveal_strlit("0");
    }
    for k in 0..pad
        invariant
            out@ =~= zeros(k as nat),
    {
        out.append("0");
        proof {
            assert("0"@ =~= seq!['0']) by {
                reveal_strlit("0");
            }
        }
    }
    out.append(digits.as_str());
    proof {
        assert(out@ =~= pad4_str(n as nat));
    }
    out
}

/// The query part of an address: `key=value` pairs joined with `&`.
pub open spec fn query_string(params: Seq<(Seq<char>, Seq<char>)>) -> Seq<char>
    decreases params.len(),
{
    if params.len() == 0 {
        Seq::empty()
    } else if params.len() == 1 {
        params[0].0 + seq!['='] + params[0].1
    } else {
        query_string(params.drop_last()) + seq!['&'] + params.last().0 + seq!['=']
            + params.last().1
    }
}

/// Joins `key=value` pairs with `&`, in the order given.
pub fn join_query(params: &Vec<(String, String)>) -> (s: String)
    ensures
        s@ == query_string(params@.map_values(|p: (String, String)| (p.0@, p.1@))),
{
    let ghost ps = params@.map_values(|p: (String, String)| (p.0@, p.1@));
    let mut out = String::new();
    let n = params.len();
    proof {
        reveal_strlit("=");
        reveal_strlit("&");
    }
    for i in 0..n
        invariant
            n == params.len(),
            ps == params@.map_values(|p: (String, String)| (p.0@, p.1@)),
            ps.len() == n,
            out@ =~= query_string(ps.subrange(0, i as int)),
    {
        if i > 0 {
            out.append("&");
        }
        out.append(params[i].0.as_str());
        out.append("=");
        out.append(params[i].1.as_str());
        proof {
            reveal_strlit("=");
            reveal_strlit("&");
            let q = ps.subrange(0, i + 1);
            assert(q.drop_last() =~= ps.subrange(0, i as int));
            assert(q.last() == ps[i as int]);
            assert(out@ =~= query_string(q));
        }
    }
    proof {
        assert(ps.subrange(0, n as int) =~= ps);
    }
    out
}

/// The file extension a source address carries: the text after the last
/// dot, or the whole text when there is no dot.
pub open spec fn ext_of(s: Seq<char>) -> Seq<char>
    decreases s.len(),
{
    if s.len() == 0 {
        s
    } else if s.last() == '.' {
        Seq::empty()
    } else {
        ext_of(s.drop_last()).push(s.last())
    }
}

/// Extracts the extension part of an address, as `ext_of` names it.
pub fn extension_of(s: &str) -> (r: String)
    ensures
        r@ == ext_of(s@),
{
    let n = s.unicode_len();
    let mut start: usize = 0;
    for i in 0..n
        invariant
            n == s@.len(),
            start <= i,
            ext_of(s@.subrange(0, i as int)) == s@.subrange(start as int, i as int),
    {
        let c = s.get_char(i);
        proof {
            let p = s@.subrange(0, i + 1);
            assert(p.drop_last() =~= s@.subrange(0, i as int));
            if c == '.' {
                assert(ext_of(p) =~= s@.subrange(i + 1, i + 1));
            } else {
                assert(ext_of(p) =~= s@.subrange(start as int, i as int).push(c));
                assert(s@.subrange(start as int, i as int).push(c) =~= s@.subrange(
                    start as int,
                    i + 1,
                ));
            }
        }
        if c == '.' {
            start = i + 1;
        }
    }
    proof {
        assert(s@.subrange(0, n as int) =~= s@);
    }
    String::from_str(s.substring_char(start, n))
}

} // verus!
