//! Decimal numbers and path segments, as text.

use vstd::prelude::*;

verus! {

/// The character of a decimal digit `d < 10`.
pub open spec fn digit_char(d: nat) -> char {
    if d == 0 { '0' }
    else if d == 1 { '1' }
    else if d == 2 { '2' }
    else if d == 3 { '3' }
    else if d == 4 { '4' }
    else if d == 5 { '5' }
    else if d == 6 { '6' }
    else if d == 7 { '7' }
    else if d == 8 { '8' }
    else { '9' }
}

/// The decimal notation of `n`, without leading zeros.
pub open spec fn decimal(n: nat) -> Seq<char>
    decreases n,
{
    if n < 10 {
        seq![digit_char(n)]
    } else {
        decimal(n / 10) + seq![digit_char(n % 10)]
    }
}

/// A path segment appended to a path: an absolute segment replaces the path,
/// and a separator is put between the two unless the path is empty or already
/// ends with one.
pub open spec fn join_path(base: Seq<char>, seg: Seq<char>) -> Seq<char> {
    if seg.len() > 0 && seg[0] == '/' {
        seg
    } else if base.len() == 0 || base.last() == '/' {
        base + seg
    } else {
        base + seq!['/'] + seg
    }
}

fn digit_str(d: usize) -> (r: &'static str)
    requires
        d < 10,
    ensures
        r@ == seq![digit_char(d as nat)],
{
    proof {
        reveal_strlit("0");
        reveal_strlit("1");
        reveal_strlit("2");
        reveal_strlit("3");
        reveal_strlit("4");
        reveal_strlit("5");
        reveal_strlit("6");
        reveal_strlit("7");
        reveal_strlit("8");
        reveal_strlit("9");
    }
    let r = if d == 0 { "0" }
    else if d == 1 { "1" }
    else if d == 2 { "2" }
    else if d == 3 { "3" }
    else if d == 4 { "4" }
    else if d == 5 { "5" }
    else if d == 6 { "6" }
    else if d == 7 { "7" }
    else if d == 8 { "8" }
    else { "9" };
    assert(r@ =~= seq![digit_char(d as nat)]);
    r
}

/// The decimal notation of `n`.
pub fn to_decimal(n: usize) -> (r: String)
    ensures
        r@ == decimal(n as nat),
{
    let mut s = String::from_str(digit_str(n % 10));
    let mut m: usize = n / 10;
    while m > 0
        invariant
            m > 0 ==> decimal(n as nat) == decimal(m as nat) + s@,
            m == 0 ==> decimal(n as nat) == s@,
        decreases m,
    {
        let mut t = String::from_str(digit_str(m % 10));
        t.append(s.as_str());
        proof {
            if m >= 10 {
                assert(decimal(m as nat) == decimal((m / 10) as nat) + seq![digit_char((m % 10) as nat)]);
                assert(decimal((m / 10) as nat) + seq![digit_char((m % 10) as nat)] + s@
                    =~= decimal((m / 10) as nat) + (seq![digit_char((m % 10) as nat)] + s@));
            } else {
                assert(m % 10 == m);
            }
        }
        s = t;
        m = m / 10;
    }
    s
}

/// A path segment appended to a path, as `join_path` states it.
pub fn join(base: &str, seg: &str) -> (r: String)
    ensures
        r@ == join_path(base@, seg@),
{
    let seg_len = seg.unicode_len();
    let base_len = base.unicode_len();
    if seg_len > 0 && seg.get_char(0) == '/' {
        String::from_str(seg)
    } else if base_len == 0 || base.get_char(base_len - 1) == '/' {
        let mut r = String::from_str(base);
        r.append(seg);
        r
    } else {
        let mut r = String::from_str(base);
        r.append("/");
        r.append(seg);
        proof {
            reveal_strlit("/");
        }
        assert(r@ =~= base@ + seq!['/'] + seg@);
        r
    }
}

} // verus!
