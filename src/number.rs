//! Decimal digits: reading an unsigned number from them and writing one as them.
use vstd::prelude::*;

use crate::text::push_char;

verus! {

pub open spec fn is_digit(c: char) -> bool {
    '0' <= c && c <= '9'
}

pub open spec fn digit_value(c: char) -> nat {
    (c as u32 - '0' as u32) as nat
}

pub open spec fn digit_char(d: nat) -> char
    recommends
        d < 10,
{
    if d == 0 {
        '0'
    } else if d == 1 {
        '1'
    } else if d == 2 {
        '2'
    } else if d == 3 {
        '3'
    } else if d == 4 {
        '4'
    } else if d == 5 {
        '5'
    } else if d == 6 {
        '6'
    } else if d == 7 {
        '7'
    } else if d == 8 {
        '8'
    } else {
        '9'
    }
}

/// Whether `s` is a non-empty run of ASCII decimal digits.
pub open spec fn all_digits(s: Seq<char>) -> bool {
    s.len() > 0 && forall|i: int| 0 <= i < s.len() ==> is_digit(#[trigger] s[i])
}

/// The number that the decimal digits of `s` spell.
pub open spec fn decimal_value(s: Seq<char>) -> nat
    decreases s.len(),
{
    if s.len() == 0 {
        0
    } else {
        decimal_value(s.drop_last()) * 10 + digit_value(s.last())
    }
}

/// The decimal digits of `n`, without leading zeros.
pub open spec fn decimal_digits(n: nat) -> Seq<char>
    decreases n,
{
    if n < 10 {
        seq![digit_char(n)]
    } else {
        decimal_digits(n / 10).push(digit_char(n % 10))
    }
}

/// The decimal digits of `n`, with a leading zero where there would be only one.
pub open spec fn two_digits(n: nat) -> Seq<char> {
    if n < 10 {
        seq!['0', digit_char(n)]
    } else {
        decimal_digits(n)
    }
}

/// Reads a run of ASCII decimal digits as a `u32`; none for any other text or a number too large.
pub fn parse_u32(s: &str) -> (r: Option<u32>)
    ensures
        r is Some <==> all_digits(s@) && decimal_value(s@) <= u32::MAX,
        r is Some ==> r->0 == decimal_value(s@),
{
    let n = s.unicode_len();
    if n == 0 {
        return None;
    }
    let mut v: u32 = 0;
    let mut i: usize = 0;
    while i < n
        invariant
            n == s@.len(),
            0 <= i <= n,
            forall|k: int| 0 <= k < i ==> is_digit(#[trigger] s@[k]),
            v == decimal_value(s@.subrange(0, i as int)),
        decreases n - i,
    {
        let c = s.get_char(i);
        if !('0' <= c && c <= '9') {
            return None;
        }
        let d = (c as u32) - ('0' as u32);
        proof {
            let pre = s@.subrange(0, i as int + 1);
            assert(pre.drop_last() =~= s@.subrange(0, i as int));
            assert(decimal_value(pre) == v * 10 + d);
        }
        if v > 429496729 || (v == 429496729 && d > 5) {
            proof {
                lemma_prefix_bound(s@, i as int + 1);
            }
            return None;
        }
        v = v * 10 + d;
        i = i + 1;
    }
    proof {
        assert(s@.subrange(0, n as int) =~= s@);
    }
    Some(v)
}

/// A longer run of digits never spells a smaller number than its prefix.
proof fn lemma_prefix_bound(s: Seq<char>, k: int)
    requires
        0 <= k <= s.len(),
    ensures
        decimal_value(s.subrange(0, k)) <= decimal_value(s),
    decreases s.len() - k,
{
    if k < s.len() {
        lemma_prefix_bound(s, k + 1);
        let pre = s.subrange(0, k + 1);
        assert(pre.drop_last() =~= s.subrange(0, k));
        assert(decimal_value(pre) == decimal_value(s.subrange(0, k)) * 10 + digit_value(pre.last()));
    } else {
        assert(s.subrange(0, k) =~= s);
    }
}

/// The decimal digits of a number, as `Display` writes them.
pub fn decimal_string(n: u64) -> (r: String)
    ensures
        r@ == decimal_digits(n as nat),
{
    let mut rev: Vec<char> = Vec::new();
    let mut q: u64 = n;
    let ghost mut suffix: Seq<char> = Seq::empty();
    while q >= 10
        invariant
            decimal_digits(n as nat) == decimal_digits(q as nat) + suffix,
            rev@.len() == suffix.len(),
            forall|k: int| 0 <= k < suffix.len() ==> rev@[k] == #[trigger] suffix[suffix.len() - 1 - k],
        decreases q,
    {
        let d = q % 10;
        let c = digit_of(d);
        proof {
            assert(decimal_digits(q as nat) == decimal_digits((q / 10) as nat).push(c));
            assert(decimal_digits(q as nat) + suffix =~= decimal_digits((q / 10) as nat) + (seq![c] + suffix));
            let old_suffix = suffix;
            suffix = seq![c] + suffix;
            assert forall|k: int| 0 <= k < suffix.len() implies rev@.push(c)[k] == #[trigger] suffix[suffix.len() - 1 - k] by {
                if k < old_suffix.len() {
                    assert(rev@[k] == old_suffix[old_suffix.len() - 1 - k]);
                }
            }
        }
        rev.push(c);
        q = q / 10;
    }
    let mut r = String::new();
    push_char(&mut r, digit_of(q));
    let mut i: usize = rev.len();
    while i > 0
        invariant
            0 <= i <= rev@.len(),
            rev@.len() == suffix.len(),
            forall|k: int| 0 <= k < suffix.len() ==> rev@[k] == #[trigger] suffix[suffix.len() - 1 - k],
            r@ == decimal_digits(q as nat) + suffix.subrange(0, rev@.len() - i),
        decreases i,
    {
        i = i - 1;
        proof {
            assert(rev@[i as int] == suffix[suffix.len() - 1 - i]);
            assert(suffix.subrange(0, rev@.len() - i) =~= suffix.subrange(0, rev@.len() - i - 1).push(
                rev@[i as int],
            ));
        }
        push_char(&mut r, rev[i]);
    }
    proof {
        assert(suffix.subrange(0, rev@.len() as int) =~= suffix);
    }
    r
}

/// The decimal digits of a `u32`, padded with a zero to at least two.
pub fn two_digit_string(n: u32) -> (r: String)
    ensures
        r@ == two_digits(n as nat),
{
    if n < 10 {
        let mut r = String::new();
        push_char(&mut r, '0');
        push_char(&mut r, digit_of(n as u64));
        proof {
            assert(r@ =~= seq!['0', digit_char(n as nat)]);
        }
        r
    } else {
        decimal_string(n as u64)
    }
}

fn digit_of(d: u64) -> (c: char)
    requires
        d < 10,
    ensures
        c == digit_char(d as nat),
{
    if d == 0 {
        '0'
    } else if d == 1 {
        '1'
    } else if d == 2 {
        '2'
    } else if d == 3 {
        '3'
    } else if d == 4 {
        '4'
    } else if d == 5 {
        '5'
    } else if d == 6 {
        '6'
    } else if d == 7 {
        '7'
    } else if d == 8 {
        '8'
    } else {
        '9'
    }
}

} // verus!
