//! Decimal numbers as the kernel and system tools print them.
use vstd::prelude::*;

verus! {

/// ASCII whitespace: space, tab, line feed, vertical tab, form feed, carriage return.
pub open spec fn is_space(c: u8) -> bool {
    c == 0x20u8 || (0x09u8 <= c && c <= 0x0du8)
}

pub open spec fn is_digit(c: u8) -> bool {
    0x30u8 <= c && c <= 0x39u8
}

pub open spec fn trim_start(s: Seq<u8>) -> Seq<u8>
    decreases s.len(),
{
    if s.len() > 0 && is_space(s[0]) {
        trim_start(s.drop_first())
    } else {
        s
    }
}

pub open spec fn trim_end(s: Seq<u8>) -> Seq<u8>
    decreases s.len(),
{
    if s.len() > 0 && is_space(s.last()) {
        trim_end(s.drop_last())
    } else {
        s
    }
}

pub open spec fn all_digits(s: Seq<u8>) -> bool {
    forall|i: int| 0 <= i < s.len() ==> is_digit(#[trigger] s[i])
}

/// The number written in decimal by the digits `s`.
pub open spec fn decimal_value(s: Seq<u8>) -> nat
    decreases s.len(),
{
    if s.len() == 0 {
        0
    } else {
        decimal_value(s.drop_last()) * 10 + (s.last() - 0x30u8) as nat
    }
}

/// The value of `s` read as a decimal number between optional whitespace,
/// when it is one and does not exceed `max`.
pub open spec fn spec_parse_decimal(s: Seq<u8>, max: nat) -> Option<nat> {
    let t = trim_end(trim_start(s));
    if t.len() > 0 && all_digits(t) && decimal_value(t) <= max {
        Some(decimal_value(t))
    } else {
        None
    }
}

proof fn lemma_decimal_prefix_le(t: Seq<u8>, k: int)
    requires
        all_digits(t),
        0 <= k <= t.len(),
    ensures
        decimal_value(t.subrange(0, k)) <= decimal_value(t),
    decreases t.len(),
{
    if k < t.len() {
        let d = t.drop_last();
        assert(d.subrange(0, k) =~= t.subrange(0, k));
        lemma_decimal_prefix_le(d, k);
    } else {
        assert(t.subrange(0, k) =~= t);
    }
}

/// Reads a decimal number surrounded by optional whitespace, refusing
/// anything else and any value above `max`.
pub fn parse_decimal(text: &[u8], max: u64) -> (r: Option<u64>)
    ensures
        r matches Some(v) ==> spec_parse_decimal(text@, max as nat) == Some(v as nat),
        r is None ==> spec_parse_decimal(text@, max as nat) is None,
{
    let n = text.len();
    let mut i: usize = 0;
    assert(text@.subrange(0, n as int) =~= text@);
    while i < n && (text[i] == 0x20u8 || (0x09u8 <= text[i] && text[i] <= 0x0du8))
        invariant
            i <= n == text@.len(),
            trim_start(text@) == trim_start(text@.subrange(i as int, n as int)),
        decreases n - i,
    {
        assert(text@.subrange(i as int, n as int).drop_first() =~= text@.subrange(i + 1, n as int));
        i = i + 1;
    }
    assert(trim_start(text@) == text@.subrange(i as int, n as int));
    let mut j: usize = n;
    while j > i && (text[j - 1] == 0x20u8 || (0x09u8 <= text[j - 1] && text[j - 1] <= 0x0du8))
        invariant
            i <= j <= n == text@.len(),
            trim_start(text@) == text@.subrange(i as int, n as int),
            trim_end(trim_start(text@)) == trim_end(text@.subrange(i as int, j as int)),
        decreases j,
    {
        assert(text@.subrange(i as int, j as int).drop_last() =~= text@.subrange(i as int, j - 1));
        j = j - 1;
    }
    let ghost t = text@.subrange(i as int, j as int);
    assert(trim_end(trim_start(text@)) == t);
    if i == j {
        return None;
    }
    let mut acc: u64 = 0;
    let mut k: usize = i;
    while k < j
        invariant
            i <= k <= j <= n == text@.len(),
            t == text@.subrange(i as int, j as int),
            trim_end(trim_start(text@)) == t,
            all_digits(text@.subrange(i as int, k as int)),
            acc as nat == decimal_value(text@.subrange(i as int, k as int)),
            acc <= max,
        decreases j - k,
    {
        let c = text[k];
        if c < 0x30u8 || c > 0x39u8 {
            assert(t[k - i] == text@[k as int]);
            assert(!is_digit(t[k - i]));
            return None;
        }
        let next: u128 = acc as u128 * 10 + (c - 0x30u8) as u128;
        let ghost p = text@.subrange(i as int, k + 1);
        assert(p.drop_last() =~= text@.subrange(i as int, k as int));
        assert(decimal_value(p) == next);
        if next > max as u128 {
            proof {
                if all_digits(t) {
                    assert(t.subrange(0, k + 1 - i) =~= p);
                    lemma_decimal_prefix_le(t, k + 1 - i);
                    assert(decimal_value(t) > max);
                }
                assert(spec_parse_decimal(text@, max as nat) is None);
            }
            return None;
        }
        acc = next as u64;
        k = k + 1;
    }
    assert(text@.subrange(i as int, k as int) =~= t);
    Some(acc)
}

/// The decimal digits of `n`, most significant first.
pub open spec fn decimal(n: nat) -> Seq<u8>
    decreases n,
{
    if n < 10 {
        seq![(0x30 + n) as u8]
    } else {
        decimal(n / 10) + seq![(0x30 + n % 10) as u8]
    }
}

/// Appends the decimal digits of `n` to `out`.
pub fn push_decimal(out: &mut Vec<u8>, n: u64)
    ensures
        final(out)@ == old(out)@ + decimal(n as nat),
    decreases n,
{
    if n >= 10 {
        push_decimal(out, n / 10);
    }
    out.push((0x30u64 + n % 10) as u8);
    assert(final(out)@ =~= old(out)@ + decimal(n as nat));
}

} // verus!
