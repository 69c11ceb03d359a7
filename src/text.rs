//! Plain-text rendering of integers and bitcoin amounts, and comparisons of
//! strings by their characters.
use vstd::prelude::*;

verus! {

/// Number of satoshis in one bitcoin.
pub const SATS_PER_BTC: u64 = 100_000_000;

/// Number of decimal places of an amount written in bitcoin.
pub const BTC_DECIMALS: u64 = 8;

/// The character of a decimal digit.
pub open spec fn digit_char(d: nat) -> char {
    if d == 0 {
        '0'
    } else if d == 1 {
        '1'
    } else if d == 2 {
        '2'
    } else if d == 3 {
        '3'
    } else if d == 4 {
        '4'
    } else if d == 5 {
        '5'
    } else if d == 6 {
        '6'
    } else if d == 7 {
        '7'
    } else if d == 8 {
        '8'
    } else {
        '9'
    }
}

/// The decimal digits of `n`, most significant first, without leading zeros.
pub open spec fn decimal(n: nat) -> Seq<char>
    decreases n,
{
    if n < 10 {
        seq![digit_char(n)]
    } else {
        decimal(n / 10).push(digit_char(n % 10))
    }
}

/// The lowest `k` decimal digits of `n`, padded with zeros to width `k`.
pub open spec fn padded(n: nat, k: nat) -> Seq<char>
    decreases k,
{
    if k == 0 {
        seq![]
    } else {
        padded(n / 10, (k - 1) as nat).push(digit_char(n % 10))
    }
}

/// The `k`-digit zero-padded form of `n` with its trailing zeros dropped.
pub open spec fn trimmed(n: nat, k: nat) -> Seq<char>
    decreases k,
{
    if k == 0 {
        seq![]
    } else if n % 10 == 0 {
        trimmed(n / 10, (k - 1) as nat)
    } else {
        padded(n, k)
    }
}

/// The sign of a written number: a minus for negative values, else nothing.
pub open spec fn sign_text(v: int) -> Seq<char> {
    if v < 0 {
        seq!['-']
    } else {
        seq![]
    }
}

/// The absolute value of `v`.
pub open spec fn magnitude(v: int) -> nat {
    if v < 0 {
        (-v) as nat
    } else {
        v as nat
    }
}

/// An integer written in decimal, with a leading minus when negative.
pub open spec fn int_text(v: int) -> Seq<char> {
    sign_text(v) + decimal(magnitude(v))
}

/// An amount of satoshis written in bitcoin: the whole part, then, only when
/// the amount is not whole, a point and the fractional digits without
/// trailing zeros (`2000000000` is `20`, `-1410` is `-0.0000141`).
pub open spec fn btc_text(sats: int) -> Seq<char> {
    let m = magnitude(sats);
    let whole = m / (SATS_PER_BTC as nat);
    let frac = m % (SATS_PER_BTC as nat);
    sign_text(sats) + decimal(whole) + if frac == 0 {
        Seq::<char>::empty()
    } else {
        seq!['.'] + trimmed(frac, BTC_DECIMALS as nat)
    }
}

/// Whether `needle` occurs in `hay` as a contiguous run of characters.
pub open spec fn occurs_in(needle: Seq<char>, hay: Seq<char>) -> bool {
    exists|i: int| 0 <= i && i + needle.len() <= hay.len() && #[trigger] hay.subrange(i, i + needle.len()) == needle
}

fn digit_str(d: u64) -> (r: &'static str)
    requires
        d < 10,
    ensures
        r@ == seq![digit_char(d as nat)],
{
    proof {
        reveal_strlit("0");
        reveal_strlit("1");
        reveal_strlit("2");
        reveal_strlit("3");
        reveal_strlit("4");
        reveal_strlit("5");
        reveal_strlit("6");
        reveal_strlit("7");
        reveal_strlit("8");
        reveal_strlit("9");
    }
    if d == 0 {
        "0"
    } else if d == 1 {
        "1"
    } else if d == 2 {
        "2"
    } else if d == 3 {
        "3"
    } else if d == 4 {
        "4"
    } else if d == 5 {
        "5"
    } else if d == 6 {
        "6"
    } else if d == 7 {
        "7"
    } else if d == 8 {
        "8"
    } else {
        "9"
    }
}

fn push_decimal(out: &mut String, n: u64)
    ensures
        final(out)@ == old(out)@ + decimal(n as nat),
    decreases n,
{
    if n >= 10 {
        push_decimal(out, n / 10);
    }
    out.append(digit_str(n % 10));
    assert(n >= 10 ==> decimal(n as nat) == decimal((n / 10) as nat).push(digit_char((n % 10) as nat)));
}

fn push_padded(out: &mut String, n: u64, k: u64)
    ensures
        final(out)@ == old(out)@ + padded(n as nat, k as nat),
    decreases k,
{
    if k > 0 {
        push_padded(out, n / 10, k - 1);
        out.append(digit_str(n % 10));
    }
}

fn magnitude_of(v: i64) -> (r: u64)
    ensures
        r as nat == magnitude(v as int),
{
    if v < 0 {
        (-(v as i128)) as u64
    } else {
        v as u64
    }
}

fn push_sign(out: &mut String, v: i64)
    ensures
        final(out)@ == old(out)@ + sign_text(v as int),
{
    proof {
        reveal_strlit("-");
    }
    if v < 0 {
        out.append("-");
    } else {
        assert(old(out)@ + sign_text(v as int) == old(out)@);
    }
}

/// Writes an integer in decimal, with a leading minus when negative.
pub fn render_int(v: i64) -> (r: String)
    ensures
        r@ == int_text(v as int),
{
    let mut out = String::new();
    push_sign(&mut out, v);
    push_decimal(&mut out, magnitude_of(v));
    assert(out@ == int_text(v as int));
    out
}

/// Writes an amount of satoshis in bitcoin: whole part, then the fractional
/// digits without trailing zeros, after a point, only when there are any.
pub fn render_btc(sats: i64) -> (r: String)
    ensures
        r@ == btc_text(sats as int),
{
    proof {
        reveal_strlit(".");
    }
    let m = magnitude_of(sats);
    let whole = m / SATS_PER_BTC;
    let frac = m % SATS_PER_BTC;
    let mut out = String::new();
    push_sign(&mut out, sats);
    push_decimal(&mut out, whole);
    let ghost head = out@;
    if frac != 0 {
        out.append(".");
        let mut f: u64 = frac;
        let mut k: u64 = BTC_DECIMALS;
        while k > 0 && f % 10 == 0
            invariant
                k <= BTC_DECIMALS,
                trimmed(f as nat, k as nat) == trimmed(frac as nat, BTC_DECIMALS as nat),
            decreases k,
        {
            f = f / 10;
            k = k - 1;
        }
        assert(trimmed(f as nat, k as nat) == padded(f as nat, k as nat));
        push_padded(&mut out, f, k);
        assert(out@ == head + (seq!['.'] + trimmed(frac as nat, BTC_DECIMALS as nat)));
    }
    assert(out@ == btc_text(sats as int));
    out
}

/// Whether two strings hold the same characters.
pub fn same_text(a: &str, b: &str) -> (r: bool)
    ensures
        r == (a@ == b@),
{
    let n = a.unicode_len();
    if n != b.unicode_len() {
        return false;
    }
    let mut i: usize = 0;
    while i < n
        invariant
            n == a@.len(),
            n == b@.len(),
            i <= n,
            a@.subrange(0, i as int) == b@.subrange(0, i as int),
        decreases n - i,
    {
        if a.get_char(i) != b.get_char(i) {
            return false;
        }
        assert(a@.subrange(0, i + 1) == a@.subrange(0, i as int).push(a@[i as int]));
        assert(b@.subrange(0, i + 1) == b@.subrange(0, i as int).push(b@[i as int]));
        i = i + 1;
    }
    assert(a@ == a@.subrange(0, n as int));
    assert(b@ == b@.subrange(0, n as int));
    true
}

/// Whether `needle` occurs in `hay` as a contiguous run of characters.
pub fn contains_text(hay: &str, needle: &str) -> (r: bool)
    ensures
        r == occurs_in(needle@, hay@),
{
    let h = hay.unicode_len();
    let n = needle.unicode_len();
    if n == 0 {
        assert(hay@.subrange(0int, 0int + needle@.len()) =~= needle@);
        return true;
    }
    if n > h {
        return false;
    }
    let mut i: usize = 0;
    while i <= h - n
        invariant
            h == hay@.len(),
            n == needle@.len(),
            1 <= n <= h,
            i <= h - n + 1,
            forall|j: int| 0 <= j < i ==> #[trigger] hay@.subrange(j, j + n) != needle@,
        decreases h - n + 1 - i,
    {
        let mut k: usize = 0;
        let mut same = true;
        while k < n
            invariant
                h == hay@.len(),
                n == needle@.len(),
                i + n <= h,
                k <= n,
                same <==> forall|t: int| 0 <= t < k ==> hay@[i + t] == needle@[t],
            decreases n - k,
        {
            if same && hay.get_char(i + k) != needle.get_char(k) {
                same = false;
            }
            k = k + 1;
        }
        if same {
            assert(hay@.subrange(i as int, i + n) =~= needle@);
            return true;
        }
        assert(hay@.subrange(i as int, i + n) != needle@) by {
            let t = choose|t: int| 0 <= t < n && hay@[i + t] != needle@[t];
            assert(hay@.subrange(i as int, i + n)[t] == hay@[i + t]);
        }
        i = i + 1;
    }
    assert forall|j: int| 0 <= j && j + needle@.len() <= hay@.len() implies #[trigger] hay@.subrange(j, j + needle@.len()) != needle@ by {
        assert(j < i);
    }
    false
}

}
