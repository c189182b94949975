//! Decimal parsing in the manner of `str::parse::<u32>`, zero-padded decimal
//! rendering in the manner of `format!("{:03}", n)`, and lowercase hex.
use vstd::prelude::*;

verus! {

pub open spec fn is_digit(c: char) -> bool {
    '0' <= c && c <= '9'
}

pub open spec fn all_digits(ds: Seq<char>) -> bool {
    forall|i: int| 0 <= i < ds.len() ==> is_digit(#[trigger] ds[i])
}

pub open spec fn digit_value(c: char) -> int {
    (c as int) - ('0' as int)
}

/// The number that a string of decimal digits denotes.
pub open spec fn decimal_value(ds: Seq<char>) -> int
    decreases ds.len(),
{
    if ds.len() == 0 {
        0
    } else {
        decimal_value(ds.drop_last()) * 10 + digit_value(ds.last())
    }
}

/// What `str::parse::<u32>` gives: an optional `+`, then one or more ASCII
/// digits whose value fits in a `u32`.
pub open spec fn parse_u32_spec(s: Seq<char>) -> Option<u32> {
    let ds = if s.len() >= 2 && s[0] == '+' {
        s.drop_first()
    } else {
        s
    };
    if ds.len() > 0 && all_digits(ds) && decimal_value(ds) <= u32::MAX {
        Some(decimal_value(ds) as u32)
    } else {
        None
    }
}

pub proof fn lemma_decimal_value_nonneg(ds: Seq<char>)
    requires
        all_digits(ds),
    ensures
        decimal_value(ds) >= 0,
    decreases ds.len(),
{
    if ds.len() > 0 {
        lemma_decimal_value_nonneg(ds.drop_last());
        assert(is_digit(ds[ds.len() - 1]));
    }
}

fn digit_of(c: char) -> (d: u64)
    requires
        is_digit(c),
    ensures
        d == digit_value(c),
        d < 10,
{
    if c == '0' {
        0
    } else if c == '1' {
        1
    } else if c == '2' {
        2
    } else if c == '3' {
        3
    } else if c == '4' {
        4
    } else if c == '5' {
        5
    } else if c == '6' {
        6
    } else if c == '7' {
        7
    } else if c == '8' {
        8
    } else {
        9
    }
}

/// `str::parse::<u32>` on characters.
pub fn parse_u32(s: &Vec<char>) -> (r: Option<u32>)
    ensures
        r == parse_u32_spec(s@),
{
    let start: usize = if s.len() >= 2 && s[0] == '+' {
        1
    } else {
        0
    };
    let ghost ds = if s@.len() >= 2 && s@[0] == '+' {
        s@.drop_first()
    } else {
        s@
    };
    assert(ds =~= s@.subrange(start as int, s@.len() as int));
    if start == s.len() {
        return None;
    }
    let mut acc: u64 = 0;
    let mut i: usize = start;
    while i < s.len()
        invariant
            start <= i <= s.len(),
            ds == s@.subrange(start as int, s@.len() as int),
            ds == (if s@.len() >= 2 && s@[0] == '+' {
                s@.drop_first()
            } else {
                s@
            }),
            ds.len() > 0,
            all_digits(ds.take(i - start)),
            acc == decimal_value(ds.take(i - start)),
            acc <= u32::MAX,
        decreases s.len() - i,
    {
        let c = s[i];
        if !('0' <= c && c <= '9') {
            assert(ds[i - start] == c);
            assert(!is_digit(ds[i - start]));
            return None;
        }
        let d = digit_of(c);
        let ghost t = ds.take(i - start + 1);
        assert(t.drop_last() =~= ds.take(i - start));
        assert(t.last() == c);
        let next: u64 = acc * 10 + d;
        if next > 4294967295 {
            proof {
                // every further digit keeps the value at least this large
                lemma_prefix_value_bound(ds, (i - start + 1) as int);
            }
            return None;
        }
        acc = next;
        i = i + 1;
    }
    assert(ds.take(i - start) =~= ds);
    Some(acc as u32)
}

/// A longer all-digit string never has a smaller value than its prefixes.
proof fn lemma_prefix_value_bound(ds: Seq<char>, k: int)
    requires
        0 <= k <= ds.len(),
    ensures
        all_digits(ds) ==> decimal_value(ds) >= decimal_value(ds.take(k)),
    decreases ds.len() - k,
{
    if all_digits(ds) && k < ds.len() {
        lemma_prefix_value_bound(ds, k + 1);
        let t = ds.take(k + 1);
        assert(t.drop_last() =~= ds.take(k));
        assert(is_digit(ds[k]));
        assert(all_digits(ds.take(k)));
        lemma_decimal_value_nonneg(ds.take(k));
        assert(decimal_value(t) >= decimal_value(ds.take(k))) by (nonlinear_arith)
            requires
                decimal_value(t) == decimal_value(ds.take(k)) * 10 + digit_value(ds[k]),
                decimal_value(ds.take(k)) >= 0,
                digit_value(ds[k]) >= 0,
        ;
    } else if k == ds.len() {
        assert(ds.take(k) =~= ds);
    }
}

/// The digit character for `d < 10`.
pub open spec fn digit_char(d: int) -> char {
    if d == 0 {
        '0'
    } else if d == 1 {
        '1'
    } else if d == 2 {
        '2'
    } else if d == 3 {
        '3'
    } else if d == 4 {
        '4'
    } else if d == 5 {
        '5'
    } else if d == 6 {
        '6'
    } else if d == 7 {
        '7'
    } else if d == 8 {
        '8'
    } else {
        '9'
    }
}

fn digit_to_char(d: u32) -> (c: char)
    requires
        d < 10,
    ensures
        c == digit_char(d as int),
        is_digit(c),
        digit_value(c) == d,
{
    if d == 0 {
        '0'
    } else if d == 1 {
        '1'
    } else if d == 2 {
        '2'
    } else if d == 3 {
        '3'
    } else if d == 4 {
        '4'
    } else if d == 5 {
        '5'
    } else if d == 6 {
        '6'
    } else if d == 7 {
        '7'
    } else if d == 8 {
        '8'
    } else {
        '9'
    }
}

proof fn lemma_digit_char(d: int)
    requires
        0 <= d < 10,
    ensures
        is_digit(digit_char(d)),
        digit_value(digit_char(d)) == d,
{
}

/// The decimal digits of `n`, most significant first, without leading zeros.
pub open spec fn decimal_digits(n: nat) -> Seq<char>
    decreases n,
{
    if n < 10 {
        seq![digit_char(n as int)]
    } else {
        decimal_digits(n / 10).push(digit_char((n % 10) as int))
    }
}

/// `s` padded on the left with `'0'` up to width `w`.
pub open spec fn zero_pad(s: Seq<char>, w: nat) -> Seq<char> {
    if s.len() < w {
        Seq::new((w - s.len()) as nat, |i: int| '0') + s
    } else {
        s
    }
}

/// What `format!("{:0w$}", n)` writes for an unsigned `n`.
pub open spec fn padded_decimal(n: nat, w: nat) -> Seq<char> {
    zero_pad(decimal_digits(n), w)
}

pub proof fn lemma_decimal_digits(n: nat)
    ensures
        all_digits(decimal_digits(n)),
        decimal_value(decimal_digits(n)) == n,
        decimal_digits(n).len() >= 1,
    decreases n,
{
    if n >= 10 {
        lemma_decimal_digits(n / 10);
        let s = decimal_digits(n);
        assert(s.drop_last() =~= decimal_digits(n / 10));
        lemma_digit_char((n % 10) as int);
        assert(s.last() == digit_char((n % 10) as int));
        assert(decimal_value(s) == decimal_value(s.drop_last()) * 10 + digit_value(s.last()));
        assert(n == (n / 10) * 10 + n % 10);
        assert forall|i: int| 0 <= i < s.len() implies is_digit(#[trigger] s[i]) by {
            if i < s.len() - 1 {
                assert(s[i] == decimal_digits(n / 10)[i]);
            }
        }
    } else {
        lemma_digit_char(n as int);
        let s = decimal_digits(n);
        assert(s.drop_last() =~= Seq::<char>::empty());
        assert(decimal_value(s) == decimal_value(s.drop_last()) * 10 + digit_value(s.last()));
    }
}

proof fn lemma_zeros_value(z: Seq<char>)
    requires
        forall|i: int| 0 <= i < z.len() ==> #[trigger] z[i] == '0',
    ensures
        decimal_value(z) == 0,
    decreases z.len(),
{
    if z.len() > 0 {
        lemma_zeros_value(z.drop_last());
    }
}

proof fn lemma_zeros_prefix_value(z: Seq<char>, s: Seq<char>)
    requires
        forall|i: int| 0 <= i < z.len() ==> #[trigger] z[i] == '0',
    ensures
        decimal_value(z + s) == decimal_value(s),
    decreases s.len(),
{
    if s.len() == 0 {
        assert(z + s =~= z);
        lemma_zeros_value(z);
    } else {
        lemma_zeros_prefix_value(z, s.drop_last());
        assert((z + s).drop_last() =~= z + s.drop_last());
    }
}

/// Parsing a zero-padded rendering gives the number back.
pub proof fn lemma_parse_padded(n: u32, w: nat)
    ensures
        parse_u32_spec(padded_decimal(n as nat, w)) == Some(n),
        all_digits(padded_decimal(n as nat, w)),
        padded_decimal(n as nat, w).len() >= 1,
{
    lemma_decimal_digits(n as nat);
    let s = decimal_digits(n as nat);
    let p = padded_decimal(n as nat, w);
    if s.len() < w {
        let z = Seq::new((w - s.len()) as nat, |i: int| '0');
        lemma_zeros_prefix_value(z, s);
        assert(p == z + s);
        assert forall|i: int| 0 <= i < p.len() implies is_digit(#[trigger] p[i]) by {
            if i < z.len() {
                assert(p[i] == '0');
            } else {
                assert(p[i] == s[i - z.len()]);
            }
        }
    }
    assert(p[0] != '+');
}

/// Digit characters of `n` from the least significant end.
fn push_digits_rev(n: u32) -> (v: Vec<char>)
    ensures
        v@.reverse() == decimal_digits(n as nat),
{
    let mut v: Vec<char> = Vec::new();
    let mut m: u32 = n;
    proof {
        lemma_decimal_digits(n as nat);
    }
    loop
        invariant
            m <= n,
            m >= 1 || v@.len() == 0 || true,
            decimal_digits(n as nat) == (if v@.len() == 0 {
                decimal_digits(m as nat)
            } else {
                decimal_digits(m as nat) + v@.reverse()
            }),
            v@.len() == 0 || m >= 1,
            v@.len() == 0 ==> m == n,
        decreases m,
    {
        let d: u32 = m % 10;
        let c = digit_to_char(d);
        if m < 10 {
            let ghost old_v = v@;
            v.push(c);
            proof {
                assert(decimal_digits(m as nat) =~= seq![c]);
                assert(v@.reverse() =~= seq![c] + old_v.reverse());
                if old_v.len() == 0 {
                    assert(seq![c] + old_v.reverse() =~= seq![c]);
                }
            }
            return v;
        }
        proof {
            let old_v = v@;
            assert(decimal_digits(m as nat) == decimal_digits((m / 10) as nat).push(c));
            assert(old_v.push(c).reverse() =~= seq![c] + old_v.reverse());
            if old_v.len() == 0 {
                assert(decimal_digits((m / 10) as nat).push(c) =~= decimal_digits(
                    (m / 10) as nat,
                ) + old_v.push(c).reverse());
            } else {
                assert(decimal_digits((m / 10) as nat).push(c) + old_v.reverse()
                    =~= decimal_digits((m / 10) as nat) + old_v.push(c).reverse());
            }
        }
        v.push(c);
        m = m / 10;
    }
}

/// `format!("{:0w$}", n)`: `n` in decimal, padded on the left with zeros to
/// width `w`.
pub fn format_padded(n: u32, w: usize) -> (r: Vec<char>)
    requires
        w <= 64,
    ensures
        r@ == padded_decimal(n as nat, w as nat),
{
    let rev = push_digits_rev(n);
    let ghost ds = decimal_digits(n as nat);
    proof {
        lemma_decimal_digits(n as nat);
    }
    let mut r: Vec<char> = Vec::new();
    let len = rev.len();
    assert(len == ds.len());
    if len < w {
        let mut z: usize = 0;
        while z < w - len
            invariant
                len < w,
                z <= w - len,
                r@ == Seq::new(z as nat, |i: int| '0'),
            decreases w - len - z,
        {
            r.push('0');
            assert(r@ =~= Seq::new((z + 1) as nat, |i: int| '0'));
            z = z + 1;
        }
    }
    let ghost pad = r@;
    assert(pad == Seq::new((if len < w {
        w - len
    } else {
        0
    }) as nat, |i: int| '0'));
    let mut k: usize = len;
    while k > 0
        invariant
            k <= len,
            len == rev@.len(),
            rev@.reverse() == ds,
            r@ == pad + ds.take(len - k),
        decreases k,
    {
        k = k - 1;
        r.push(rev[k]);
        proof {
            assert(ds[(len - k - 1) as int] == rev@[k as int]);
            assert(ds.take(len - k - 1).push(rev@[k as int]) =~= ds.take(len - k));
        }
    }
    assert(ds.take(len as int) =~= ds);
    if len < w {
        assert(r@ =~= zero_pad(ds, w as nat));
    } else {
        assert(pad =~= Seq::<char>::empty());
        assert(r@ =~= ds);
    }
    r
}

/// The lowercase hex digit for `d < 16`.
pub open spec fn hex_char(d: int) -> char {
    if d < 10 {
        (d + ('0' as int)) as char
    } else {
        (d - 10 + ('a' as int)) as char
    }
}

/// Each byte as two lowercase hex digits, as `format!("{:02x}", b)` writes it.
pub open spec fn hex_lower(bs: Seq<u8>) -> Seq<char>
    decreases bs.len(),
{
    if bs.len() == 0 {
        Seq::empty()
    } else {
        hex_lower(bs.drop_last()) + seq![
            hex_char((bs.last() / 16) as int),
            hex_char((bs.last() % 16) as int),
        ]
    }
}

fn hex_digit(d: u8) -> (c: char)
    requires
        d < 16,
    ensures
        c == hex_char(d as int),
{
    if d < 10 {
        (d + 48) as char
    } else {
        (d - 10 + 97) as char
    }
}

/// Lowercase hex of a byte string, two digits per byte.
pub fn encode(bytes: &[u8]) -> (r: String)
    ensures
        r@ == hex_lower(bytes@),
{
    let mut v: Vec<char> = Vec::new();
    let mut i: usize = 0;
    while i < bytes.len()
        invariant
            i <= bytes.len(),
            v@ == hex_lower(bytes@.take(i as int)),
        decreases bytes.len() - i,
    {
        let b = bytes[i];
        v.push(hex_digit(b / 16));
        v.push(hex_digit(b % 16));
        assert(bytes@.take(i + 1).drop_last() =~= bytes@.take(i as int));
        assert(v@ =~= hex_lower(bytes@.take(i + 1)));
        i = i + 1;
    }
    assert(bytes@.take(bytes.len() as int) =~= bytes@);
    crate::text::string_of(&v)
}

/// `n` in decimal.
pub fn decimal_text(n: usize) -> (r: Vec<char>)
    ensures
        r@ == decimal_digits(n as nat),
    decreases n,
{
    let d: usize = n % 10;
    let c: char = ((d as u8) + 48) as char;
    assert(c == digit_char(d as int));
    if n < 10 {
        let mut v: Vec<char> = Vec::new();
        v.push(c);
        assert(v@ =~= decimal_digits(n as nat));
        v
    } else {
        let mut v = decimal_text(n / 10);
        v.push(c);
        v
    }
}

} // verus!
