//! Byte-level text building blocks: decimal and fixed-point numerals,
//! JSON string escaping, and lower-case hexadecimal.

use vstd::prelude::*;

verus! {

/// ASCII byte of the decimal digit `d`.
pub open spec fn digit_byte(d: nat) -> u8 {
    (48 + d) as u8
}

/// Decimal numeral of `n`, most significant digit first, without leading zeros.
pub open spec fn decimal(n: nat) -> Seq<u8>
    decreases n,
{
    if n < 10 {
        seq![digit_byte(n)]
    } else {
        decimal(n / 10).push(digit_byte(n % 10))
    }
}

/// Absolute value of an integer.
pub open spec fn magnitude(v: int) -> nat {
    if v < 0 { (-v) as nat } else { v as nat }
}

/// Numeral of a value given in hundredths: an optional minus sign, the whole
/// part in decimal, a point and exactly two fractional digits (`-4001` is `-40.01`).
pub open spec fn hundredths(v: int) -> Seq<u8> {
    let m = magnitude(v);
    let sign: Seq<u8> = if v < 0 { seq![45u8] } else { seq![] };
    sign + decimal(m / 100) + seq![46u8, digit_byte((m % 100) / 10), digit_byte(m % 10)]
}

/// Lower-case hexadecimal digit of `d`, for `d < 16`.
pub open spec fn hex_digit_byte(d: nat) -> u8 {
    if d < 10 { (48 + d) as u8 } else { (87 + d) as u8 }
}

/// How one byte is written inside a JSON string: quote and backslash are
/// escaped with a backslash, control bytes as `\u00XX`, all others as they are.
pub open spec fn escaped_byte(b: u8) -> Seq<u8> {
    if b == 34 || b == 92 {
        seq![92u8, b]
    } else if b < 32 {
        seq![92u8, 117u8, 48u8, 48u8, hex_digit_byte(b as nat / 16), hex_digit_byte(b as nat % 16)]
    } else {
        seq![b]
    }
}

/// A byte string escaped for use inside a JSON string.
pub open spec fn escaped(s: Seq<u8>) -> Seq<u8>
    decreases s.len(),
{
    if s.len() == 0 {
        seq![]
    } else {
        escaped(s.drop_last()) + escaped_byte(s.last())
    }
}

/// Lower-case hexadecimal character of `d`, for `d < 16`.
pub open spec fn hex_char(d: int) -> char {
    "0123456789abcdef"@[d]
}

/// Lower-case hexadecimal text of a byte string, two characters per byte.
pub open spec fn hex_text(bytes: Seq<u8>) -> Seq<char>
    decreases bytes.len(),
{
    if bytes.len() == 0 {
        seq![]
    } else {
        hex_text(bytes.drop_last()) + seq![hex_char(bytes.last() as int / 16), hex_char(bytes.last() as int % 16)]
    }
}

/// Appends `bytes` to `out`.
pub fn append_bytes(out: &mut Vec<u8>, bytes: &[u8])
    ensures
        final(out)@ == old(out)@ + bytes@,
{
    let mut i: usize = 0;
    while i < bytes.len()
        invariant
            i <= bytes@.len(),
            out@ == old(out)@ + bytes@.take(i as int),
        decreases bytes@.len() - i,
    {
        out.push(bytes[i]);
        i = i + 1;
        assert(out@ =~= old(out)@ + bytes@.take(i as int));
    }
    assert(bytes@.take(bytes@.len() as int) =~= bytes@);
}

/// Appends the decimal numeral of `n` to `out`.
pub fn append_decimal(out: &mut Vec<u8>, n: u64)
    ensures
        final(out)@ == old(out)@ + decimal(n as nat),
    decreases n,
{
    if n >= 10 {
        append_decimal(out, n / 10);
    }
    out.push((48 + n % 10) as u8);
    assert(out@ =~= old(out)@ + decimal(n as nat));
}

/// Appends the numeral of `v` hundredths (see `hundredths`) to `out`.
pub fn append_hundredths(out: &mut Vec<u8>, v: i32)
    ensures
        final(out)@ == old(out)@ + hundredths(v as int),
{
    let m: u64 = if v < 0 { (-(v as i64)) as u64 } else { v as u64 };
    assert(m == magnitude(v as int));
    if v < 0 {
        out.push(45u8);
    }
    append_decimal(out, m / 100);
    out.push(46u8);
    out.push((48 + (m % 100) / 10) as u8);
    out.push((48 + m % 10) as u8);
    assert(out@ =~= old(out)@ + hundredths(v as int));
}

/// Appends `s` escaped for a JSON string (see `escaped`) to `out`.
pub fn append_escaped(out: &mut Vec<u8>, s: &[u8])
    ensures
        final(out)@ == old(out)@ + escaped(s@),
{
    let mut i: usize = 0;
    while i < s.len()
        invariant
            i <= s@.len(),
            out@ == old(out)@ + escaped(s@.take(i as int)),
        decreases s@.len() - i,
    {
        let b = s[i];
        if b == 34 || b == 92 {
            out.push(92u8);
            out.push(b);
        } else if b < 32 {
            out.push(92u8);
            out.push(117u8);
            out.push(48u8);
            out.push(48u8);
            out.push(hex_digit(b / 16));
            out.push(hex_digit(b % 16));
        } else {
            out.push(b);
        }
        assert(s@.take(i + 1).drop_last() =~= s@.take(i as int));
        i = i + 1;
        assert(out@ =~= old(out)@ + escaped(s@.take(i as int)));
    }
    assert(s@.take(s@.len() as int) =~= s@);
}

/// Lower-case hexadecimal digit byte of `d`.
fn hex_digit(d: u8) -> (r: u8)
    requires
        d < 16,
    ensures
        r == hex_digit_byte(d as nat),
{
    if d < 10 { 48 + d } else { 87 + d }
}

/// Lower-case hexadecimal text of `bytes`.
pub fn to_hex(bytes: &[u8]) -> (r: String)
    ensures
        r@ == hex_text(bytes@),
{
    let digits = "0123456789abcdef";
    proof {
        reveal_strlit("0123456789abcdef");
    }
    let mut out = String::new();
    let mut i: usize = 0;
    while i < bytes.len()
        invariant
            i <= bytes@.len(),
            digits@ == "0123456789abcdef"@,
            digits@.len() == 16,
            out@ == hex_text(bytes@.take(i as int)),
        decreases bytes@.len() - i,
    {
        let hi = (bytes[i] / 16) as usize;
        let lo = (bytes[i] % 16) as usize;
        out.append(digits.substring_char(hi, hi + 1));
        out.append(digits.substring_char(lo, lo + 1));
        assert(bytes@.take(i + 1).drop_last() =~= bytes@.take(i as int));
        i = i + 1;
        assert(out@ =~= hex_text(bytes@.take(i as int)));
    }
    assert(bytes@.take(bytes@.len() as int) =~= bytes@);
    out
}

} // verus!
