//! Writing integers in the base, case and affixes that the options ask for.

use vstd::prelude::*;
use vstd::string::*;
use crate::options::{NumberBase, NumberFormat, NumberFormattingOptions};
use crate::text::push_char;

verus! {

/// The digit of value `d` (below 16), as a letter in the given case from 10 on.
pub open spec fn digit_char(d: nat, upper: bool) -> char {
    if d < 10 {
        (('0' as int) + d) as char
    } else if upper {
        (('A' as int) + d - 10) as char
    } else {
        (('a' as int) + d - 10) as char
    }
}

/// The digits of `v` in base `base`, most significant first, without leading zeroes.
pub open spec fn digits(v: nat, base: nat, upper: bool) -> Seq<char>
    decreases v,
{
    if base < 2 || v < base {
        seq![digit_char(v, upper)]
    } else {
        proof {
            lemma_div_smaller(v, base);
        }
        digits(v / base, base, upper).push(digit_char(v % base, upper))
    }
}

/// `n` zeroes.
pub open spec fn zeroes(n: nat) -> Seq<char> {
    Seq::new(n, |i: int| '0')
}

/// `s` with zeroes in front up to `min` characters.
pub open spec fn pad_zeroes(s: Seq<char>, min: nat) -> Seq<char> {
    if s.len() < min {
        zeroes((min - s.len()) as nat) + s
    } else {
        s
    }
}

/// The numeric value of a base.
pub open spec fn base_value(b: NumberBase) -> nat {
    match b {
        NumberBase::Hexadecimal => 16,
        NumberBase::Decimal => 10,
        NumberBase::Octal => 8,
        NumberBase::Binary => 2,
    }
}

/// The number of digits that a value of `bits` bits has with leading zeroes.
pub open spec fn full_digits(b: NumberBase, bits: nat) -> nat {
    match b {
        NumberBase::Hexadecimal => bits / 4,
        NumberBase::Decimal => 0,
        NumberBase::Octal => (bits + 2) / 3,
        NumberBase::Binary => bits,
    }
}

/// Whether a digit is a letter.
pub open spec fn is_letter_digit(c: char) -> bool {
    !('0' <= c && c <= '9')
}

/// The text of the unsigned value `v` of `bits` bits. A hexadecimal number of
/// at most 9 is written in decimal, without prefix or suffix, where the options
/// ask for it. Otherwise: the prefix, the digits (padded with zeroes to the
/// full width where `leading_zeroes` holds), and the suffix; a hexadecimal
/// number without prefix whose first digit is a letter gets a `0` in front
/// where the options ask for it.
pub open spec fn unsigned_text(o: NumberFormat, v: nat, bits: nat, leading_zeroes: bool) -> Seq<
    char,
> {
    if o.number_base == NumberBase::Hexadecimal && o.small_hex_numbers_in_decimal && v <= 9 {
        digits(v, 10, false)
    } else {
        let ds = pad_zeroes(
            digits(v, base_value(o.number_base), o.uppercase_hex),
            if leading_zeroes {
                full_digits(o.number_base, bits)
            } else {
                0
            },
        );
        let ds2 = if o.number_base == NumberBase::Hexadecimal && o.add_leading_zero_to_hex_numbers
            && o.prefix.len() == 0 && is_letter_digit(ds[0]) {
            seq!['0'] + ds
        } else {
            ds
        };
        o.prefix + ds2 + o.suffix
    }
}

/// The text of the signed value `v` of `bits` bits: a minus sign and the
/// text of its magnitude when it is negative.
pub open spec fn signed_text(o: NumberFormat, v: int, bits: nat) -> Seq<char> {
    if v < 0 {
        seq!['-'] + unsigned_text(o, (-v) as nat, bits, o.leading_zeroes)
    } else {
        unsigned_text(o, v as nat, bits, o.leading_zeroes)
    }
}

/// Dividing by a base of at least 2 makes a positive value smaller.
pub proof fn lemma_div_smaller(v: nat, base: nat)
    requires
        2 <= base,
        base <= v,
    ensures
        v / base < v,
{
    assert(v / base < v) by (nonlinear_arith)
        requires
            2 <= base,
            base <= v,
    ;
}

proof fn lemma_digits_nonempty(v: nat, base: nat, upper: bool)
    ensures
        digits(v, base, upper).len() >= 1,
    decreases v,
{
    if !(base < 2 || v < base) {
        lemma_div_smaller(v, base);
        lemma_digits_nonempty(v / base, base, upper);
    }
}


/// The value of a digit character, in any case.
pub open spec fn digit_value(c: char) -> nat {
    if '0' <= c && c <= '9' {
        (c as int - '0' as int) as nat
    } else if 'A' <= c && c <= 'F' {
        (c as int - 'A' as int + 10) as nat
    } else if 'a' <= c && c <= 'f' {
        (c as int - 'a' as int + 10) as nat
    } else {
        0
    }
}

/// The value of a string of digits in base `base`, most significant first.
pub open spec fn digits_value(s: Seq<char>, base: nat) -> nat
    decreases s.len(),
{
    if s.len() == 0 {
        0
    } else {
        digits_value(s.drop_last(), base) * base + digit_value(s.last())
    }
}

/// Reading the digits of `v` back in the same base gives `v`.
pub proof fn lemma_digits_value(v: nat, base: nat, upper: bool)
    requires
        2 <= base <= 16,
    ensures
        digits_value(digits(v, base, upper), base) == v,
    decreases v,
{
    if v < base {
        let s = digits(v, base, upper);
        assert(s.drop_last() =~= Seq::<char>::empty());
        assert(digits_value(s.drop_last(), base) == 0);
        assert(digit_value(digit_char(v, upper)) == v);
        assert(s.last() == digit_char(v, upper));
        assert(digits_value(s, base) == 0 * base + v);
    } else {
        lemma_div_smaller(v, base);
        lemma_digits_value(v / base, base, upper);
        let s = digits(v, base, upper);
        assert(s.drop_last() =~= digits(v / base, base, upper));
        assert(v % base < 16) by (nonlinear_arith)
            requires
                2 <= base <= 16,
        ;
        assert(digit_value(digit_char(v % base, upper)) == v % base);
        assert((v / base) * base + v % base == v) by (nonlinear_arith)
            requires
                base > 0,
        ;
        assert(s.last() == digit_char(v % base, upper));
        assert(digits_value(s, base) == digits_value(s.drop_last(), base) * base + digit_value(s.last()));
    }
}

/// Zeroes in front do not change the value of digits.
pub proof fn lemma_zeroes_value(n: nat, s: Seq<char>, base: nat)
    ensures
        digits_value(zeroes(n) + s, base) == digits_value(s, base),
    decreases s.len(), n,
{
    if s.len() == 0 {
        assert(zeroes(n) + s =~= zeroes(n));
        assert(digits_value(s, base) == 0);
        if n > 0 {
            assert(zeroes(n).drop_last() =~= zeroes((n - 1) as nat));
            lemma_zeroes_value((n - 1) as nat, s, base);
            assert(zeroes((n - 1) as nat) + s =~= zeroes((n - 1) as nat));
            assert(digits_value(zeroes((n - 1) as nat), base) == 0);
            assert(zeroes(n).last() == '0');
            assert(digits_value(zeroes(n), base) == 0 * base + 0);
        } else {
            assert(zeroes(n) =~= Seq::<char>::empty());
        }
    } else {
        let z = zeroes(n) + s;
        assert(z.drop_last() =~= zeroes(n) + s.drop_last());
        assert(z.last() == s.last());
        lemma_zeroes_value(n, s.drop_last(), base);
        assert(digits_value(z, base) == digits_value(z.drop_last(), base) * base + digit_value(z.last()));
    }
}

/// The digits that a number is written with, padded with leading zeroes or
/// not, read back in its base, give the number.
pub proof fn lemma_padded_digits_round_trip(v: nat, base: nat, upper: bool, min: nat)
    requires
        2 <= base <= 16,
    ensures
        digits_value(pad_zeroes(digits(v, base, upper), min), base) == v,
{
    lemma_digits_value(v, base, upper);
    let ds = digits(v, base, upper);
    if ds.len() < min {
        lemma_zeroes_value((min - ds.len()) as nat, ds, base);
    }
}

/// `text` is a number written with the prefix, base and suffix of `o` whose
/// digits, read back in that base, give `v`; or a single decimal digit that
/// is `v`.
pub open spec fn number_reads_as(o: NumberFormat, text: Seq<char>, v: nat) -> bool {
    ||| exists|ds: Seq<char>|
        #![trigger digits_value(ds, base_value(o.number_base))]
        text == o.prefix + ds + o.suffix && digits_value(ds, base_value(o.number_base)) == v
    ||| (text.len() == 1 && v <= 9 && digits_value(text, 10) == v)
}

/// The text of a number, read back, gives the number.
pub proof fn lemma_unsigned_text_reads_back(o: NumberFormat, v: nat, bits: nat, leading_zeroes: bool)
    ensures
        number_reads_as(o, unsigned_text(o, v, bits, leading_zeroes), v),
{
    if o.number_base == NumberBase::Hexadecimal && o.small_hex_numbers_in_decimal && v <= 9 {
        lemma_digits_value(v, 10, false);
        assert(digits(v, 10, false).len() == 1);
    } else {
        let base = base_value(o.number_base);
        let ds = pad_zeroes(
            digits(v, base, o.uppercase_hex),
            if leading_zeroes {
                full_digits(o.number_base, bits)
            } else {
                0
            },
        );
        lemma_padded_digits_round_trip(
            v,
            base,
            o.uppercase_hex,
            if leading_zeroes {
                full_digits(o.number_base, bits)
            } else {
                0
            },
        );
        let ds2 = if o.number_base == NumberBase::Hexadecimal && o.add_leading_zero_to_hex_numbers
            && o.prefix.len() == 0 && is_letter_digit(ds[0]) {
            seq!['0'] + ds
        } else {
            ds
        };
        assert(zeroes(1) =~= seq!['0']);
        lemma_zeroes_value(1, ds, base);
        assert(digits_value(ds2, base) == v);
        assert(unsigned_text(o, v, bits, leading_zeroes) == o.prefix + ds2 + o.suffix);
    }
}

/// Appends the digit of value `d`.
fn push_digit(s: &mut String, d: u64, upper: bool)
    requires
        d < 16,
    ensures
        final(s)@ == old(s)@.push(digit_char(d as nat, upper)),
{
    let c: char = if d < 10 {
        ((d as u8) + 48) as char
    } else if upper {
        ((d as u8) + 55) as char
    } else {
        ((d as u8) + 87) as char
    };
    push_char(s, c);
}

/// Appends the digits of `v` in base `base`.
fn push_digits(s: &mut String, v: u64, base: u64, upper: bool)
    requires
        2 <= base <= 16,
    ensures
        final(s)@ == old(s)@ + digits(v as nat, base as nat, upper),
    decreases v,
{
    if v < base {
        push_digit(s, v, upper);
        assert(final(s)@ =~= old(s)@ + digits(v as nat, base as nat, upper));
    } else {
        proof {
            lemma_div_smaller(v as nat, base as nat);
        }
        push_digits(s, v / base, base, upper);
        push_digit(s, v % base, upper);
        assert(final(s)@ =~= old(s)@ + digits(v as nat, base as nat, upper));
    }
}

/// The text of the unsigned value `v` of `bits` bits (see `unsigned_text`).
pub fn format_unsigned(o: &NumberFormattingOptions, v: u64, bits: u32, leading_zeroes: bool) -> (r: String)
    requires
        bits <= 64,
    ensures
        r@ == unsigned_text(o@, v as nat, bits as nat, leading_zeroes),
{
    reveal(unsigned_text);
    if o.number_base == NumberBase::Hexadecimal && o.small_hex_numbers_in_decimal && v <= 9 {
        let mut s = String::new();
        push_digits(&mut s, v, 10, false);
        assert(s@ =~= digits(v as nat, 10, false));
        return s;
    }
    let base: u64 = match o.number_base {
        NumberBase::Hexadecimal => 16,
        NumberBase::Decimal => 10,
        NumberBase::Octal => 8,
        NumberBase::Binary => 2,
    };
    let mut ds = String::new();
    push_digits(&mut ds, v, base, o.uppercase_hex);
    assert(ds@ =~= digits(v as nat, base as nat, o.uppercase_hex));
    let min: usize = if leading_zeroes {
        match o.number_base {
            NumberBase::Hexadecimal => (bits / 4) as usize,
            NumberBase::Decimal => 0,
            NumberBase::Octal => ((bits + 2) / 3) as usize,
            NumberBase::Binary => bits as usize,
        }
    } else {
        0
    };
    let n = ds.as_str().unicode_len();
    let mut padded = String::new();
    if n < min {
        let mut k: usize = 0;
        while k < min - n
            invariant
                n < min,
                k <= min - n,
                padded@ == zeroes(k as nat),
            decreases min - n - k,
        {
            push_char(&mut padded, '0');
            assert(padded@ =~= zeroes((k + 1) as nat));
            k = k + 1;
        }
    }
    padded.append(ds.as_str());
    proof {
        lemma_digits_nonempty(v as nat, base as nat, o.uppercase_hex);
        if n < min {
            assert(padded@ =~= pad_zeroes(ds@, min as nat));
        } else {
            assert(padded@ =~= pad_zeroes(ds@, min as nat));
        }
    }
    let mut r = String::new();
    r.append(o.prefix.as_str());
    if o.number_base == NumberBase::Hexadecimal && o.add_leading_zero_to_hex_numbers
        && o.prefix.as_str().unicode_len() == 0 {
        let c = padded.as_str().get_char(0);
        if !('0' <= c && c <= '9') {
            push_char(&mut r, '0');
        }
    }
    r.append(padded.as_str());
    r.append(o.suffix.as_str());
    assert(r@ =~= unsigned_text(o@, v as nat, bits as nat, leading_zeroes));
    r
}

/// The text of `v`, of 8 bits.
pub fn format_u8(o: &NumberFormattingOptions, v: u8) -> (r: String)
    ensures
        r@ == unsigned_text(o@, v as nat, 8, o.leading_zeroes),
{
    format_unsigned(o, v as u64, 8, o.leading_zeroes)
}

/// The text of `v`, of 16 bits.
pub fn format_u16(o: &NumberFormattingOptions, v: u16) -> (r: String)
    ensures
        r@ == unsigned_text(o@, v as nat, 16, o.leading_zeroes),
{
    format_unsigned(o, v as u64, 16, o.leading_zeroes)
}

/// The text of `v`, of 32 bits.
pub fn format_u32(o: &NumberFormattingOptions, v: u32) -> (r: String)
    ensures
        r@ == unsigned_text(o@, v as nat, 32, o.leading_zeroes),
{
    format_unsigned(o, v as u64, 32, o.leading_zeroes)
}

/// The text of `v`, of 64 bits.
pub fn format_u64(o: &NumberFormattingOptions, v: u64) -> (r: String)
    ensures
        r@ == unsigned_text(o@, v as nat, 64, o.leading_zeroes),
{
    format_unsigned(o, v, 64, o.leading_zeroes)
}

/// The text of `v`, of 8 bits, padded with zeroes where `leading_zeroes` holds.
pub fn format_u8_zeroes(o: &NumberFormattingOptions, v: u8, leading_zeroes: bool) -> (r: String)
    ensures
        r@ == unsigned_text(o@, v as nat, 8, leading_zeroes),
{
    format_unsigned(o, v as u64, 8, leading_zeroes)
}

/// The text of `v`, of 16 bits, padded with zeroes where `leading_zeroes` holds.
pub fn format_u16_zeroes(o: &NumberFormattingOptions, v: u16, leading_zeroes: bool) -> (r: String)
    ensures
        r@ == unsigned_text(o@, v as nat, 16, leading_zeroes),
{
    format_unsigned(o, v as u64, 16, leading_zeroes)
}

/// The text of `v`, of 32 bits, padded with zeroes where `leading_zeroes` holds.
pub fn format_u32_zeroes(o: &NumberFormattingOptions, v: u32, leading_zeroes: bool) -> (r: String)
    ensures
        r@ == unsigned_text(o@, v as nat, 32, leading_zeroes),
{
    format_unsigned(o, v as u64, 32, leading_zeroes)
}

/// The text of `v`, of 64 bits, padded with zeroes where `leading_zeroes` holds.
pub fn format_u64_zeroes(o: &NumberFormattingOptions, v: u64, leading_zeroes: bool) -> (r: String)
    ensures
        r@ == unsigned_text(o@, v as nat, 64, leading_zeroes),
{
    format_unsigned(o, v, 64, leading_zeroes)
}

/// The text of the signed value `v` of `bits` bits (see `signed_text`).
fn format_signed(o: &NumberFormattingOptions, v: i64, bits: u32) -> (r: String)
    requires
        bits <= 64,
    ensures
        r@ == signed_text(o@, v as int, bits as nat),
{
    if v < 0 {
        let m: u64 = (0i128 - (v as i128)) as u64;
        let t = format_unsigned(o, m, bits, o.leading_zeroes);
        let mut r = String::new();
        push_char(&mut r, '-');
        r.append(t.as_str());
        assert(r@ =~= signed_text(o@, v as int, bits as nat));
        r
    } else {
        format_unsigned(o, v as u64, bits, o.leading_zeroes)
    }
}

/// The text of `v`, of 8 bits.
pub fn format_i8(o: &NumberFormattingOptions, v: i8) -> (r: String)
    ensures
        r@ == signed_text(o@, v as int, 8),
{
    format_signed(o, v as i64, 8)
}

/// The text of `v`, of 16 bits.
pub fn format_i16(o: &NumberFormattingOptions, v: i16) -> (r: String)
    ensures
        r@ == signed_text(o@, v as int, 16),
{
    format_signed(o, v as i64, 16)
}

/// The text of `v`, of 32 bits.
pub fn format_i32(o: &NumberFormattingOptions, v: i32) -> (r: String)
    ensures
        r@ == signed_text(o@, v as int, 32),
{
    format_signed(o, v as i64, 32)
}

/// The text of `v`, of 64 bits.
pub fn format_i64(o: &NumberFormattingOptions, v: i64) -> (r: String)
    ensures
        r@ == signed_text(o@, v as int, 64),
{
    format_signed(o, v, 64)
}

} // verus!
