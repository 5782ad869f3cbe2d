//! Encoding of an image as a binary PPM file, the raw RGB variant of the
//! format.
//!
//! The file is a text header followed by the raw bytes of the image. The
//! header holds the magic number of the variant (the letter `P` and the
//! digit `6`), the width and the height in decimal, and the largest channel
//! value, `255`.

use vstd::prelude::*;

verus! {

/// The decimal digits of `n` as ASCII bytes, most significant digit first,
/// without leading zeros.
pub open spec fn decimal_digits(n: nat) -> Seq<u8>
    decreases n,
{
    if n < 10 {
        seq![(0x30 + n) as u8]
    } else {
        decimal_digits(n / 10).push((0x30 + n % 10) as u8)
    }
}

/// The number that a sequence of ASCII digits spells, read as decimal.
pub open spec fn decimal_value(digits: Seq<u8>) -> nat
    decreases digits.len(),
{
    if digits.len() == 0 {
        0
    } else {
        decimal_value(digits.drop_last()) * 10 + (digits.last() - 0x30) as nat
    }
}

/// The digits of a number are ASCII digits, there is at least one of them,
/// the first is `0` only for the number 0, and together they spell the
/// number: a reader of the header gets back the dimensions that were
/// written.
pub proof fn lemma_decimal_digits_spell(n: nat)
    ensures
        decimal_digits(n).len() >= 1,
        forall|i: int|
            0 <= i < decimal_digits(n).len() ==> 0x30 <= #[trigger] decimal_digits(n)[i] <= 0x39,
        decimal_digits(n)[0] == 0x30 <==> n == 0,
        decimal_value(decimal_digits(n)) == n,
    decreases n,
{
    if n >= 10 {
        let head = decimal_digits(n / 10);
        let last = (0x30 + n % 10) as u8;
        lemma_decimal_digits_spell(n / 10);
        let digits = decimal_digits(n);
        assert(digits.drop_last() =~= head);
        assert(decimal_value(digits) == decimal_value(head) * 10 + (last - 0x30) as nat);
    } else {
        let digits = decimal_digits(n);
        assert(decimal_value(digits.drop_last()) == 0);
        assert(decimal_value(digits) == (digits.last() - 0x30) as nat);
    }
}

/// The header of a `width * height` image, three lines that each end in a
/// line feed: the magic number, then the width and the height with a space
/// between them, then `255`.
pub open spec fn ppm_header(width: nat, height: nat) -> Seq<u8> {
    seq![0x50u8, 0x36u8, 0x0au8] + decimal_digits(width) + seq![0x20u8] + decimal_digits(height)
        + seq![0x0au8, 0x32u8, 0x35u8, 0x35u8, 0x0au8]
}

/// The whole file: the header, then the image bytes as they are.
pub open spec fn ppm_file(buffer: Seq<u8>, width: nat, height: nat) -> Seq<u8> {
    ppm_header(width, height) + buffer
}

/// Appends the decimal digits of `n` to `out`.
fn push_decimal(out: &mut Vec<u8>, n: usize)
    ensures
        final(out)@ == old(out)@ + decimal_digits(n as nat),
    decreases n,
{
    if n >= 10 {
        push_decimal(out, n / 10);
    }
    out.push(0x30u8 + (n % 10) as u8);
}

/// Encodes `buffer` as a binary PPM file of the given dimensions.
///
/// The dimensions are written as given: nothing relates them to the length
/// of `buffer`, which is copied unchanged after the header.
pub fn encode_ppm(buffer: &[u8], width: usize, height: usize) -> (file: Vec<u8>)
    ensures
        file@ == ppm_file(buffer@, width as nat, height as nat),
{
    let mut file: Vec<u8> = Vec::new();
    file.push(0x50);
    file.push(0x36);
    file.push(0x0a);
    push_decimal(&mut file, width);
    file.push(0x20);
    push_decimal(&mut file, height);
    file.push(0x0a);
    file.push(0x32);
    file.push(0x35);
    file.push(0x35);
    file.push(0x0a);
    file.extend_from_slice(buffer);
    file
}

} // verus!
