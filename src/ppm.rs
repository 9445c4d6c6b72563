//! The plain-text image format: decimal digits, channel saturation, and the
//! text of one pixel.

use vstd::prelude::*;

verus! {

/// The ASCII digit for `d`, for `d` in `0..10`.
pub open spec fn digit_char(d: int) -> char {
    if d == 0 {
        '0'
    } else if d == 1 {
        '1'
    } else if d == 2 {
        '2'
    } else if d == 3 {
        '3'
    } else if d == 4 {
        '4'
    } else if d == 5 {
        '5'
    } else if d == 6 {
        '6'
    } else if d == 7 {
        '7'
    } else if d == 8 {
        '8'
    } else {
        '9'
    }
}

/// `n` written in base ten, most significant digit first, without leading zeros.
pub open spec fn decimal(n: nat) -> Seq<char>
    decreases n,
{
    if n < 10 {
        seq![digit_char(n as int)]
    } else {
        decimal(n / 10).push(digit_char((n % 10) as int))
    }
}

fn digit_text(d: u64) -> (r: &'static str)
    requires
        d < 10,
    ensures
        r@ == seq![digit_char(d as int)],
{
    if d == 0 {
        proof { reveal_strlit("0"); }
        "0"
    } else if d == 1 {
        proof { reveal_strlit("1"); }
        "1"
    } else if d == 2 {
        proof { reveal_strlit("2"); }
        "2"
    } else if d == 3 {
        proof { reveal_strlit("3"); }
        "3"
    } else if d == 4 {
        proof { reveal_strlit("4"); }
        "4"
    } else if d == 5 {
        proof { reveal_strlit("5"); }
        "5"
    } else if d == 6 {
        proof { reveal_strlit("6"); }
        "6"
    } else if d == 7 {
        proof { reveal_strlit("7"); }
        "7"
    } else if d == 8 {
        proof { reveal_strlit("8"); }
        "8"
    } else {
        proof { reveal_strlit("9"); }
        "9"
    }
}

/// Appends `n` in base ten to `out`.
pub fn append_decimal(out: &mut String, n: u64)
    ensures
        final(out)@ == old(out)@ + decimal(n as nat),
    decreases n,
{
    if n >= 10 {
        append_decimal(out, n / 10);
    }
    out.append(digit_text(n % 10));
    proof {
        if n >= 10 {
            assert(old(out)@ + decimal(n as nat) =~= old(out)@ + decimal((n / 10) as nat) + seq![
                digit_char((n % 10) as int),
            ]);
        } else {
            assert(decimal(n as nat) =~= seq![digit_char((n % 10) as int)]);
        }
    }
}

/// One pixel after quantisation: a level in `0..=255` per channel.
#[derive(Clone, Copy, Debug, PartialEq, Eq, Structural)]
pub struct Rgb8 {
    pub red: u8,
    pub green: u8,
    pub blue: u8,
}

/// The level of a channel whose value `v` has been scaled to `scaled`, the
/// integer part of `v * 256`: negative values give 0, anything past 255
/// saturates at 255, the rest is kept.
pub open spec fn level_of(scaled: int) -> int {
    if scaled < 0 {
        0
    } else if scaled > 255 {
        255
    } else {
        scaled
    }
}

/// Saturates a scaled channel value into a level; see [`level_of`].
pub fn clamp_level(scaled: i64) -> (r: u8)
    ensures
        r as int == level_of(scaled as int),
{
    if scaled > 255 {
        255
    } else if scaled < 0 {
        0
    } else {
        scaled as u8
    }
}

/// Every level lies in `0..=255`; a channel whose scaled value is exactly
/// 255 (the value `255/256`) keeps level 255; a negative one gets level 0; a
/// scaled value past 255, however large, saturates at 255 and never wraps.
pub proof fn lemma_level_bounds(scaled: int)
    ensures
        0 <= level_of(scaled) <= 255,
        scaled < 0 ==> level_of(scaled) == 0,
        scaled >= 255 ==> level_of(scaled) == 255,
        0 <= scaled <= 255 ==> level_of(scaled) == scaled,
{
}

/// The text of one pixel: its three levels, each followed by a space.
pub open spec fn pixel_text(p: Rgb8) -> Seq<char> {
    decimal(p.red as nat) + seq![' '] + decimal(p.green as nat) + seq![' '] + decimal(
        p.blue as nat,
    ) + seq![' ']
}

/// The text of a row: its pixels in order, ended by a newline.
pub open spec fn row_text(row: Seq<Rgb8>) -> Seq<char> {
    pixels_text(row) + seq!['\n']
}

/// The concatenated texts of the pixels of `row`.
pub open spec fn pixels_text(row: Seq<Rgb8>) -> Seq<char>
    decreases row.len(),
{
    if row.len() == 0 {
        Seq::empty()
    } else {
        pixels_text(row.drop_last()) + pixel_text(row.last())
    }
}

/// The text of all rows, top row first.
pub open spec fn rows_text(rows: Seq<Seq<Rgb8>>) -> Seq<char>
    decreases rows.len(),
{
    if rows.len() == 0 {
        Seq::empty()
    } else {
        rows_text(rows.drop_last()) + row_text(rows.last())
    }
}

/// The header: magic number, dimensions, and the largest level.
pub open spec fn header_text(width: nat, height: nat) -> Seq<char> {
    seq!['P', '3', '\n'] + decimal(width) + seq![' '] + decimal(height) + seq![
        '\n',
        '2',
        '5',
        '5',
        '\n',
    ]
}

/// Appends the text of one pixel to `out`.
pub fn append_pixel(out: &mut String, p: Rgb8)
    ensures
        final(out)@ == old(out)@ + pixel_text(p),
{
    proof { reveal_strlit(" "); }
    append_decimal(out, p.red as u64);
    out.append(" ");
    append_decimal(out, p.green as u64);
    out.append(" ");
    append_decimal(out, p.blue as u64);
    out.append(" ");
    assert(out@ =~= old(out)@ + pixel_text(p));
}

} // verus!
