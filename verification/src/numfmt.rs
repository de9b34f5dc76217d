//! Rendering of unsigned integers as decimal and uppercase-hexadecimal text,
//! specified digit by digit.

use vstd::prelude::*;

verus! {

/// The character for one digit value: `'0'` through `'9'`, then `'A'`
/// through `'F'`.
pub open spec fn digit_char(d: int) -> char {
    if d == 0 {
        '0'
    } else if d == 1 {
        '1'
    } else if d == 2 {
        '2'
    } else if d == 3 {
        '3'
    } else if d == 4 {
        '4'
    } else if d == 5 {
        '5'
    } else if d == 6 {
        '6'
    } else if d == 7 {
        '7'
    } else if d == 8 {
        '8'
    } else if d == 9 {
        '9'
    } else if d == 10 {
        'A'
    } else if d == 11 {
        'B'
    } else if d == 12 {
        'C'
    } else if d == 13 {
        'D'
    } else if d == 14 {
        'E'
    } else {
        'F'
    }
}

/// The decimal rendering of `v`: most significant digit first, no leading
/// zeros (a single `'0'` for zero itself).
pub open spec fn spec_dec(v: int) -> Seq<char>
    decreases v,
{
    if v < 10 {
        seq![digit_char(v)]
    } else {
        spec_dec(v / 10).push(digit_char(v % 10))
    }
}

/// The uppercase hexadecimal rendering of `v`: most significant digit first,
/// no leading zeros (a single `'0'` for zero itself).
pub open spec fn spec_hex(v: int) -> Seq<char>
    decreases v,
{
    if v < 16 {
        seq![digit_char(v)]
    } else {
        spec_hex(v / 16).push(digit_char(v % 16))
    }
}

/// The uppercase hexadecimal rendering of `v` zero-padded to at least `width`
/// digits, as `{:0<width>X}` formats it: a value too wide for the field keeps
/// all its digits.
pub open spec fn spec_hex_fixed(v: nat, width: nat) -> Seq<char>
    decreases v + width,
{
    if v < 16 && width <= 1 {
        seq![digit_char(v as int)]
    } else {
        spec_hex_fixed(v / 16, (if width == 0 { 0 } else { (width - 1) as nat })).push(
            digit_char((v % 16) as int),
        )
    }
}

/// The `{:#X}` rendering of `v`: a `0x` prefix, then uppercase hexadecimal
/// digits without leading zeros.
pub open spec fn spec_hex_prefixed(v: int) -> Seq<char> {
    "0x"@ + spec_hex(v)
}

/// Appends the character for one digit value below 16.
pub(crate) fn append_digit(s: &mut String, d: u32)
    requires
        d < 16,
    ensures
        final(s)@ == old(s)@ + seq![digit_char(d as int)],
{
    proof {
        reveal_strlit("0");
        reveal_strlit("1");
        reveal_strlit("2");
        reveal_strlit("3");
        reveal_strlit("4");
        reveal_strlit("5");
        reveal_strlit("6");
        reveal_strlit("7");
        reveal_strlit("8");
        reveal_strlit("9");
        reveal_strlit("A");
        reveal_strlit("B");
        reveal_strlit("C");
        reveal_strlit("D");
        reveal_strlit("E");
        reveal_strlit("F");
    }
    match d {
        0 => s.append("0"),
        1 => s.append("1"),
        2 => s.append("2"),
        3 => s.append("3"),
        4 => s.append("4"),
        5 => s.append("5"),
        6 => s.append("6"),
        7 => s.append("7"),
        8 => s.append("8"),
        9 => s.append("9"),
        10 => s.append("A"),
        11 => s.append("B"),
        12 => s.append("C"),
        13 => s.append("D"),
        14 => s.append("E"),
        _ => s.append("F"),
    }
    proof {
        assert(final(s)@ =~= old(s)@ + seq![digit_char(d as int)]);
    }
}

/// Appends the decimal rendering of `v`.
pub(crate) fn append_dec(s: &mut String, v: u32)
    ensures
        final(s)@ == old(s)@ + spec_dec(v as int),
    decreases v,
{
    if v < 10 {
        append_digit(s, v);
    } else {
        append_dec(s, v / 10);
        append_digit(s, v % 10);
        proof {
            assert(final(s)@ =~= old(s)@ + spec_dec(v as int));
        }
    }
}

/// Appends the uppercase hexadecimal rendering of `v`, without leading zeros.
pub(crate) fn append_hex(s: &mut String, v: u32)
    ensures
        final(s)@ == old(s)@ + spec_hex(v as int),
    decreases v,
{
    if v < 16 {
        append_digit(s, v);
    } else {
        append_hex(s, v / 16);
        append_digit(s, v % 16);
        proof {
            assert(final(s)@ =~= old(s)@ + spec_hex(v as int));
        }
    }
}

/// Appends the uppercase hexadecimal rendering of `v` zero-padded to at least
/// `width` digits.
pub(crate) fn append_hex_fixed(s: &mut String, v: u32, width: u32)
    ensures
        final(s)@ == old(s)@ + spec_hex_fixed(v as nat, width as nat),
    decreases v + width,
{
    if v < 16 && width <= 1 {
        append_digit(s, v);
    } else {
        append_hex_fixed(s, v / 16, if width == 0 { 0 } else { width - 1 });
        append_digit(s, v % 16);
        proof {
            assert(final(s)@ =~= old(s)@ + spec_hex_fixed(v as nat, width as nat));
        }
    }
}

/// Appends the `{:#X}` rendering of `v`: a `0x` prefix, then uppercase
/// hexadecimal digits without leading zeros.
pub(crate) fn append_hex_prefixed(s: &mut String, v: u32)
    ensures
        final(s)@ == old(s)@ + spec_hex_prefixed(v as int),
{
    s.append("0x");
    append_hex(s, v);
    proof {
        assert(final(s)@ =~= old(s)@ + spec_hex_prefixed(v as int));
    }
}

} // verus!
