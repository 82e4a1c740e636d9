use vstd::prelude::*;

verus! {

use crate::string::push_char;

/// The lower-case hexadecimal digit for `d`, which is below sixteen.
pub open spec fn hex_digit(d: nat) -> char {
    if d < 10 {
        ((d + 48) as u8) as char
    } else {
        ((d + 87) as u8) as char
    }
}

/// `n` written in lower-case hexadecimal, without leading zeros (`0` for zero).
pub open spec fn hex_of(n: nat) -> Seq<char>
    decreases n,
{
    if n < 16 {
        seq![hex_digit(n)]
    } else {
        hex_of(n / 16).push(hex_digit(n % 16))
    }
}

/// The file name of a temporary file whose suffix comes from `stamp`.
pub open spec fn temp_name_of(stamp: nat) -> Seq<char> {
    seq!['t', 'm', 'p', '-'] + hex_of(stamp)
}

fn digit_char(d: u8) -> (r: char)
    requires
        d < 16,
    ensures
        r == hex_digit(d as nat),
{
    if d < 10 {
        (d + 48) as char
    } else {
        (d + 87) as char
    }
}

fn push_hex(out: &mut String, n: u128)
    ensures
        final(out)@ == old(out)@ + hex_of(n as nat),
    decreases n,
{
    if n >= 16 {
        push_hex(out, n / 16);
    }
    push_char(out, digit_char((n % 16) as u8));
    proof {
        if n >= 16 {
            assert(old(out)@ + hex_of(n as nat) =~= old(out)@ + hex_of((n / 16) as nat) + seq![hex_digit((n % 16) as nat)]);
        } else {
            assert(old(out)@ + hex_of(n as nat) =~= old(out)@ + seq![hex_digit((n % 16) as nat)]);
        }
    }
}

/// `stamp` in lower-case hexadecimal: the unique part of a temporary file's
/// name.
pub fn uuid(stamp: u128) -> (r: String)
    ensures
        r@ == hex_of(stamp as nat),
{
    let mut out = String::new();
    push_hex(&mut out, stamp);
    assert(Seq::<char>::empty() + hex_of(stamp as nat) =~= hex_of(stamp as nat));
    out
}

/// The name `tmp-<hex>` of a temporary file made at time `stamp`.
pub fn temp_file_name(stamp: u128) -> (r: String)
    ensures
        r@ == temp_name_of(stamp as nat),
{
    let mut out = String::new();
    push_char(&mut out, 't');
    push_char(&mut out, 'm');
    push_char(&mut out, 'p');
    push_char(&mut out, '-');
    push_hex(&mut out, stamp);
    assert(out@ =~= temp_name_of(stamp as nat));
    out
}

} // verus!
