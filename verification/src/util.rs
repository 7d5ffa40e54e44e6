//! Sizes of files, written for people.

use vstd::prelude::*;
use crate::text::{decimal, digit, digit_char, push_decimal, push_text};

verus! {

pub const KILOBYTE: u64 = 1_000;

pub const MEGABYTE: u64 = 1_000_000;

pub const GIGABYTE: u64 = 1_000_000_000;

pub const TERABYTE: u64 = 1_000_000_000_000;

/// `size / unit` in hundredths, rounded to the nearest hundredth; a value
/// that lies exactly between two hundredths goes to the even one.
pub open spec fn hundredths(size: nat, unit: nat) -> nat
    recommends
        unit > 0,
{
    let scaled = size * 100;
    let down = scaled / unit;
    let rest = scaled % unit;
    if 2 * rest > unit || (2 * rest == unit && down % 2 == 1) {
        down + 1
    } else {
        down
    }
}

/// A number of hundredths written with two digits after the point.
pub open spec fn two_places(h: nat) -> Seq<char> {
    decimal(h / 100) + seq!['.', digit_char(((h / 10) % 10) as int), digit_char((h % 10) as int)]
}

/// The unit in which a size is written: the largest of TB, GB, MB and KB
/// that the size reaches, or none for a size under a thousand bytes.
pub open spec fn unit_of(size: u64) -> Option<(u64, Seq<char>)> {
    if size >= TERABYTE {
        Some((TERABYTE, " TB"@))
    } else if size >= GIGABYTE {
        Some((GIGABYTE, " GB"@))
    } else if size >= MEGABYTE {
        Some((MEGABYTE, " MB"@))
    } else if size >= KILOBYTE {
        Some((KILOBYTE, " KB"@))
    } else {
        None
    }
}

/// A size in bytes as it is shown: in the largest decimal unit that it
/// reaches, with two digits after the point, or in whole bytes.
pub open spec fn size_text(size: u64) -> Seq<char> {
    match unit_of(size) {
        Some((unit, name)) => two_places(hundredths(size as nat, unit as nat)) + name,
        None => decimal(size as nat) + " B"@,
    }
}

/// Appends `size / unit` with two digits after the point.
fn push_scaled(out: &mut String, size: u64, unit: u64)
    requires
        unit == KILOBYTE || unit == MEGABYTE || unit == GIGABYTE || unit == TERABYTE,
    ensures
        final(out)@ == old(out)@ + two_places(hundredths(size as nat, unit as nat)),
{
    let scaled: u128 = size as u128 * 100;
    let down: u128 = scaled / unit as u128;
    let rest: u128 = scaled % unit as u128;
    let h: u128 = if 2 * rest > unit as u128 || (2 * rest == unit as u128 && down % 2 == 1) {
        down + 1
    } else {
        down
    };
    assert(h == hundredths(size as nat, unit as nat));
    push_decimal(out, (h / 100) as u64);
    out.push('.');
    out.push(digit(((h / 10) % 10) as u8));
    out.push(digit((h % 10) as u8));
    assert(out@ =~= old(out)@ + two_places(hundredths(size as nat, unit as nat)));
}

/// A size in bytes as it is shown: "1.50 MB", "999 B".
pub fn format_size(size: u64) -> (out: String)
    ensures
        out@ == size_text(size),
{
    let mut out = String::new();
    if size >= TERABYTE {
        push_scaled(&mut out, size, TERABYTE);
        push_text(&mut out, " TB");
    } else if size >= GIGABYTE {
        push_scaled(&mut out, size, GIGABYTE);
        push_text(&mut out, " GB");
    } else if size >= MEGABYTE {
        push_scaled(&mut out, size, MEGABYTE);
        push_text(&mut out, " MB");
    } else if size >= KILOBYTE {
        push_scaled(&mut out, size, KILOBYTE);
        push_text(&mut out, " KB");
    } else {
        push_decimal(&mut out, size);
        push_text(&mut out, " B");
    }
    assert(out@ =~= size_text(size));
    out
}

} // verus!
