//! Reading numbers that a prober writes as text.

use vstd::prelude::*;
use vstd::utf8::is_ascii_chars;

verus! {

/// Whether `c` is one of the digits `0` to `9`.
pub open spec fn is_digit(c: char) -> bool {
    '0' <= c <= '9'
}

/// The number that the digit `c` writes.
pub open spec fn digit_value(c: char) -> nat {
    (c as int - '0' as int) as nat
}

/// Whether `s` holds digits only.
pub open spec fn all_digits(s: Seq<char>) -> bool {
    forall|i: int| 0 <= i < s.len() ==> is_digit(#[trigger] s[i])
}

/// The number that the decimal numeral `s` writes.
pub open spec fn digits_value(s: Seq<char>) -> nat
    decreases s.len(),
{
    if s.len() == 0 {
        0
    } else {
        digits_value(s.drop_last()) * 10 + digit_value(s.last())
    }
}

/// `s` without a plus sign in front.
pub open spec fn unsigned_part(s: Seq<char>) -> Seq<char> {
    if s.len() > 0 && s[0] == '+' {
        s.drop_first()
    } else {
        s
    }
}

/// The number that `s` writes: one or more digits, optionally behind a plus
/// sign, that make a number of at most `max`. Anything else writes no
/// number.
pub open spec fn parsed_number(s: Seq<char>, max: nat) -> Option<nat> {
    let body = unsigned_part(s);
    if body.len() > 0 && all_digits(body) && digits_value(body) <= max {
        Some(digits_value(body))
    } else {
        None
    }
}

/// The number that `s` writes, where it fits in 32 bits.
pub open spec fn parsed_u32(s: Seq<char>) -> Option<u32> {
    match parsed_number(s, u32::MAX as nat) {
        Some(n) => Some(n as u32),
        None => None,
    }
}

/// The number that `s` writes, where it fits in 64 bits.
pub open spec fn parsed_u64(s: Seq<char>) -> Option<u64> {
    match parsed_number(s, u64::MAX as nat) {
        Some(n) => Some(n as u64),
        None => None,
    }
}

/// The place of the first `c` in `s`, or the length of `s` where it holds
/// none.
pub open spec fn first_of(s: Seq<char>, c: char) -> int
    decreases s.len(),
{
    if s.len() == 0 {
        0
    } else if s[0] == c {
        0
    } else {
        1 + first_of(s.drop_first(), c)
    }
}

/// The first `c` of `s` stands at `first_of(s, c)`, and nowhere before.
pub proof fn lemma_first_of(s: Seq<char>, c: char)
    ensures
        0 <= first_of(s, c) <= s.len(),
        forall|j: int| 0 <= j < first_of(s, c) ==> s[j] != c,
        first_of(s, c) < s.len() ==> s[first_of(s, c)] == c,
    decreases s.len(),
{
    if s.len() > 0 && s[0] != c {
        let rest = s.drop_first();
        lemma_first_of(rest, c);
        assert forall|j: int| 0 <= j < first_of(s, c) implies s[j] != c by {
            if j > 0 {
                assert(s[j] == rest[j - 1]);
            }
        }
        if first_of(s, c) < s.len() {
            assert(s[first_of(s, c)] == rest[first_of(rest, c)]);
        }
    }
}

/// A place at which `c` stands, and before which it does not, is the first
/// place of `c`.
pub proof fn lemma_first_of_at(s: Seq<char>, c: char, i: int)
    requires
        0 <= i <= s.len(),
        forall|j: int| 0 <= j < i ==> s[j] != c,
        i < s.len() ==> s[i] == c,
    ensures
        first_of(s, c) == i,
{
    lemma_first_of(s, c);
}

/// The place of the first point in `s`, or the length of `s` where it holds
/// none.
pub open spec fn point_index(s: Seq<char>) -> int {
    first_of(s, '.')
}

/// How many microseconds a one is worth at the given place behind the point.
pub open spec fn micros_weight(place: int) -> nat {
    if place == 0 {
        100_000
    } else if place == 1 {
        10_000
    } else if place == 2 {
        1_000
    } else if place == 3 {
        100
    } else if place == 4 {
        10
    } else if place == 5 {
        1
    } else {
        0
    }
}

/// The microseconds that the digits `frac` behind a point write. Digits
/// behind the sixth are too fine to count.
pub open spec fn fraction_micros(frac: Seq<char>) -> nat
    decreases frac.len(),
{
    if frac.len() == 0 {
        0
    } else {
        fraction_micros(frac.drop_last()) + digit_value(frac.last()) * micros_weight(
            frac.len() - 1,
        )
    }
}

/// The digits of `s` before its first point.
pub open spec fn whole_part(s: Seq<char>) -> Seq<char> {
    s.take(point_index(s))
}

/// The digits of `s` behind its first point.
pub open spec fn fraction_part(s: Seq<char>) -> Seq<char> {
    if point_index(s) < s.len() {
        s.skip(point_index(s) + 1)
    } else {
        Seq::<char>::empty()
    }
}

/// The time in microseconds that `s` writes in seconds: one or more digits,
/// optionally followed by a point and digits, that make a time which fits
/// in 64 bits. Anything else writes no time.
pub open spec fn parsed_seconds(s: Seq<char>) -> Option<u64> {
    let whole = whole_part(s);
    let frac = fraction_part(s);
    if whole.len() > 0 && all_digits(whole) && all_digits(frac) && digits_value(whole) * 1_000_000
        + fraction_micros(frac) <= u64::MAX {
        Some((digits_value(whole) * 1_000_000 + fraction_micros(frac)) as u64)
    } else {
        None
    }
}

/// A numeral is worth at least as much as each of its beginnings.
pub proof fn lemma_digits_value_grows(s: Seq<char>, k: int)
    requires
        0 <= k <= s.len(),
    ensures
        digits_value(s.take(k)) <= digits_value(s),
    decreases s.len(),
{
    if k == s.len() {
        assert(s.take(k) =~= s);
    } else {
        assert(s.drop_last().take(k) =~= s.take(k));
        lemma_digits_value_grows(s.drop_last(), k);
        assert(digits_value(s.drop_last()) * 10 >= digits_value(s.drop_last())) by (nonlinear_arith);
    }
}

/// The digits behind a point write less than a second.
pub proof fn lemma_fraction_micros_bound(frac: Seq<char>)
    requires
        all_digits(frac),
    ensures
        frac.len() == 0 ==> fraction_micros(frac) == 0,
        frac.len() == 1 ==> fraction_micros(frac) <= 900_000,
        frac.len() == 2 ==> fraction_micros(frac) <= 990_000,
        frac.len() == 3 ==> fraction_micros(frac) <= 999_000,
        frac.len() == 4 ==> fraction_micros(frac) <= 999_900,
        frac.len() == 5 ==> fraction_micros(frac) <= 999_990,
        frac.len() >= 6 ==> fraction_micros(frac) <= 999_999,
    decreases frac.len(),
{
    if frac.len() > 0 {
        assert(is_digit(frac.last()));
        assert(digit_value(frac.last()) <= 9);
        assert(digit_value(frac.last()) * micros_weight(frac.len() - 1) <= 9 * micros_weight(
            frac.len() - 1,
        )) by (nonlinear_arith)
            requires
                digit_value(frac.last()) <= 9,
        ;
        assert forall|i: int| 0 <= i < frac.drop_last().len() implies is_digit(
            #[trigger] frac.drop_last()[i],
        ) by {
            assert(frac.drop_last()[i] == frac[i]);
        }
        lemma_fraction_micros_bound(frac.drop_last());
    }
}

/// The first point of `s` stands at `point_index(s)`, and nowhere before.
pub proof fn lemma_point_index(s: Seq<char>)
    ensures
        0 <= point_index(s) <= s.len(),
        forall|j: int| 0 <= j < point_index(s) ==> s[j] != '.',
        point_index(s) < s.len() ==> s[point_index(s)] == '.',
{
    lemma_first_of(s, '.');
}

/// The bytes of `text`, where it is made of ASCII characters only: then
/// every byte is one character.
pub fn ascii_bytes(text: &str) -> (bytes: Option<&[u8]>)
    ensures
        match bytes {
            Some(b) => is_ascii_chars(text@) && b@.len() == text@.len() && forall|i: int|
                0 <= i < b@.len() ==> #[trigger] b@[i] == text@[i] as u8 && text@[i] as int
                    == b@[i] as int,
            None => !is_ascii_chars(text@),
        },
{
    if text.is_ascii() {
        let b = text.as_bytes();
        proof {
            vstd::utf8::is_ascii_chars_encode_utf8(text@);
            vstd::utf8::is_ascii_chars_nat_bound(text@);
            assert forall|i: int| 0 <= i < b@.len() implies #[trigger] b@[i] == text@[i] as u8
                && text@[i] as int == b@[i] as int by {
                assert((text@[i] as nat) < 128);
            }
        }
        Some(b)
    } else {
        None
    }
}

/// Whether the bytes `b` are the characters of `text`, one byte for each.
pub open spec fn spells(b: Seq<u8>, text: Seq<char>) -> bool {
    &&& b.len() == text.len()
    &&& forall|k: int| 0 <= k < b.len() ==> text[k] as int == #[trigger] b[k] as int
}

/// The number of at most `max` that the characters from `from` up to `to`
/// write.
pub(crate) fn parse_span(b: &[u8], text: Ghost<Seq<char>>, from: usize, to: usize, max: u64) -> (number:
    Option<u64>)
    requires
        spells(b@, text@),
        from <= to <= b@.len(),
    ensures
        match number {
            Some(n) => parsed_number(text@.subrange(from as int, to as int), max as nat) == Some(
                n as nat,
            ),
            None => parsed_number(text@.subrange(from as int, to as int), max as nat) is None,
        },
{
    let ghost span = text@.subrange(from as int, to as int);
    let start: usize = if from < to && b[from] == 43 {
        from + 1
    } else {
        from
    };
    let ghost body = unsigned_part(span);
    assert(body =~= text@.subrange(start as int, to as int)) by {
        if from < to {
            assert(span[0] == text@[from as int]);
        }
    }
    if start == to {
        return None;
    }
    let mut value: u64 = 0;
    let mut i: usize = start;
    assert(body.take(0) =~= Seq::<char>::empty());
    while i < to
        invariant
            start <= i <= to <= b@.len(),
            spells(b@, text@),
            from <= start,
            body == text@.subrange(start as int, to as int),
            body == unsigned_part(text@.subrange(from as int, to as int)),
            all_digits(body.take(i - start)),
            value == digits_value(body.take(i - start)),
            value <= max,
        decreases to - i,
    {
        let c = b[i];
        let ghost upto = body.take(i - start + 1);
        assert(upto.drop_last() =~= body.take(i - start));
        assert(upto.last() == text@[i as int]);
        if c < 48 || c > 57 {
            assert(!is_digit(body[i - start]));
            return None;
        }
        let d: u64 = (c - 48) as u64;
        assert(is_digit(upto.last()));
        assert(digit_value(upto.last()) == d);
        if d > max || value > (max - d) / 10 {
            proof {
                assert(digits_value(upto) > max);
                if all_digits(body) {
                    lemma_digits_value_grows(body, i - start + 1);
                }
            }
            return None;
        }
        value = value * 10 + d;
        assert forall|k: int| 0 <= k < upto.len() implies is_digit(#[trigger] upto[k]) by {
            if k < upto.len() - 1 {
                assert(upto[k] == body.take(i - start)[k]);
            }
        }
        i += 1;
    }
    assert(body.take(i - start) =~= body);
    Some(value)
}

/// A text that holds a character outside ASCII writes no number.
pub proof fn lemma_number_is_ascii(s: Seq<char>, max: nat)
    requires
        !is_ascii_chars(s),
    ensures
        parsed_number(s, max) is None,
{
    let i = choose|i: int| 0 <= i < s.len() && !('\0' <= #[trigger] s[i] <= '\u{7f}');
    let body = unsigned_part(s);
    if s[0] == '+' {
        assert(body[i - 1] == s[i]);
    }
}

/// The number that `text` writes, where it fits in 32 bits: one or more
/// digits, optionally behind a plus sign.
pub fn parse_u32(text: &str) -> (number: Option<u32>)
    ensures
        number == parsed_u32(text@),
{
    let Some(b) = ascii_bytes(text) else {
        proof {
            lemma_number_is_ascii(text@, u32::MAX as nat);
        }
        return None;
    };
    assert(text@.subrange(0, text@.len() as int) =~= text@);
    match parse_span(b, Ghost(text@), 0, b.len(), 0xFFFF_FFFF) {
        Some(n) => Some(n as u32),
        None => None,
    }
}

/// The number that `text` writes, where it fits in 64 bits: one or more
/// digits, optionally behind a plus sign.
pub fn parse_u64(text: &str) -> (number: Option<u64>)
    ensures
        number == parsed_u64(text@),
{
    let Some(b) = ascii_bytes(text) else {
        proof {
            lemma_number_is_ascii(text@, u64::MAX as nat);
        }
        return None;
    };
    assert(text@.subrange(0, text@.len() as int) =~= text@);
    parse_span(b, Ghost(text@), 0, b.len(), 0xFFFF_FFFF_FFFF_FFFF)
}

/// The time in microseconds that `text` writes in seconds, as
/// `parsed_seconds` says.
pub fn parse_seconds(text: &str) -> (micros: Option<u64>)
    ensures
        micros == parsed_seconds(text@),
{
    proof {
        lemma_point_index(text@);
    }
    let ghost p = point_index(text@);
    let ghost whole = whole_part(text@);
    let ghost frac = fraction_part(text@);
    let Some(b) = ascii_bytes(text) else {
        proof {
            let i = choose|i: int|
                0 <= i < text@.len() && !('\0' <= #[trigger] text@[i] <= '\u{7f}');
            if i < p {
                assert(whole[i] == text@[i]);
            } else {
                assert(i > p);
                assert(frac[i - p - 1] == text@[i]);
            }
        }
        return None;
    };
    let mut value: u64 = 0;
    let mut i: usize = 0;
    assert(text@.take(0) =~= Seq::<char>::empty());
    while i < b.len() && b[i] != 46
        invariant
            i <= b.len(),
            b@.len() == text@.len(),
            forall|k: int| 0 <= k < b@.len() ==> text@[k] as int == #[trigger] b@[k] as int,
            forall|k: int| 0 <= k < i ==> text@[k] != '.',
            all_digits(text@.take(i as int)),
            value == digits_value(text@.take(i as int)),
            value <= 18_446_744_073_709,
            p == point_index(text@),
            0 <= p <= text@.len(),
            forall|j: int| 0 <= j < p ==> text@[j] != '.',
            p < text@.len() ==> text@[p] == '.',
            whole == text@.take(p),
        decreases b.len() - i,
    {
        let c = b[i];
        let ghost upto = text@.take(i as int + 1);
        assert(upto.drop_last() =~= text@.take(i as int));
        assert(upto.last() == text@[i as int]);
        assert(i < p);
        if c < 48 || c > 57 {
            assert(!is_digit(whole[i as int]));
            return None;
        }
        value = value * 10 + (c - 48) as u64;
        assert(is_digit(upto.last()));
        assert(digit_value(upto.last()) == c - 48);
        assert forall|k: int| 0 <= k < upto.len() implies is_digit(#[trigger] upto[k]) by {
            if k < upto.len() - 1 {
                assert(upto[k] == text@.take(i as int)[k]);
            }
        }
        if value > 18_446_744_073_709 {
            proof {
                if all_digits(whole) {
                    assert(whole.take(i as int + 1) =~= upto);
                    lemma_digits_value_grows(whole, i as int + 1);
                }
            }
            return None;
        }
        i += 1;
    }
    assert(i == p);
    assert(text@.take(i as int) =~= whole);
    if i == 0 {
        return None;
    }
    let mut micros: u64 = 0;
    if i < b.len() {
        let first: usize = i + 1;
        let mut j: usize = first;
        assert(frac =~= text@.skip(first as int));
        assert(frac.take(0) =~= Seq::<char>::empty());
        while j < b.len()
            invariant
                first <= j <= b.len(),
                b@.len() == text@.len(),
                forall|k: int| 0 <= k < b@.len() ==> text@[k] as int == #[trigger] b@[k] as int,
                frac == text@.skip(first as int),
                frac == fraction_part(text@),
                all_digits(frac.take(j - first)),
                micros == fraction_micros(frac.take(j - first)),
                micros <= 999_999,
            decreases b.len() - j,
        {
            let c = b[j];
            let ghost upto = frac.take(j - first + 1);
            assert(upto.drop_last() =~= frac.take(j - first));
            assert(upto.last() == text@[j as int]);
            if c < 48 || c > 57 {
                assert(!is_digit(frac[j - first]));
                return None;
            }
            assert(is_digit(upto.last()));
            assert(digit_value(upto.last()) == c - 48);
            assert forall|k: int| 0 <= k < upto.len() implies is_digit(#[trigger] upto[k]) by {
                if k < upto.len() - 1 {
                    assert(upto[k] == frac.take(j - first)[k]);
                }
            }
            proof {
                lemma_fraction_micros_bound(upto);
            }
            let place: usize = j - first;
            let weight: u64 = if place == 0 {
                100_000
            } else if place == 1 {
                10_000
            } else if place == 2 {
                1_000
            } else if place == 3 {
                100
            } else if place == 4 {
                10
            } else if place == 5 {
                1
            } else {
                0
            };
            micros = micros + (c - 48) as u64 * weight;
            j += 1;
        }
        assert(frac.take(j - first) =~= frac);
    }
    if value == 18_446_744_073_709 && micros > 551_615 {
        return None;
    }
    Some(value * 1_000_000 + micros)
}

} // verus!
