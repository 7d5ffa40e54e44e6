//! Building text: decimal numbers and pieces appended to a `String`.

use vstd::prelude::*;

verus! {

/// `String::push` of the standard library puts the character at the end of
/// the text and changes nothing else.
pub assume_specification[ String::push ](text: &mut String, c: char)
    ensures
        final(text)@ == old(text)@.push(c),
;

/// The character that writes the digit `d`.
pub open spec fn digit_char(d: int) -> char {
    if d == 0 {
        '0'
    } else if d == 1 {
        '1'
    } else if d == 2 {
        '2'
    } else if d == 3 {
        '3'
    } else if d == 4 {
        '4'
    } else if d == 5 {
        '5'
    } else if d == 6 {
        '6'
    } else if d == 7 {
        '7'
    } else if d == 8 {
        '8'
    } else {
        '9'
    }
}

/// The decimal numeral of `n`, without sign and without leading zeros.
pub open spec fn decimal(n: nat) -> Seq<char>
    decreases n,
{
    if n < 10 {
        seq![digit_char(n as int)]
    } else {
        decimal(n / 10).push(digit_char((n % 10) as int))
    }
}

/// The character that writes the digit `d`.
pub fn digit(d: u8) -> (c: char)
    requires
        d < 10,
    ensures
        c == digit_char(d as int),
{
    match d {
        0 => '0',
        1 => '1',
        2 => '2',
        3 => '3',
        4 => '4',
        5 => '5',
        6 => '6',
        7 => '7',
        8 => '8',
        _ => '9',
    }
}

/// Appends the decimal numeral of `n` to `out`.
pub fn push_decimal(out: &mut String, n: u64)
    ensures
        final(out)@ == old(out)@ + decimal(n as nat),
    decreases n,
{
    if n >= 10 {
        push_decimal(out, n / 10);
    }
    let d: u8 = (n % 10) as u8;
    out.push(digit(d));
    proof {
        if n < 10 {
            assert(old(out)@.push(digit_char(n as int)) =~= old(out)@ + decimal(n as nat));
        } else {
            assert((old(out)@ + decimal((n / 10) as nat)).push(digit_char((n % 10) as int))
                =~= old(out)@ + decimal(n as nat));
        }
    }
}

/// The digits after the decimal point of a fraction whose value is `frac`
/// over ten times `scale`, most significant digit first, without trailing
/// zeros. `scale` is the weight of the first digit: a power of ten.
pub open spec fn fraction_digits(frac: nat, scale: nat) -> Seq<char>
    decreases scale,
{
    if frac == 0 || scale == 0 {
        Seq::<char>::empty()
    } else {
        seq![digit_char((frac / scale) as int)] + fraction_digits(frac % scale, scale / 10)
    }
}

/// The decimal numeral of `value / unit`: the whole part, and where the
/// division leaves a remainder, a point and the digits after it without
/// trailing zeros. `unit` is a power of ten.
pub open spec fn fixed_text(value: nat, unit: nat) -> Seq<char> {
    if unit == 0 {
        decimal(value)
    } else if value % unit == 0 {
        decimal(value / unit)
    } else {
        decimal(value / unit) + seq!['.'] + fraction_digits(value % unit, unit / 10)
    }
}

/// Whether `unit` is one of the powers of ten from 1 to 10^18.
pub open spec fn is_unit(unit: nat) -> bool {
    unit == 1 || unit == 10 || unit == 100 || unit == 1_000 || unit == 10_000 || unit == 100_000
        || unit == 1_000_000 || unit == 10_000_000 || unit == 100_000_000 || unit
        == 1_000_000_000 || unit == 10_000_000_000 || unit == 100_000_000_000 || unit
        == 1_000_000_000_000 || unit == 10_000_000_000_000 || unit == 100_000_000_000_000
        || unit == 1_000_000_000_000_000 || unit == 10_000_000_000_000_000 || unit
        == 100_000_000_000_000_000 || unit == 1_000_000_000_000_000_000
}

/// A power of ten is one, or ten times a power of ten.
pub proof fn lemma_unit_step(unit: nat)
    requires
        is_unit(unit),
    ensures
        unit == 1 || (unit == 10 * (unit / 10) && is_unit(unit / 10)),
{
}

/// Appends the decimal numeral of `value / unit` to `out`.
pub fn push_fixed(out: &mut String, value: u64, unit: u64)
    requires
        is_unit(unit as nat),
    ensures
        final(out)@ == old(out)@ + fixed_text(value as nat, unit as nat),
{
    push_decimal(out, value / unit);
    let mut frac: u64 = value % unit;
    if frac != 0 {
        out.push('.');
        let mut scale: u64 = unit / 10;
        let ghost head = old(out)@ + decimal((value / unit) as nat) + seq!['.'];
        let ghost all = fraction_digits((value % unit) as nat, (unit / 10) as nat);
        assert(out@ =~= head);
        while frac != 0
            invariant
                frac < 10 * scale || frac == 0,
                scale == 0 || is_unit(scale as nat),
                head + all == out@ + fraction_digits(frac as nat, scale as nat),
            decreases scale,
        {
            proof {
                lemma_unit_step(scale as nat);
            }
            assert(frac / scale < 10) by (nonlinear_arith)
                requires
                    frac < 10 * scale,
                    scale > 0,
            ;
            let d: u8 = (frac / scale) as u8;
            let ghost before = out@;
            out.push(digit(d));
            assert(before + fraction_digits(frac as nat, scale as nat) =~= out@ + fraction_digits(
                (frac % scale) as nat,
                (scale / 10) as nat,
            ));
            frac = frac % scale;
            scale = scale / 10;
        }
        assert(out@ + fraction_digits(0, scale as nat) =~= out@);
        assert(head + all =~= old(out)@ + fixed_text(value as nat, unit as nat));
    }
}

/// An owned copy of `piece`.
pub fn owned(piece: &str) -> (out: String)
    ensures
        out@ == piece@,
{
    piece.to_owned()
}

/// The decimal numeral of `n` as a text of its own.
pub fn decimal_text(n: u64) -> (out: String)
    ensures
        out@ == decimal(n as nat),
{
    let mut out = String::new();
    push_decimal(&mut out, n);
    assert(Seq::<char>::empty() + decimal(n as nat) =~= decimal(n as nat));
    out
}

/// The decimal numeral of `n`, with a minus sign where `n` is negative.
pub open spec fn signed_decimal(n: int) -> Seq<char> {
    if n < 0 {
        seq!['-'] + decimal((-n) as nat)
    } else {
        decimal(n as nat)
    }
}

/// Appends the decimal numeral of `n` to `out`.
pub fn push_signed_decimal(out: &mut String, n: i64)
    requires
        n > i64::MIN,
    ensures
        final(out)@ == old(out)@ + signed_decimal(n as int),
{
    if n < 0 {
        out.push('-');
        push_decimal(out, (-n) as u64);
        assert(out@ =~= old(out)@ + signed_decimal(n as int));
    } else {
        push_decimal(out, n as u64);
    }
}

/// The views of a list of texts, in order.
pub open spec fn texts(list: Seq<String>) -> Seq<Seq<char>> {
    Seq::new(list.len(), |i: int| list[i]@)
}

/// Appending a text to a list appends its view to the list's views.
pub proof fn lemma_texts_push(list: Seq<String>, last: String)
    ensures
        texts(list.push(last)) == texts(list).push(last@),
{
    assert(texts(list.push(last)) =~= texts(list).push(last@));
}

/// Appends a copy of `piece` to the list `args`.
pub fn push_arg(args: &mut Vec<String>, piece: &str)
    ensures
        texts(final(args)@) == texts(old(args)@).push(piece@),
{
    let item = owned(piece);
    proof {
        lemma_texts_push(args@, item);
    }
    args.push(item);
}

/// Appends the text `item` to the list `args`.
pub fn push_owned(args: &mut Vec<String>, item: String)
    ensures
        texts(final(args)@) == texts(old(args)@).push(item@),
{
    proof {
        lemma_texts_push(args@, item);
    }
    args.push(item);
}

/// Whether two texts are the same, character by character.
pub fn same_text(a: &str, b: &str) -> (same: bool)
    ensures
        same == (a@ == b@),
{
    let x = a.as_bytes();
    let y = b.as_bytes();
    proof {
        vstd::utf8::encode_utf8_decode_utf8(a@);
        vstd::utf8::encode_utf8_decode_utf8(b@);
        assert(x@ == vstd::utf8::encode_utf8(a@) && y@ == vstd::utf8::encode_utf8(b@));
        assert(a@ == b@ ==> x@ == y@);
        assert(x@ == y@ ==> a@ == b@);
    }
    if x.len() != y.len() {
        return false;
    }
    let mut i: usize = 0;
    while i < x.len()
        invariant
            i <= x.len(),
            x.len() == y.len(),
            forall|j: int| 0 <= j < i ==> x@[j] == y@[j],
            a@ == b@ ==> x@ == y@,
        decreases x.len() - i,
    {
        if x[i] != y[i] {
            return false;
        }
        i += 1;
    }
    assert(x@ =~= y@);
    true
}

/// The first place at which `item` stands in `list`, if it stands there.
pub open spec fn first_index(list: Seq<Seq<char>>, item: Seq<char>) -> Option<int>
    decreases list.len(),
{
    if list.len() == 0 {
        None
    } else if list[0] == item {
        Some(0int)
    } else {
        match first_index(list.drop_first(), item) {
            Some(i) => Some(i + 1),
            None => None,
        }
    }
}

/// `first_index` finds the first place of an item, and finds none exactly
/// where the item is not in the list.
pub proof fn lemma_first_index(list: Seq<Seq<char>>, item: Seq<char>)
    ensures
        match first_index(list, item) {
            Some(i) => 0 <= i < list.len() && list[i] == item && forall|j: int|
                0 <= j < i ==> list[j] != item,
            None => !list.contains(item),
        },
    decreases list.len(),
{
    if list.len() == 0 {
    } else if list[0] == item {
    } else {
        let rest = list.drop_first();
        lemma_first_index(rest, item);
        match first_index(rest, item) {
            Some(i) => {
                assert(list[i + 1] == rest[i]);
                assert forall|j: int| 0 <= j < i + 1 implies list[j] != item by {
                    if j > 0 {
                        assert(list[j] == rest[j - 1]);
                    }
                }
            },
            None => {
                assert forall|j: int| 0 <= j < list.len() implies list[j] != item by {
                    if j > 0 {
                        assert(list[j] == rest[j - 1]);
                        assert(rest.contains(rest[j - 1]));
                    }
                }
            },
        }
    }
}

/// The first place at which `item` stands in `list`.
pub fn find_text(list: &Vec<String>, item: &str) -> (found: Option<usize>)
    ensures
        match found {
            Some(i) => first_index(texts(list@), item@) == Some(i as int),
            None => first_index(texts(list@), item@) is None,
        },
{
    let mut i: usize = 0;
    while i < list.len()
        invariant
            i <= list.len(),
            forall|j: int| 0 <= j < i ==> texts(list@)[j] != item@,
        decreases list.len() - i,
    {
        if same_text(list[i].as_str(), item) {
            proof {
                lemma_first_index(texts(list@), item@);
                assert(texts(list@)[i as int] == item@);
                assert(texts(list@).contains(item@));
            }
            return Some(i);
        }
        i += 1;
    }
    proof {
        lemma_first_index(texts(list@), item@);
    }
    None
}

/// Whether `item` stands in `list`.
pub fn contains_text(list: &Vec<String>, item: &str) -> (found: bool)
    ensures
        found == texts(list@).contains(item@),
{
    proof {
        lemma_first_index(texts(list@), item@);
    }
    find_text(list, item).is_some()
}

/// Appends `piece` to `out`.
pub fn push_text(out: &mut String, piece: &str)
    ensures
        final(out)@ == old(out)@ + piece@,
{
    out.append(piece);
}

/// The characters of `text`, in a list.
pub fn chars_of(text: &str) -> (list: Vec<char>)
    ensures
        list@ == text@,
{
    let mut list: Vec<char> = Vec::new();
    for c in it: text.chars()
        invariant
            list@ == text@.take(it.index() as int),
            it.seq() == text@,
    {
        list.push(c);
    }
    list
}

/// The text made of the characters of `list` from `from` up to `to`.
pub fn text_of(list: &Vec<char>, from: usize, to: usize) -> (text: String)
    requires
        from <= to <= list.len(),
    ensures
        text@ == list@.subrange(from as int, to as int),
{
    let mut text = String::new();
    let mut i: usize = from;
    while i < to
        invariant
            from <= i <= to <= list.len(),
            text@ == list@.subrange(from as int, i as int),
        decreases to - i,
    {
        text.push(list[i]);
        assert(text@ =~= list@.subrange(from as int, i as int + 1));
        i += 1;
    }
    text
}

/// Whether `text` begins with `prefix`.
pub open spec fn has_prefix(text: Seq<char>, prefix: Seq<char>) -> bool {
    prefix.len() <= text.len() && text.take(prefix.len() as int) == prefix
}

/// Whether `text` ends with `suffix`.
pub open spec fn has_suffix(text: Seq<char>, suffix: Seq<char>) -> bool {
    suffix.len() <= text.len() && text.skip(text.len() - suffix.len()) == suffix
}

/// Whether the characters of `list` from `at` on begin with `piece`.
pub fn matches_at(list: &Vec<char>, at: usize, piece: &Vec<char>) -> (same: bool)
    requires
        at <= list.len(),
    ensures
        same == has_prefix(list@.skip(at as int), piece@),
{
    if piece.len() > list.len() - at {
        return false;
    }
    let ghost rest = list@.skip(at as int);
    let mut i: usize = 0;
    while i < piece.len()
        invariant
            i <= piece.len() <= list.len() - at,
            rest == list@.skip(at as int),
            forall|j: int| 0 <= j < i ==> rest[j] == piece@[j],
        decreases piece.len() - i,
    {
        if list[at + i] != piece[i] {
            assert(rest.take(piece.len() as int)[i as int] != piece@[i as int]);
            return false;
        }
        i += 1;
    }
    assert(rest.take(piece.len() as int) =~= piece@);
    true
}

/// Whether `text` begins with `prefix`.
pub fn starts_with(text: &str, prefix: &str) -> (begins: bool)
    ensures
        begins == has_prefix(text@, prefix@),
{
    let list = chars_of(text);
    let piece = chars_of(prefix);
    assert(list@.skip(0) =~= list@);
    matches_at(&list, 0, &piece)
}

/// Whether `text` ends with `suffix`.
pub fn ends_with(text: &str, suffix: &str) -> (ends: bool)
    ensures
        ends == has_suffix(text@, suffix@),
{
    let list = chars_of(text);
    let piece = chars_of(suffix);
    if piece.len() > list.len() {
        return false;
    }
    let at = list.len() - piece.len();
    let ghost rest = list@.skip(at as int);
    assert(rest.take(piece.len() as int) =~= rest);
    matches_at(&list, at, &piece)
}

} // verus!
