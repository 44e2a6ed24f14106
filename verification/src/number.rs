//! Tells integers from other numbers by the decimal value of a literal.

use crate::lexer::{char_at, digits_end, is_digit, number_shape};
use crate::text::chars_of;
use crate::types::{PrefValue, PrefValueView};
use vstd::prelude::*;
use vstd::string::StringExecFns;

verus! {

/// The value of a decimal digit; 0 for any other character.
pub open spec fn digit_of(ch: char) -> nat {
    if is_digit(ch) {
        (ch as nat - 48) as nat
    } else {
        0
    }
}

/// The number that the decimal digits `digits` write.
pub open spec fn digits_value(digits: Seq<char>) -> nat
    decreases digits.len(),
{
    if digits.len() == 0 {
        0
    } else {
        10 * digits_value(digits.drop_last()) + digit_of(digits.last())
    }
}

/// `count` zeros.
pub open spec fn zeros(count: nat) -> Seq<char> {
    Seq::new(count, |i: int| '0')
}

/// A number literal taken apart: its sign, its digits with the point removed,
/// and the place of the point after the exponent has moved it. The literal's
/// value has the first `point` digits before the point; a `point` below zero or
/// beyond the last digit stands for zeros in between.
pub struct Decimal {
    pub negative: bool,
    pub digits: Seq<char>,
    pub point: int,
}

/// The parts of the literal `text`.
pub open spec fn decimal_of(text: Seq<char>) -> Decimal {
    let shape = number_shape(text, 0);
    let int_digits = text.subrange(shape.int_start as int, shape.int_end as int);
    let frac_digits = if shape.frac_end > shape.int_end {
        text.subrange(shape.int_end + 1 as int, shape.frac_end as int)
    } else {
        Seq::empty()
    };
    let magnitude = digits_value(text.subrange(shape.exp_digits as int, shape.end as int));
    let exponent = if !shape.has_exp {
        0
    } else if char_at(text, shape.exp_start, '-') {
        -magnitude
    } else {
        magnitude as int
    };
    Decimal {
        negative: shape.int_start == 1,
        digits: int_digits + frac_digits,
        point: int_digits.len() + exponent,
    }
}

impl Decimal {
    /// The digits before the point.
    pub open spec fn whole_digits(self) -> Seq<char> {
        if self.point <= 0 {
            Seq::empty()
        } else if self.point <= self.digits.len() {
            self.digits.take(self.point)
        } else {
            self.digits + zeros((self.point - self.digits.len()) as nat)
        }
    }

    /// The digits behind the point, without the zeros that a point before the
    /// first digit stands for.
    pub open spec fn fraction_digits(self) -> Seq<char> {
        if self.point <= 0 {
            self.digits
        } else if self.point >= self.digits.len() {
            Seq::empty()
        } else {
            self.digits.skip(self.point)
        }
    }

    /// Whether the value has no fractional part.
    pub open spec fn is_whole(self) -> bool {
        forall|i: int|
            0 <= i < self.fraction_digits().len() ==> digit_of(#[trigger] self.fraction_digits()[i])
                == 0
    }

    /// The value, where it is whole.
    pub open spec fn whole_value(self) -> int {
        if self.negative {
            -(digits_value(self.whole_digits()) as int)
        } else {
            digits_value(self.whole_digits()) as int
        }
    }
}

/// The value of the literal `text` with the parts `d`: an integer where the
/// decimal value is whole and fits in 64 signed bits, else a float that keeps
/// the text.
pub open spec fn classify(d: Decimal, text: Seq<char>) -> PrefValueView {
    if d.is_whole() && i64::MIN <= d.whole_value() <= i64::MAX {
        PrefValueView::Integer(d.whole_value())
    } else {
        PrefValueView::Float(text)
    }
}

/// The value of the number literal `text`.
pub open spec fn number_value(text: Seq<char>) -> PrefValueView {
    classify(decimal_of(text), text)
}

/// Appending digits never lowers the number written.
pub proof fn digits_value_grows(head: Seq<char>, tail: Seq<char>)
    ensures
        digits_value(head) <= digits_value(head + tail),
    decreases tail.len(),
{
    if tail.len() == 0 {
        assert(head + tail == head);
    } else {
        assert((head + tail).drop_last() == head + tail.drop_last());
        digits_value_grows(head, tail.drop_last());
    }
}

/// One more digit multiplies by ten and adds the digit.
pub proof fn digits_value_push(digits: Seq<char>, ch: char)
    ensures
        digits_value(digits.push(ch)) == 10 * digits_value(digits) + digit_of(ch),
{
    assert(digits.push(ch).drop_last() == digits);
}

/// Zeros behind digits that write zero still write zero.
pub proof fn digits_value_zero_padded(digits: Seq<char>, count: nat)
    requires
        digits_value(digits) == 0,
    ensures
        digits_value(digits + zeros(count)) == 0,
    decreases count,
{
    if count == 0 {
        assert(digits + zeros(count) == digits);
    } else {
        digits_value_zero_padded(digits, (count - 1) as nat);
        assert(digits + zeros(count) == (digits + zeros((count - 1) as nat)).push('0'));
        digits_value_push(digits + zeros((count - 1) as nat), '0');
    }
}

fn is_digit_at(chars: &Vec<char>, pos: usize) -> (yes: bool)
    ensures
        yes == (pos < chars.len() && is_digit(chars@[pos as int])),
{
    pos < chars.len() && '0' <= chars[pos] && chars[pos] <= '9'
}

fn has_char_at(chars: &Vec<char>, pos: usize, ch: char) -> (yes: bool)
    ensures
        yes == char_at(chars@, pos as nat, ch),
{
    pos < chars.len() && chars[pos] == ch
}

fn digits_end_at(chars: &Vec<char>, pos: usize) -> (end: usize)
    requires
        pos <= chars.len(),
    ensures
        end == digits_end(chars@, pos as nat),
        pos <= end <= chars.len(),
{
    let mut end = pos;
    while is_digit_at(chars, end)
        invariant
            pos <= end <= chars.len(),
            digits_end(chars@, end as nat) == digits_end(chars@, pos as nat),
        decreases chars.len() - end,
    {
        end += 1;
    }
    end
}

fn digit_number(ch: char) -> (d: u128)
    ensures
        d == digit_of(ch),
        d <= 9,
{
    if '0' <= ch && ch <= '9' {
        (ch as u32 - 48) as u128
    } else {
        0
    }
}

/// The largest magnitude that the exponent is counted up to: beyond it the
/// point lies outside the digits whatever the exact exponent is.
pub const EXPONENT_CAP: u128 = 1_000_000_000_000_000_000_000_000_000_000;

/// The largest magnitude of a 64-bit signed integer.
pub const MAGNITUDE_LIMIT: u128 = 0x8000_0000_0000_0000;

/// The number written by `chars[from..to]`, counted up to the cap.
fn capped_value(chars: &Vec<char>, from: usize, to: usize) -> (out: u128)
    requires
        from <= to <= chars.len(),
    ensures
        out <= EXPONENT_CAP,
        out < EXPONENT_CAP ==> out == digits_value(chars@.subrange(from as int, to as int)),
        out == EXPONENT_CAP ==> digits_value(chars@.subrange(from as int, to as int))
            >= EXPONENT_CAP,
{
    let mut acc: u128 = 0;
    let mut i = from;
    assert(chars@.subrange(from as int, from as int) == Seq::<char>::empty());
    while i < to
        invariant
            from <= i <= to <= chars.len(),
            acc < EXPONENT_CAP,
            acc == digits_value(chars@.subrange(from as int, i as int)),
        decreases to - i,
    {
        let d = digit_number(chars[i]);
        proof {
            assert(chars@.subrange(from as int, i + 1) == chars@.subrange(
                from as int,
                i as int,
            ).push(chars@[i as int]));
            digits_value_push(chars@.subrange(from as int, i as int), chars@[i as int]);
        }
        let next = acc * 10 + d;
        if next >= EXPONENT_CAP {
            proof {
                assert(chars@.subrange(from as int, to as int) == chars@.subrange(
                    from as int,
                    i + 1,
                ) + chars@.subrange(i + 1, to as int));
                digits_value_grows(
                    chars@.subrange(from as int, i + 1),
                    chars@.subrange(i + 1, to as int),
                );
            }
            return EXPONENT_CAP;
        }
        acc = next;
        i += 1;
    }
    acc
}

/// The number written by the first `count` of `digits`, or `None` where it is
/// beyond the magnitude of every 64-bit integer.
fn bounded_value(digits: &Vec<char>, count: usize) -> (out: Option<u128>)
    requires
        count <= digits.len(),
    ensures
        match out {
            Some(v) => v == digits_value(digits@.take(count as int)) && v <= MAGNITUDE_LIMIT,
            None => digits_value(digits@.take(count as int)) > MAGNITUDE_LIMIT,
        },
{
    let mut acc: u128 = 0;
    let mut i: usize = 0;
    assert(digits@.take(0) == Seq::<char>::empty());
    while i < count
        invariant
            i <= count <= digits.len(),
            acc <= MAGNITUDE_LIMIT,
            acc == digits_value(digits@.take(i as int)),
        decreases count - i,
    {
        let d = digit_number(digits[i]);
        proof {
            assert(digits@.take(i + 1) == digits@.take(i as int).push(digits@[i as int]));
            digits_value_push(digits@.take(i as int), digits@[i as int]);
        }
        let next = acc * 10 + d;
        if next > MAGNITUDE_LIMIT {
            proof {
                assert(digits@.take(count as int) == digits@.take(i + 1) + digits@.subrange(
                    i + 1,
                    count as int,
                ));
                digits_value_grows(digits@.take(i + 1), digits@.subrange(i + 1, count as int));
            }
            return None;
        }
        acc = next;
        i += 1;
    }
    Some(acc)
}

/// Whether every one of `digits[from..]` is a zero.
fn all_zero_from(digits: &Vec<char>, from: usize) -> (yes: bool)
    requires
        from <= digits.len(),
    ensures
        yes == (forall|i: int| from <= i < digits.len() ==> digit_of(#[trigger] digits@[i]) == 0),
{
    let mut i = from;
    while i < digits.len()
        invariant
            from <= i <= digits.len(),
            forall|k: int| from <= k < i ==> digit_of(#[trigger] digits@[k]) == 0,
        decreases digits.len() - i,
    {
        if digit_number(digits[i]) != 0 {
            return false;
        }
        i += 1;
    }
    true
}

/// The integer of magnitude `magnitude` and the sign given, if it fits.
fn signed(negative: bool, magnitude: u128) -> (out: Option<i64>)
    requires
        magnitude <= MAGNITUDE_LIMIT,
    ensures
        ({
            let v = if negative {
                -(magnitude as int)
            } else {
                magnitude as int
            };
            match out {
                Some(i) => i == v,
                None => !(i64::MIN <= v <= i64::MAX),
            }
        }),
{
    if negative {
        if magnitude == MAGNITUDE_LIMIT {
            Some(i64::MIN)
        } else {
            Some(-(magnitude as i64))
        }
    } else if magnitude == MAGNITUDE_LIMIT {
        None
    } else {
        Some(magnitude as i64)
    }
}

/// Appends `chars[from..to]` to `out`.
fn copy_range(chars: &Vec<char>, from: usize, to: usize, out: &mut Vec<char>)
    requires
        from <= to <= chars.len(),
    ensures
        final(out)@ == old(out)@ + chars@.subrange(from as int, to as int),
{
    let mut i = from;
    assert(chars@.subrange(from as int, from as int) == Seq::<char>::empty());
    assert(out@ + Seq::<char>::empty() == out@);
    while i < to
        invariant
            from <= i <= to <= chars.len(),
            out@ == old(out)@ + chars@.subrange(from as int, i as int),
        decreases to - i,
    {
        assert(chars@.subrange(from as int, i + 1) == chars@.subrange(from as int, i as int).push(
            chars@[i as int],
        ));
        out.push(chars[i]);
        i += 1;
    }
}

/// The number written by `digits` followed by `pad` zeros, where `digits`
/// alone write `value`; `None` where it is beyond the magnitude of every
/// 64-bit integer.
fn padded_value(value: u128, pad: u128, Ghost(digits): Ghost<Seq<char>>, Ghost(true_pad): Ghost<
    nat,
>) -> (out: Option<u128>)
    requires
        value == digits_value(digits),
        value <= MAGNITUDE_LIMIT,
        pad <= true_pad,
        pad < true_pad ==> pad > MAGNITUDE_LIMIT,
    ensures
        match out {
            Some(v) => v == digits_value(digits + zeros(true_pad)) && v <= MAGNITUDE_LIMIT,
            None => digits_value(digits + zeros(true_pad)) > MAGNITUDE_LIMIT,
        },
{
    if value == 0 {
        proof {
            digits_value_zero_padded(digits, true_pad);
        }
        return Some(0);
    }
    let mut acc = value;
    let mut done: u128 = 0;
    assert(digits + zeros(0) == digits);
    while done < pad
        invariant
            done <= pad <= true_pad,
            1 <= acc <= MAGNITUDE_LIMIT,
            done < acc,
            acc == digits_value(digits + zeros(done as nat)),
        decreases MAGNITUDE_LIMIT - acc,
    {
        proof {
            assert(digits + zeros((done + 1) as nat) == (digits + zeros(done as nat)).push('0'));
            digits_value_push(digits + zeros(done as nat), '0');
        }
        if acc > MAGNITUDE_LIMIT / 10 {
            proof {
                let reached = digits + zeros((done + 1) as nat);
                let rest = zeros((true_pad - done - 1) as nat);
                assert(digits + zeros(true_pad) == reached + rest);
                digits_value_grows(reached, rest);
            }
            return None;
        }
        acc = acc * 10;
        done += 1;
    }
    Some(acc)
}

/// A float that keeps the literal's text.
fn float_of(text: &str) -> (out: PrefValue)
    ensures
        out@ == PrefValueView::Float(text@),
{
    PrefValue::Float(String::from_str(text))
}

/// An integer, or the float of `text` where there is none.
fn integer_or_float(value: Option<i64>, text: &str) -> (out: PrefValue)
    ensures
        out@ == (match value {
            Some(i) => PrefValueView::Integer(i as int),
            None => PrefValueView::Float(text@),
        }),
{
    match value {
        Some(i) => PrefValue::Integer(i),
        None => float_of(text),
    }
}

/// A number literal taken apart by the executable code: as [`Decimal`], but
/// with the exponent counted up to [`EXPONENT_CAP`] only.
struct Parts {
    negative: bool,
    digits: Vec<char>,
    int_len: usize,
    exp_negative: bool,
    magnitude: u128,
}

impl Parts {
    /// Whether these are the parts `d`.
    spec fn agrees(self, d: Decimal) -> bool {
        &&& self.negative == d.negative
        &&& self.digits@ == d.digits
        &&& self.int_len <= self.digits.len()
        &&& self.magnitude <= EXPONENT_CAP
        &&& if self.magnitude < EXPONENT_CAP {
            d.point == (if self.exp_negative {
                self.int_len - self.magnitude
            } else {
                self.int_len + self.magnitude
            })
        } else if self.exp_negative {
            d.point <= self.int_len - self.magnitude
        } else {
            d.point >= self.int_len + self.magnitude
        }
    }
}

/// Where the parts of a literal end, as the executable code finds them.
struct Span {
    int_start: usize,
    int_end: usize,
    frac_end: usize,
    has_exp: bool,
    exp_start: usize,
    exp_digits: usize,
    end: usize,
}

impl Span {
    /// Whether this is the shape `shape`, inside a text of `len` characters.
    spec fn is(self, shape: crate::lexer::NumberShape, len: nat) -> bool {
        &&& self.int_start == shape.int_start
        &&& self.int_end == shape.int_end
        &&& self.frac_end == shape.frac_end
        &&& self.has_exp == shape.has_exp
        &&& self.exp_start == shape.exp_start
        &&& self.exp_digits == shape.exp_digits
        &&& self.end == shape.end
        &&& self.int_start <= self.int_end <= self.frac_end <= self.exp_start <= self.exp_digits
            <= self.end <= len
        &&& self.int_start <= 1
    }
}

/// Finds where the mantissa of the literal `chars` ends.
fn mantissa_span(chars: &Vec<char>) -> (ends: (usize, usize, usize))
    ensures
        ends.0 == number_shape(chars@, 0).int_start,
        ends.1 == number_shape(chars@, 0).int_end,
        ends.2 == number_shape(chars@, 0).frac_end,
        ends.0 <= 1,
        ends.0 <= ends.1 <= ends.2 <= chars.len(),
{
    let int_start: usize = if has_char_at(chars, 0, '-') {
        1
    } else {
        0
    };
    let int_end = digits_end_at(chars, int_start);
    let frac_end = if has_char_at(chars, int_end, '.') {
        digits_end_at(chars, int_end + 1)
    } else {
        int_end
    };
    (int_start, int_end, frac_end)
}

/// Finds where the parts of the literal `chars` end.
fn span_of(chars: &Vec<char>) -> (span: Span)
    ensures
        span.is(number_shape(chars@, 0), chars@.len()),
{
    let (int_start, int_end, frac_end) = mantissa_span(chars);
    let has_exp = has_char_at(chars, frac_end, 'e') || has_char_at(chars, frac_end, 'E');
    if !has_exp {
        return Span {
            int_start,
            int_end,
            frac_end,
            has_exp,
            exp_start: frac_end,
            exp_digits: frac_end,
            end: frac_end,
        };
    }
    let exp_start = frac_end + 1;
    let signed = has_char_at(chars, exp_start, '+') || has_char_at(chars, exp_start, '-');
    let exp_digits = if signed {
        exp_start + 1
    } else {
        exp_start
    };
    let end = digits_end_at(chars, exp_digits);
    Span { int_start, int_end, frac_end, has_exp, exp_start, exp_digits, end }
}

/// The digits of the mantissa of the literal `chars`, without the point.
fn mantissa_digits(chars: &Vec<char>, int_start: usize, int_end: usize, frac_end: usize) -> (digits:
    Vec<char>)
    requires
        int_start <= int_end <= frac_end <= chars.len(),
    ensures
        digits@ == chars@.subrange(int_start as int, int_end as int) + (if frac_end > int_end {
            chars@.subrange(int_end + 1, frac_end as int)
        } else {
            Seq::empty()
        }),
{
    let mut digits: Vec<char> = Vec::new();
    copy_range(chars, int_start, int_end, &mut digits);
    let ghost int_digits = chars@.subrange(int_start as int, int_end as int);
    assert(Seq::<char>::empty() + int_digits == int_digits);
    if frac_end > int_end {
        copy_range(chars, int_end + 1, frac_end, &mut digits);
    } else {
        assert(int_digits + Seq::<char>::empty() == int_digits);
    }
    digits
}

/// Takes the literal `chars` apart.
fn take_apart(chars: &Vec<char>) -> (parts: Parts)
    ensures
        parts.agrees(decimal_of(chars@)),
{
    let span = span_of(chars);
    let digits = mantissa_digits(chars, span.int_start, span.int_end, span.frac_end);
    let exp_negative = span.has_exp && has_char_at(chars, span.exp_start, '-');
    let magnitude: u128 = if span.has_exp {
        capped_value(chars, span.exp_digits, span.end)
    } else {
        0
    };
    Parts {
        negative: span.int_start == 1,
        digits,
        int_len: span.int_end - span.int_start,
        exp_negative,
        magnitude,
    }
}

/// The value where the point lies before the first digit.
fn value_before(digits: &Vec<char>, text: &str, Ghost(d): Ghost<Decimal>) -> (out: PrefValue)
    requires
        digits@ == d.digits,
        d.point <= 0,
    ensures
        out@ == classify(d, text@),
{
    assert(d.fraction_digits() == digits@);
    if all_zero_from(digits, 0) {
        assert(d.whole_digits() == Seq::<char>::empty());
        assert(d.is_whole());
        PrefValue::Integer(0)
    } else {
        assert(!d.is_whole());
        float_of(text)
    }
}

/// The value where the point lies among the digits or right behind them.
fn value_inside(digits: &Vec<char>, point: usize, negative: bool, text: &str, Ghost(d): Ghost<
    Decimal,
>) -> (out: PrefValue)
    requires
        digits@ == d.digits,
        negative == d.negative,
        d.point == point,
        0 < point <= digits.len(),
    ensures
        out@ == classify(d, text@),
{
    if !all_zero_from(digits, point) {
        assert(!d.is_whole()) by {
            let i = choose|i: int|
                point <= i < digits.len() && digit_of(#[trigger] digits@[i]) != 0;
            assert(d.fraction_digits()[i - point] == digits@[i]);
        }
        return float_of(text);
    }
    assert(d.is_whole()) by {
        assert forall|i: int| 0 <= i < d.fraction_digits().len() implies digit_of(
            #[trigger] d.fraction_digits()[i],
        ) == 0 by {
            assert(d.fraction_digits()[i] == digits@[i + point]);
        }
    }
    match bounded_value(digits, point) {
        Some(v) => integer_or_float(signed(negative, v), text),
        None => float_of(text),
    }
}

/// The value where the point lies `pad` places beyond the last digit; `pad`
/// may be short of the true distance where that is beyond the exponent cap.
fn value_beyond(digits: &Vec<char>, pad: u128, negative: bool, text: &str, Ghost(d): Ghost<
    Decimal,
>) -> (out: PrefValue)
    requires
        digits@ == d.digits,
        negative == d.negative,
        d.point > digits.len(),
        pad <= d.point - digits.len(),
        pad < d.point - digits.len() ==> pad > MAGNITUDE_LIMIT,
    ensures
        out@ == classify(d, text@),
{
    let ghost true_pad = (d.point - digits.len()) as nat;
    assert(d.fraction_digits() == Seq::<char>::empty());
    assert(digits@.take(digits.len() as int) == digits@);
    match bounded_value(digits, digits.len()) {
        Some(v) => match padded_value(v, pad, Ghost(digits@), Ghost(true_pad)) {
            Some(w) => integer_or_float(signed(negative, w), text),
            None => float_of(text),
        },
        None => {
            proof {
                digits_value_grows(digits@, zeros(true_pad));
            }
            float_of(text)
        },
    }
}

impl PrefValue {
    /// The value of the number literal `text`.
    pub fn from_number(text: &str) -> (out: PrefValue)
        ensures
            out@ == number_value(text@),
    {
        let chars = chars_of(text);
        let parts = take_apart(&chars);
        let ghost d = decimal_of(text@);
        let int_len = parts.int_len as u128;
        let len = parts.digits.len() as u128;
        let before = if parts.exp_negative {
            parts.magnitude >= int_len
        } else {
            int_len == 0 && parts.magnitude == 0
        };
        if before {
            value_before(&parts.digits, text, Ghost(d))
        } else {
            let point: u128 = if parts.exp_negative {
                int_len - parts.magnitude
            } else {
                int_len + parts.magnitude
            };
            if point <= len {
                value_inside(&parts.digits, point as usize, parts.negative, text, Ghost(d))
            } else {
                value_beyond(&parts.digits, point - len, parts.negative, text, Ghost(d))
            }
        }
    }
}

} // verus!
