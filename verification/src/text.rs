//! Text that the programs print: decimal numbers, durations, booleans and lists of lines.

use vstd::arithmetic::power::{lemma_pow0, pow};
use vstd::prelude::*;

verus! {

/// The decimal digit `d`.
pub open spec fn digit(d: nat) -> char
    recommends
        d < 10,
{
    "0123456789"@[d as int]
}

/// The number `n` in decimal, without leading zeros.
pub open spec fn decimal(n: nat) -> Seq<char>
    decreases n,
{
    if n < 10 {
        seq![digit(n)]
    } else {
        decimal(n / 10).push(digit(n % 10))
    }
}

/// The digits of `rest / scale` after the decimal point, where `scale` is a power of ten and
/// `rest < scale`. They stop once nothing is left, so none of them is a trailing zero.
pub open spec fn fraction(rest: nat, scale: nat) -> Seq<char>
    decreases scale,
{
    if rest == 0 || scale < 10 {
        Seq::empty()
    } else {
        seq![digit(rest / (scale / 10))] + fraction(rest % (scale / 10), scale / 10)
    }
}

/// Whether `n` is a power of ten.
pub open spec fn power_of_ten(n: nat) -> bool
    decreases n,
{
    n == 1 || (n >= 10 && n % 10 == 0 && power_of_ten(n / 10))
}

/// `whole + rest / scale` in decimal.
pub open spec fn scaled(whole: nat, rest: nat, scale: nat) -> Seq<char> {
    if rest == 0 {
        decimal(whole)
    } else {
        decimal(whole) + "."@ + fraction(rest, scale)
    }
}

/// The length of time `secs` seconds and `nanos` nanoseconds in the largest unit of which it
/// holds at least one, exactly: `1.5s`, `500ms`, `20µs`, `7ns`.
pub open spec fn duration(secs: nat, nanos: nat) -> Seq<char> {
    if secs > 0 {
        scaled(secs, nanos, 1_000_000_000) + "s"@
    } else if nanos >= 1_000_000 {
        scaled(nanos / 1_000_000, nanos % 1_000_000, 1_000_000) + "ms"@
    } else if nanos >= 1_000 {
        scaled(nanos / 1_000, nanos % 1_000, 1_000) + "µs"@
    } else {
        decimal(nanos) + "ns"@
    }
}

/// The length of time `millis` milliseconds.
pub open spec fn millis_duration(millis: nat) -> Seq<char> {
    duration(millis / 1_000, millis % 1_000 * 1_000_000)
}

/// `true` or `false`.
pub open spec fn boolean(b: bool) -> Seq<char> {
    if b {
        "true"@
    } else {
        "false"@
    }
}

/// The texts of a list of lines.
pub open spec fn texts(lines: Seq<String>) -> Seq<Seq<char>> {
    lines.map_values(|line: String| line@)
}

/// The number that the digits `s` stand for.
pub open spec fn decimal_value(s: Seq<char>) -> int
    decreases s.len(),
{
    if s.len() == 0 {
        0
    } else {
        10 * decimal_value(s.drop_last()) + (s.last() as int - '0' as int)
    }
}

proof fn lemma_digit(d: nat)
    requires
        d < 10,
    ensures
        digit(d) as int == '0' as int + d,
{
    reveal_strlit("0123456789");
}

/// Reading a decimal number back gives the number that was written.
pub proof fn law_decimal_reads_back(n: nat)
    ensures
        decimal_value(decimal(n)) == n,
    decreases n,
{
    lemma_digit(n % 10);
    if n < 10 {
        assert(decimal(n).drop_last() =~= Seq::empty());
        assert(decimal_value(decimal(n).drop_last()) == 0);
    } else {
        law_decimal_reads_back(n / 10);
        assert(decimal(n).drop_last() =~= decimal(n / 10));
    }
}

proof fn lemma_decimal_value_first(first: nat, rest: Seq<char>)
    requires
        first < 10,
    ensures
        decimal_value(seq![digit(first)] + rest) == first * pow(10, rest.len()) + decimal_value(rest),
    decreases rest.len(),
{
    let s = seq![digit(first)] + rest;
    lemma_digit(first);
    if rest.len() == 0 {
        assert(s.drop_last() =~= Seq::empty());
        assert(decimal_value(s.drop_last()) == 0);
        lemma_pow0(10);
    } else {
        assert(s.drop_last() =~= seq![digit(first)] + rest.drop_last());
        lemma_decimal_value_first(first, rest.drop_last());
        let n = (rest.len() - 1) as nat;
        lemma_pow_plus_one(n);
        assert(first * (10 * pow(10, n)) == 10 * (first * pow(10, n))) by (nonlinear_arith);
    }
}

proof fn lemma_pow_plus_one(n: nat)
    ensures
        pow(10, n + 1) == 10 * pow(10, n),
{
    reveal(pow);
}

/// The digits after the decimal point say exactly what is left: read as a number over the power
/// of ten that goes with their count, they equal `rest / scale`. None of them is a trailing zero.
pub proof fn law_fraction_is_exact(rest: nat, scale: nat)
    requires
        rest < scale,
        power_of_ten(scale),
    ensures
        decimal_value(fraction(rest, scale)) * scale == rest * pow(
            10,
            fraction(rest, scale).len(),
        ),
        rest > 0 ==> fraction(rest, scale).len() > 0 && fraction(rest, scale).last() != '0',
    decreases scale,
{
    if rest > 0 {
        let below = scale / 10;
        let first = rest / below;
        let left = rest % below;
        let tail = fraction(left, below);
        assert(first < 10 && rest == first * below + left && left < below) by (nonlinear_arith)
            requires
                rest < 10 * below,
                below > 0,
                first == rest / below,
                left == rest % below,
        ;
        law_fraction_is_exact(left, below);
        lemma_decimal_value_first(first, tail);
        lemma_pow_plus_one(tail.len());
        lemma_digit(first);
        let p = pow(10, tail.len());
        let v = decimal_value(tail);
        assert((first * p + v) * (10 * below) == (first * below + left) * (10 * p)) by (nonlinear_arith)
            requires
                v * below == left * p,
        ;
        if left == 0 {
            assert(first > 0);
            assert(fraction(rest, scale) =~= seq![digit(first)]);
        } else {
            assert(fraction(rest, scale).last() == tail.last());
        }
    }
}

/// Whether `c` is a decimal digit.
pub open spec fn is_digit(c: char) -> bool {
    '0' as int <= c as int <= '9' as int
}

/// A decimal number is made of digits alone, at least one, and begins with a zero only where it
/// is zero.
pub proof fn law_decimal_is_made_of_digits(n: nat)
    ensures
        decimal(n).len() > 0,
        forall|i: int| 0 <= i < decimal(n).len() ==> is_digit(#[trigger] decimal(n)[i]),
        n == 0 ==> decimal(n) == seq!['0'],
        n > 0 ==> decimal(n).first() != '0',
    decreases n,
{
    lemma_digit(n % 10);
    if n < 10 {
        assert(n == 0 ==> decimal(n) =~= seq!['0']);
    } else {
        law_decimal_is_made_of_digits(n / 10);
        assert(decimal(n).first() == decimal(n / 10).first());
    }
}

/// The last digit of a number follows the digits of the number without it.
pub proof fn law_decimal_ends_with_the_last_digit(n: nat, last: nat)
    requires
        n > 0,
        last < 10,
    ensures
        decimal(10 * n + last) == decimal(n) + decimal(last),
{
    assert((10 * n + last) / 10 == n && (10 * n + last) % 10 == last);
    assert(decimal(10 * n + last) =~= decimal(n) + decimal(last));
}

proof fn lemma_fraction_digits(rest: nat, scale: nat)
    requires
        rest < scale,
        power_of_ten(scale),
    ensures
        forall|i: int|
            0 <= i < fraction(rest, scale).len() ==> is_digit(#[trigger] fraction(rest, scale)[i]),
    decreases scale,
{
    if rest > 0 {
        let below = scale / 10;
        assert(rest / below < 10 && rest % below < below) by (nonlinear_arith)
            requires
                rest < 10 * below,
                below > 0,
        ;
        lemma_digit(rest / below);
        lemma_fraction_digits(rest % below, below);
        let digits = fraction(rest, scale);
        assert forall|i: int| 0 <= i < digits.len() implies is_digit(#[trigger] digits[i]) by {
            if i > 0 {
                assert(digits[i] == fraction(rest % below, below)[i - 1]);
            }
        }
    }
}

/// Whether `text` is `amount / unit` in decimal, exactly, with these digits after the point and
/// `name` behind. There is no point without digits behind it, and no zero at their end.
pub open spec fn says_with_digits(
    text: Seq<char>,
    amount: nat,
    unit: nat,
    name: Seq<char>,
    digits: Seq<char>,
) -> bool {
    &&& text == decimal(amount / unit) + (if digits.len() == 0 {
        Seq::empty()
    } else {
        "."@ + digits
    }) + name
    &&& forall|i: int| 0 <= i < digits.len() ==> is_digit(#[trigger] digits[i])
    &&& digits.len() > 0 ==> digits.last() != '0'
    &&& decimal_value(digits) * unit == (amount % unit) * pow(10, digits.len())
}

/// Whether `text` is `amount / unit` in decimal, exactly, with `name` behind.
pub open spec fn says(text: Seq<char>, amount: nat, unit: nat, name: Seq<char>) -> bool {
    exists|digits: Seq<char>| #[trigger] says_with_digits(text, amount, unit, name, digits)
}

/// Whether `text` gives a length of time exactly, in the largest unit of which it holds at least
/// one.
pub open spec fn says_time(text: Seq<char>, nanos: nat) -> bool {
    if nanos >= 1_000_000_000 {
        says(text, nanos, 1_000_000_000, "s"@)
    } else if nanos >= 1_000_000 {
        says(text, nanos, 1_000_000, "ms"@)
    } else if nanos >= 1_000 {
        says(text, nanos, 1_000, "µs"@)
    } else {
        text == decimal(nanos) + "ns"@
    }
}

proof fn lemma_scaled(whole: nat, rest: nat, scale: nat, name: Seq<char>)
    requires
        rest < scale,
        power_of_ten(scale),
    ensures
        says(scaled(whole, rest, scale) + name, whole * scale + rest, scale, name),
{
    let digits = fraction(rest, scale);
    law_fraction_is_exact(rest, scale);
    lemma_fraction_digits(rest, scale);
    let amount = whole * scale + rest;
    assert(amount / scale == whole && amount % scale == rest) by (nonlinear_arith)
        requires
            amount == whole * scale + rest,
            rest < scale,
    ;
    assert(scaled(whole, rest, scale) =~= decimal(whole) + (if digits.len() == 0 {
        Seq::empty()
    } else {
        "."@ + digits
    }));
    assert(says_with_digits(scaled(whole, rest, scale) + name, amount, scale, name, digits));
}

/// A length of time is given exactly, whatever its seconds and nanoseconds are.
pub proof fn law_duration_is_exact(secs: nat, nanos: nat)
    requires
        nanos < 1_000_000_000,
    ensures
        says_time(duration(secs, nanos), secs * 1_000_000_000 + nanos),
{
    reveal_with_fuel(power_of_ten, 10);
    if secs > 0 {
        lemma_scaled(secs, nanos, 1_000_000_000, "s"@);
    } else if nanos >= 1_000_000 {
        lemma_scaled(nanos / 1_000_000, nanos % 1_000_000, 1_000_000, "ms"@);
    } else if nanos >= 1_000 {
        lemma_scaled(nanos / 1_000, nanos % 1_000, 1_000, "µs"@);
    }
}

/// A number of milliseconds is given as that length of time, exactly.
pub proof fn law_millis_duration_is_exact(millis: nat)
    ensures
        says_time(millis_duration(millis), millis * 1_000_000),
{
    law_duration_is_exact(millis / 1_000, millis % 1_000 * 1_000_000);
}

/// How the deadlines of the programs read.
pub proof fn lemma_deadlines()
    ensures
        millis_duration(500) == "500ms"@,
        millis_duration(2_000) == "2s"@,
        millis_duration(20_000) == "20s"@,
{
    reveal_strlit("0123456789");
    reveal_strlit("ms");
    reveal_strlit("s");
    reveal_strlit("500ms");
    reveal_strlit("2s");
    reveal_strlit("20s");
    reveal_with_fuel(decimal, 3);
    assert(decimal(500) =~= seq!['5', '0', '0']);
    assert(decimal(20) =~= seq!['2', '0']);
    assert(millis_duration(500) =~= "500ms"@);
    assert(millis_duration(2_000) =~= "2s"@);
    assert(millis_duration(20_000) =~= "20s"@);
}

/// A boolean is written as the word that it is.
pub proof fn law_booleans_are_words(b: bool)
    ensures
        b ==> boolean(b) == "true"@,
        !b ==> boolean(b) == "false"@,
{
}

/// Every line is taken as it is, in its place.
pub proof fn law_texts_are_the_lines(lines: Seq<String>)
    ensures
        texts(lines).len() == lines.len(),
        forall|i: int| 0 <= i < lines.len() ==> #[trigger] texts(lines)[i] == lines[i]@,
{
}

/// Two texts that go on with a boolean after the same beginning are equal only if the booleans
/// are, and what follows them.
pub proof fn lemma_booleans_read_back(
    prefix: Seq<char>,
    a: bool,
    after_a: Seq<char>,
    b: bool,
    after_b: Seq<char>,
)
    requires
        prefix + boolean(a) + after_a == prefix + boolean(b) + after_b,
    ensures
        a == b,
        after_a == after_b,
{
    reveal_strlit("true");
    reveal_strlit("false");
    let n = prefix.len() as int;
    let one = prefix + boolean(a) + after_a;
    let other = prefix + boolean(b) + after_b;
    assert(one[n] == boolean(a)[0]);
    assert(other[n] == boolean(b)[0]);
    let m = n + boolean(a).len();
    assert(after_a =~= one.skip(m));
    assert(after_b =~= other.skip(m));
}

/// The one-character text of the decimal digit `d`.
fn digit_text(d: u64) -> (text: &'static str)
    requires
        d < 10,
    ensures
        text@ == seq![digit(d as nat)],
{
    proof {
        reveal_strlit("0123456789");
        reveal_strlit("0");
        reveal_strlit("1");
        reveal_strlit("2");
        reveal_strlit("3");
        reveal_strlit("4");
        reveal_strlit("5");
        reveal_strlit("6");
        reveal_strlit("7");
        reveal_strlit("8");
        reveal_strlit("9");
    }
    match d {
        0 => "0",
        1 => "1",
        2 => "2",
        3 => "3",
        4 => "4",
        5 => "5",
        6 => "6",
        7 => "7",
        8 => "8",
        _ => "9",
    }
}

/// The number `n` in decimal.
pub fn decimal_text(n: u64) -> (text: String)
    ensures
        text@ == decimal(n as nat),
    decreases n,
{
    if n < 10 {
        digit_text(n).to_string()
    } else {
        let mut text = decimal_text(n / 10);
        text.append(digit_text(n % 10));
        text
    }
}

/// `whole + rest / scale` in decimal, where `scale` is a power of ten.
fn scaled_text(whole: u64, rest: u64, scale: u64) -> (text: String)
    requires
        rest < scale,
        power_of_ten(scale as nat),
    ensures
        text@ == scaled(whole as nat, rest as nat, scale as nat),
{
    let mut text = decimal_text(whole);
    if rest == 0 {
        return text;
    }
    text.append(".");
    let ghost start = text@;
    let mut left: u64 = rest;
    let mut place: u64 = scale;
    while left != 0
        invariant
            left < place,
            power_of_ten(place as nat),
            start + fraction(rest as nat, scale as nat) == text@ + fraction(left as nat, place as nat),
        decreases place,
    {
        let below: u64 = place / 10;
        assert(left / below < 10) by (nonlinear_arith)
            requires
                left < 10 * below,
        ;
        text.append(digit_text(left / below));
        left = left % below;
        place = below;
    }
    text
}

/// The length of time `secs` seconds and `nanos` nanoseconds, as `Duration` shows itself when it
/// is debugged.
pub fn duration_text(secs: u64, nanos: u32) -> (text: String)
    requires
        nanos < 1_000_000_000,
    ensures
        text@ == duration(secs as nat, nanos as nat),
{
    proof {
        reveal_with_fuel(power_of_ten, 10);
    }
    let nanos: u64 = nanos as u64;
    let mut text;
    if secs > 0 {
        text = scaled_text(secs, nanos, 1_000_000_000);
        text.append("s");
    } else if nanos >= 1_000_000 {
        text = scaled_text(nanos / 1_000_000, nanos % 1_000_000, 1_000_000);
        text.append("ms");
    } else if nanos >= 1_000 {
        text = scaled_text(nanos / 1_000, nanos % 1_000, 1_000);
        text.append("µs");
    } else {
        text = decimal_text(nanos);
        text.append("ns");
    }
    text
}

/// The length of time `millis` milliseconds, as `Duration` shows itself when it is debugged.
pub fn millis_text(millis: u64) -> (text: String)
    ensures
        text@ == millis_duration(millis as nat),
{
    let nanos: u64 = millis % 1_000 * 1_000_000;
    duration_text(millis / 1_000, nanos as u32)
}

/// `true` or `false`.
pub fn boolean_text(b: bool) -> (text: &'static str)
    ensures
        text@ == boolean(b),
{
    if b {
        "true"
    } else {
        "false"
    }
}

/// Adds one line to a list of lines.
pub fn say(lines: &mut Vec<String>, line: &str)
    ensures
        texts(final(lines)@) == texts(old(lines)@).push(line@),
{
    lines.push(line.to_string());
    assert(texts(lines@) =~= texts(old(lines)@).push(line@));
}

} // verus!
