//! Numbers and lists as text.

use vstd::prelude::*;

verus! {

/// The decimal digit of `d`.
pub open spec fn digit_char(d: nat) -> char
    recommends
        d < 10,
{
    ('0' as nat + d) as char
}

/// `n` in decimal, without leading zeros.
pub open spec fn decimal(n: nat) -> Seq<char>
    decreases n,
{
    if n < 10 {
        seq![digit_char(n)]
    } else {
        decimal(n / 10).push(digit_char(n % 10))
    }
}

pub open spec fn is_digit(c: char) -> bool {
    '0' <= c <= '9'
}

pub open spec fn all_digits(s: Seq<char>) -> bool {
    forall|i: int| 0 <= i < s.len() ==> is_digit(#[trigger] s[i])
}

/// The number that the decimal digits `s` write.
pub open spec fn digits_value(s: Seq<char>) -> nat
    decreases s.len(),
{
    if s.len() == 0 {
        0
    } else {
        10 * digits_value(s.drop_last()) + (s.last() as nat - '0' as nat) as nat
    }
}

/// The characters that `bytes` are, one for each byte.
pub open spec fn characters_of(bytes: Seq<u8>) -> Seq<char> {
    bytes.map_values(|b: u8| b as char)
}

/// `s` without a leading plus sign.
pub open spec fn unsigned_part(s: Seq<char>) -> Seq<char> {
    if s.len() > 0 && s[0] == '+' {
        s.skip(1)
    } else {
        s
    }
}

/// The number that `s` writes: decimal digits, after an optional plus sign, whose value fits.
pub open spec fn number_of(s: Seq<char>) -> Option<u64> {
    let digits = unsigned_part(s);
    if digits.len() > 0 && all_digits(digits) && digits_value(digits) <= u64::MAX {
        Some(digits_value(digits) as u64)
    } else {
        None
    }
}

/// `parts` in order, with `separator` between neighbours.
pub open spec fn joined(parts: Seq<Seq<char>>, separator: Seq<char>) -> Seq<char>
    decreases parts.len(),
{
    if parts.len() == 0 {
        Seq::empty()
    } else if parts.len() == 1 {
        parts[0]
    } else {
        joined(parts.drop_last(), separator) + separator + parts.last()
    }
}

/// The texts that `strings` hold.
pub open spec fn texts(strings: Seq<String>) -> Seq<Seq<char>> {
    strings.map_values(|s: String| s@)
}

/// The characters of `s`.
pub fn characters(s: &str) -> (r: Vec<char>)
    ensures
        r@ == s@,
{
    let mut r: Vec<char> = Vec::new();
    for c in it: s.chars()
        invariant
            r@ == it.seq().take(it.index()),
            it.seq() == s@,
    {
        r.push(c);
    }
    r
}

/// Whether `a` and `b` are the same text.
pub fn same_text(a: &str, b: &str) -> (r: bool)
    ensures
        r == (a@ == b@),
{
    a.to_string() == b.to_string()
}

fn digit(d: u64) -> (r: &'static str)
    requires
        d < 10,
    ensures
        r@ == seq![digit_char(d as nat)],
{
    proof {
        reveal_strlit("0");
        reveal_strlit("1");
        reveal_strlit("2");
        reveal_strlit("3");
        reveal_strlit("4");
        reveal_strlit("5");
        reveal_strlit("6");
        reveal_strlit("7");
        reveal_strlit("8");
        reveal_strlit("9");
    }
    match d {
        0 => "0",
        1 => "1",
        2 => "2",
        3 => "3",
        4 => "4",
        5 => "5",
        6 => "6",
        7 => "7",
        8 => "8",
        _ => "9",
    }
}

/// Writes `n` in decimal.
pub fn number_text(n: u64) -> (r: String)
    ensures
        r@ == decimal(n as nat),
    decreases n,
{
    if n < 10 {
        digit(n).to_string()
    } else {
        let mut r = number_text(n / 10);
        r.append(digit(n % 10));
        proof {
            assert(decimal(n as nat) == decimal((n / 10) as nat).push(digit_char((n % 10) as nat)));
        }
        r
    }
}

proof fn lemma_digits_value_grows(s: Seq<char>, i: int)
    requires
        0 <= i <= s.len(),
    ensures
        digits_value(s.take(i)) <= digits_value(s),
    decreases s.len(),
{
    if i == s.len() {
        assert(s.take(i) == s);
    } else {
        lemma_digits_value_grows(s.drop_last(), i);
        assert(s.drop_last().take(i) == s.take(i));
    }
}

/// Reads a number: decimal digits after an optional plus sign. `None` where there is no digit,
/// where another byte stands among them, or where the value does not fit.
pub fn parse_number(bytes: &[u8]) -> (r: Option<u64>)
    ensures
        r == number_of(characters_of(bytes@)),
{
    let ghost s = characters_of(bytes@);
    let start: usize = if bytes.len() > 0 && bytes[0] as char == '+' { 1 } else { 0 };
    let ghost digits = unsigned_part(s);
    assert(digits == s.skip(start as int));
    if start == bytes.len() {
        return None;
    }
    let mut value: u64 = 0;
    let mut i: usize = start;
    while i < bytes.len()
        invariant
            start <= i <= bytes.len(),
            start < bytes.len(),
            s == characters_of(bytes@),
            digits == unsigned_part(s),
            digits == s.skip(start as int),
            all_digits(digits.take(i - start)),
            value == digits_value(digits.take(i - start)),
        decreases bytes.len() - i,
    {
        let c = bytes[i] as char;
        assert(digits[i - start] == c);
        if !('0' <= c && c <= '9') {
            assert(!is_digit(digits[i - start]));
            return None;
        }
        let d: u64 = c as u64 - '0' as u64;
        let ghost longer = digits.take(i + 1 - start);
        proof {
            assert(longer.drop_last() == digits.take(i - start));
            assert(longer.last() == c);
            lemma_digits_value_grows(digits, i + 1 - start);
        }
        if value > (u64::MAX - d) / 10 {
            assert(10 * value + d > u64::MAX);
            return None;
        }
        value = 10 * value + d;
        i += 1;
    }
    assert(digits.take(i - start) == digits);
    Some(value)
}

/// Writes `parts` in order, with `separator` between neighbours.
pub fn join(parts: &Vec<String>, separator: &str) -> (r: String)
    ensures
        r@ == joined(texts(parts@), separator@),
        parts@.len() == 0 ==> r@.len() == 0,
        parts@.len() == 1 ==> r@ == parts@[0]@,
        parts@.len() == 2 ==> r@ == parts@[0]@ + separator@ + parts@[1]@,
{
    let ghost all = texts(parts@);
    let mut r = String::new();
    let mut i: usize = 0;
    while i < parts.len()
        invariant
            i <= parts.len(),
            all == texts(parts@),
            r@ == joined(all.take(i as int), separator@),
        decreases parts.len() - i,
    {
        proof {
            assert(all.take(i + 1).drop_last() == all.take(i as int));
            assert(all.take(i + 1).last() == parts@[i as int]@);
        }
        if i > 0 {
            r.append(separator);
        }
        r.append(parts[i].as_str());
        i += 1;
    }
    assert(all.take(i as int) == all);
    proof {
        if parts.len() == 1 {
            assert(all == seq![parts@[0]@]);
            lists_are_joined_one_by_one(seq![], parts@[0]@, separator@);
        } else if parts.len() == 2 {
            assert(all == seq![parts@[0]@].push(parts@[1]@));
            lists_are_joined_one_by_one(seq![], parts@[0]@, separator@);
            lists_are_joined_one_by_one(seq![parts@[0]@], parts@[1]@, separator@);
        }
    }
    r
}

proof fn lemma_decimal_digits(n: nat)
    ensures
        decimal(n).len() > 0,
        all_digits(decimal(n)),
        digits_value(decimal(n)) == n,
    decreases n,
{
    reveal_with_fuel(digits_value, 2);
    if n < 10 {
        assert(decimal(n).drop_last() == Seq::<char>::empty());
    } else {
        lemma_decimal_digits(n / 10);
        assert(decimal(n).drop_last() == decimal(n / 10));
    }
}

/// A number that was written in decimal is read back as itself.
pub proof fn number_round_trip(n: u64)
    ensures
        number_of(decimal(n as nat)) == Some(n),
{
    lemma_decimal_digits(n as nat);
    assert(is_digit(decimal(n as nat)[0]));
}

/// A number below ten is written as one digit, and every other number as its tens with the last
/// digit behind them.
pub proof fn numbers_are_written_digit_by_digit(tens: nat, d: nat)
    requires
        d < 10,
    ensures
        decimal(d) == seq![('0' as nat + d) as char],
        tens > 0 ==> decimal(10 * tens + d) == decimal(tens).push(('0' as nat + d) as char),
{
    if tens > 0 {
        assert((10 * tens + d) / 10 == tens);
        assert((10 * tens + d) % 10 == d);
    }
}

/// Different numbers are written differently.
pub proof fn different_numbers_are_written_differently(a: nat, b: nat)
    requires
        a != b,
    ensures
        decimal(a) != decimal(b),
{
    lemma_decimal_digits(a);
    lemma_decimal_digits(b);
}

/// Nothing and a plus sign alone are no numbers, and one digit is one, with or without a plus sign.
/// A digit behind a number makes it ten times as large and adds its own value, as long as that
/// fits. Any other character spoils a number, and what is spoilt stays so.
pub proof fn numbers_are_read_digit_by_digit(s: Seq<char>, c: char)
    ensures
        number_of(seq![]) is None,
        number_of(seq!['+']) is None,
        '0' <= c <= '9' ==> number_of(seq![c]) == Some((c as nat - '0' as nat) as u64),
        '0' <= c <= '9' ==> number_of(seq!['+', c]) == Some((c as nat - '0' as nat) as u64),
        !('0' <= c <= '9') ==> number_of(seq![c]) is None,
        !('0' <= c <= '9') ==> number_of(seq!['+', c]) is None,
        number_of(s) is Some && '0' <= c <= '9' ==> {
            let value = 10 * number_of(s)->0 + (c as nat - '0' as nat);
            number_of(s.push(c)) == if value <= u64::MAX {
                Some(value as u64)
            } else {
                None
            }
        },
        number_of(s) is Some && !('0' <= c <= '9') ==> number_of(s.push(c)) is None,
        number_of(s) is None && s.len() > 0 && s != seq!['+'] ==> number_of(s.push(c)) is None,
{
    reveal_with_fuel(digits_value, 3);
    let one = seq![c];
    let signed = seq!['+', c];
    assert(one.drop_last() == Seq::<char>::empty());
    assert(signed.skip(1) == one);
    assert(unsigned_part(signed) == one);
    assert(unsigned_part(seq!['+']) == Seq::<char>::empty());
    assert(one[0] == c);
    if one[0] == '+' {
        assert(unsigned_part(one) == Seq::<char>::empty());
    }
    if s.len() > 0 {
        let digits = unsigned_part(s);
        let longer = unsigned_part(s.push(c));
        assert(longer == digits.push(c));
        assert(longer.drop_last() == digits);
        assert(longer[longer.len() - 1] == c);
        if all_digits(longer) {
            assert forall|i: int| 0 <= i < digits.len() implies is_digit(#[trigger] digits[i]) by {
                assert(digits[i] == longer[i]);
            }
        } else if all_digits(digits) && is_digit(c) {
            assert forall|i: int| 0 <= i < longer.len() implies is_digit(#[trigger] longer[i]) by {
                if i < digits.len() {
                    assert(longer[i] == digits[i]);
                }
            }
        }
        if digits.len() == 0 {
            assert(s == seq!['+']);
        }
    }
}

/// Each byte is one character, and the character is that of its value.
pub proof fn bytes_are_characters(bytes: Seq<u8>, i: int)
    requires
        0 <= i < bytes.len(),
    ensures
        characters_of(bytes).len() == bytes.len(),
        characters_of(bytes)[i] as nat == bytes[i] as nat,
{
}

/// A list of one part is that part, and each further part comes behind a separator.
pub proof fn lists_are_joined_one_by_one(
    parts: Seq<Seq<char>>,
    last: Seq<char>,
    separator: Seq<char>,
)
    ensures
        joined(seq![], separator) == Seq::<char>::empty(),
        joined(seq![last], separator) == last,
        parts.len() > 0 ==> joined(parts.push(last), separator) == joined(parts, separator)
            + separator + last,
{
    assert(parts.push(last).drop_last() == parts);
}

/// The texts of a list of strings are those of the strings, in order.
pub proof fn texts_are_those_of_the_strings(strings: Seq<String>, i: int)
    requires
        0 <= i < strings.len(),
    ensures
        texts(strings).len() == strings.len(),
        texts(strings)[i] == strings[i]@,
{
}

} // verus!
