//! Strings as values: their order, their length and their joining.

use vstd::prelude::*;
use vstd::string::StringExecFns;
use crate::value::integer::{Integer, Relation};
use crate::value::natural::Natural;
use crate::value::rational::Rational;
use crate::value::signed::BigInteger;

verus! {

/// How two texts stand to each other: in the order of a dictionary, by
/// the numbers of their characters.
pub open spec fn text_relation(a: Seq<char>, b: Seq<char>) -> Relation
    decreases a.len(),
{
    if a.len() == 0 && b.len() == 0 {
        Relation::Equal
    } else if a.len() == 0 {
        Relation::Less
    } else if b.len() == 0 {
        Relation::Greater
    } else if (a[0] as u32) < (b[0] as u32) {
        Relation::Less
    } else if (a[0] as u32) > (b[0] as u32) {
        Relation::Greater
    } else {
        text_relation(a.drop_first(), b.drop_first())
    }
}

/// How two characters stand to each other, by their numbers.
pub open spec fn character_relation(a: char, b: char) -> Relation {
    if (a as u32) < (b as u32) {
        Relation::Less
    } else if (a as u32) > (b as u32) {
        Relation::Greater
    } else {
        Relation::Equal
    }
}

/// How two truth values stand to each other: false comes first.
pub open spec fn truth_relation(a: bool, b: bool) -> Relation {
    if a == b {
        Relation::Equal
    } else if b {
        Relation::Less
    } else {
        Relation::Greater
    }
}

/// How two characters stand to each other.
pub fn relation_of_characters(a: char, b: char) -> (r: Relation)
    ensures
        r == character_relation(a, b),
{
    let x = a as u32;
    let y = b as u32;
    if x < y {
        Relation::Less
    } else if x > y {
        Relation::Greater
    } else {
        Relation::Equal
    }
}

/// How two truth values stand to each other.
pub fn relation_of_truths(a: bool, b: bool) -> (r: Relation)
    ensures
        r == truth_relation(a, b),
{
    if a == b {
        Relation::Equal
    } else if b {
        Relation::Less
    } else {
        Relation::Greater
    }
}

/// How two texts stand to each other.
pub fn relation_of_texts(a: &str, b: &str) -> (r: Relation)
    ensures
        r == text_relation(a@, b@),
{
    let n = a.unicode_len();
    let m = b.unicode_len();
    let mut i: usize = 0;
    proof {
        assert(a@.subrange(0, n as int) =~= a@);
        assert(b@.subrange(0, m as int) =~= b@);
    }
    while i < n && i < m
        invariant
            i <= n,
            i <= m,
            n == a@.len(),
            m == b@.len(),
            text_relation(a@, b@) == text_relation(
                a@.subrange(i as int, n as int),
                b@.subrange(i as int, m as int),
            ),
        decreases n - i,
    {
        let x = a.get_char(i) as u32;
        let y = b.get_char(i) as u32;
        proof {
            let ra = a@.subrange(i as int, n as int);
            let rb = b@.subrange(i as int, m as int);
            assert(ra[0] == a@[i as int]);
            assert(rb[0] == b@[i as int]);
            assert(ra.drop_first() =~= a@.subrange(i + 1, n as int));
            assert(rb.drop_first() =~= b@.subrange(i + 1, m as int));
        }
        if x < y {
            return Relation::Less;
        }
        if x > y {
            return Relation::Greater;
        }
        i = i + 1;
    }
    if n == m {
        Relation::Equal
    } else if i == n {
        Relation::Less
    } else {
        Relation::Greater
    }
}

/// The two texts, one after the other.
pub fn joined(left: String, right: &str) -> (r: String)
    ensures
        r@ == left@ + right@,
{
    left.concat(right)
}

/// The number of characters of a text.
pub fn length_of_text(text: &str) -> (r: usize)
    ensures
        r == text@.len(),
{
    text.unicode_len()
}

/// The character of a digit.
pub open spec fn digit_text(digit: nat) -> Seq<char> {
    if digit == 0 {
        "0"@
    } else if digit == 1 {
        "1"@
    } else if digit == 2 {
        "2"@
    } else if digit == 3 {
        "3"@
    } else if digit == 4 {
        "4"@
    } else if digit == 5 {
        "5"@
    } else if digit == 6 {
        "6"@
    } else if digit == 7 {
        "7"@
    } else if digit == 8 {
        "8"@
    } else {
        "9"@
    }
}

/// A natural number in decimal digits, without leading zeros.
pub open spec fn decimal_text(value: nat) -> Seq<char>
    decreases value,
{
    if value < 10 {
        digit_text(value)
    } else {
        decimal_text(value / 10) + digit_text(value % 10)
    }
}

/// An integer in decimal digits, with `-` before a negative one.
pub open spec fn signed_text(value: int) -> Seq<char> {
    if value < 0 {
        "-"@ + decimal_text((-value) as nat)
    } else {
        decimal_text(value as nat)
    }
}

/// A fraction as numerator, `/` and denominator.
pub open spec fn fraction_text(numerator: int, denominator: int) -> Seq<char> {
    signed_text(numerator) + "/"@ + decimal_text(denominator as nat)
}

/// The digits of a list, the last one first.
pub open spec fn reversed_digits(digits: Seq<u8>) -> Seq<char>
    decreases digits.len(),
{
    if digits.len() == 0 {
        Seq::empty()
    } else {
        digit_text(digits.last() as nat) + reversed_digits(digits.drop_last())
    }
}

fn digit_name(digit: u8) -> (r: &'static str)
    requires
        digit < 10,
    ensures
        r@ == digit_text(digit as nat),
{
    match digit {
        0 => "0",
        1 => "1",
        2 => "2",
        3 => "3",
        4 => "4",
        5 => "5",
        6 => "6",
        7 => "7",
        8 => "8",
        _ => "9",
    }
}

/// A natural number in decimal digits.
pub fn natural_to_text(value: &Natural) -> (r: String)
    ensures
        r@ == decimal_text(value@),
{
    let ten = Natural::from_u64(10);
    let mut rest = value.clone();
    let mut digits: Vec<u8> = Vec::new();
    proof {
        assert(decimal_text(rest@) + reversed_digits(digits@) =~= decimal_text(value@));
    }
    while !rest.less_than(&ten)
        invariant
            ten@ == 10,
            forall|i: int| 0 <= i < digits@.len() ==> digits@[i] < 10,
            decimal_text(rest@) + reversed_digits(digits@) == decimal_text(value@),
        decreases rest@,
    {
        let ghost before = rest@;
        let ghost low = digits@;
        let digit = match rest.remainder(&ten) {
            Some(m) => match m.to_u64() {
                Some(d) => d as u8,
                None => 0,
            },
            None => 0,
        };
        rest = match rest.quotient(&ten) {
            Some(q) => q,
            None => Natural::zero(),
        };
        digits.push(digit);
        proof {
            assert(digits@.drop_last() =~= low);
            assert(decimal_text(before) == decimal_text(before / 10) + digit_text(before % 10));
            assert(decimal_text(rest@) + reversed_digits(digits@) =~= decimal_text(before)
                + reversed_digits(low));
        }
    }
    let last = match rest.to_u64() {
        Some(d) => d as u8,
        None => 0,
    };
    let mut text = String::new();
    text.append(digit_name(last));
    let mut i: usize = digits.len();
    proof {
        assert(Seq::<char>::empty() + digit_text(last as nat) =~= digit_text(last as nat));
        assert(digits@.subrange(0, i as int) =~= digits@);
    }
    while i > 0
        invariant
            i <= digits@.len(),
            forall|k: int| 0 <= k < digits@.len() ==> digits@[k] < 10,
            text@ + reversed_digits(digits@.subrange(0, i as int)) == decimal_text(value@),
        decreases i,
    {
        proof {
            let part = digits@.subrange(0, i as int);
            assert(part.drop_last() =~= digits@.subrange(0, i - 1));
            assert(part.last() == digits@[i - 1]);
            assert((text@ + digit_text(digits@[i - 1] as nat)) + reversed_digits(
                digits@.subrange(0, i - 1),
            ) =~= text@ + reversed_digits(part));
        }
        text.append(digit_name(digits[i - 1]));
        i = i - 1;
    }
    proof {
        assert(digits@.subrange(0, 0) =~= Seq::<u8>::empty());
        assert(text@ + Seq::<char>::empty() =~= text@);
    }
    text
}

/// An arbitrary-precision integer in decimal digits.
pub fn big_integer_to_text(value: &BigInteger) -> (r: String)
    ensures
        r@ == signed_text(value@),
{
    let digits = natural_to_text(&value.magnitude);
    if value.is_negative() {
        let mut text = String::new();
        text.append("-");
        text.append(digits.as_str());
        proof {
            assert(Seq::<char>::empty() + "-"@ =~= "-"@);
        }
        text
    } else {
        digits
    }
}

impl Integer {
    /// The number in decimal digits, with `-` before a negative one.
    pub fn to_text(&self) -> (r: String)
        ensures
            r@ == signed_text(self@.value),
    {
        big_integer_to_text(&self.to_big())
    }
}

impl Rational {
    /// The fraction as numerator, `/` and denominator.
    pub fn to_text(&self) -> (r: String)
        ensures
            r@ == fraction_text(self@.numerator, self@.denominator),
    {
        let mut text = big_integer_to_text(&self.numerator);
        text.append("/");
        text.append(natural_to_text(&self.denominator).as_str());
        text
    }
}

/// The character of a hexadecimal digit.
pub open spec fn hexadecimal_digit_text(digit: nat) -> Seq<char> {
    if digit < 10 {
        digit_text(digit)
    } else if digit == 10 {
        "a"@
    } else if digit == 11 {
        "b"@
    } else if digit == 12 {
        "c"@
    } else if digit == 13 {
        "d"@
    } else if digit == 14 {
        "e"@
    } else {
        "f"@
    }
}

/// A natural number in hexadecimal digits, without leading zeros.
pub open spec fn hexadecimal_digits(value: nat) -> Seq<char>
    decreases value,
{
    if value < 16 {
        hexadecimal_digit_text(value)
    } else {
        hexadecimal_digits(value / 16) + hexadecimal_digit_text(value % 16)
    }
}

/// A natural number in hexadecimal digits after `0x`.
pub open spec fn hexadecimal_text(value: nat) -> Seq<char> {
    "0x"@ + hexadecimal_digits(value)
}

/// The hexadecimal digits of a list, the last one first.
pub open spec fn reversed_hexadecimal(digits: Seq<u8>) -> Seq<char>
    decreases digits.len(),
{
    if digits.len() == 0 {
        Seq::empty()
    } else {
        hexadecimal_digit_text(digits.last() as nat) + reversed_hexadecimal(digits.drop_last())
    }
}

fn hexadecimal_digit_name(digit: u8) -> (r: &'static str)
    requires
        digit < 16,
    ensures
        r@ == hexadecimal_digit_text(digit as nat),
{
    match digit {
        10 => "a",
        11 => "b",
        12 => "c",
        13 => "d",
        14 => "e",
        15 => "f",
        _ => digit_name(digit),
    }
}

/// A number in hexadecimal digits after `0x`.
pub fn to_hexadecimal(value: u64) -> (r: String)
    ensures
        r@ == hexadecimal_text(value as nat),
{
    let mut rest = value;
    let mut digits: Vec<u8> = Vec::new();
    proof {
        assert(hexadecimal_digits(rest as nat) + reversed_hexadecimal(digits@)
            =~= hexadecimal_digits(value as nat));
    }
    while rest >= 16
        invariant
            forall|i: int| 0 <= i < digits@.len() ==> digits@[i] < 16,
            hexadecimal_digits(rest as nat) + reversed_hexadecimal(digits@) == hexadecimal_digits(
                value as nat,
            ),
        decreases rest,
    {
        let ghost before = rest as nat;
        let ghost low = digits@;
        digits.push((rest % 16) as u8);
        rest = rest / 16;
        proof {
            assert(digits@.drop_last() =~= low);
            assert(hexadecimal_digits(before) == hexadecimal_digits(before / 16)
                + hexadecimal_digit_text(before % 16));
            assert(hexadecimal_digits(rest as nat) + reversed_hexadecimal(digits@)
                =~= hexadecimal_digits(before) + reversed_hexadecimal(low));
        }
    }
    let mut text = String::new();
    text.append("0x");
    text.append(hexadecimal_digit_name(rest as u8));
    let mut i: usize = digits.len();
    proof {
        assert(Seq::<char>::empty() + "0x"@ =~= "0x"@);
        assert(digits@.subrange(0, i as int) =~= digits@);
        assert(text@ + reversed_hexadecimal(digits@) =~= "0x"@ + (hexadecimal_digits(
            rest as nat,
        ) + reversed_hexadecimal(digits@)));
    }
    while i > 0
        invariant
            i <= digits@.len(),
            forall|k: int| 0 <= k < digits@.len() ==> digits@[k] < 16,
            text@ + reversed_hexadecimal(digits@.subrange(0, i as int)) == hexadecimal_text(
                value as nat,
            ),
        decreases i,
    {
        proof {
            let part = digits@.subrange(0, i as int);
            assert(part.drop_last() =~= digits@.subrange(0, i - 1));
            assert(part.last() == digits@[i - 1]);
            assert((text@ + hexadecimal_digit_text(digits@[i - 1] as nat)) + reversed_hexadecimal(
                digits@.subrange(0, i - 1),
            ) =~= text@ + reversed_hexadecimal(part));
        }
        text.append(hexadecimal_digit_name(digits[i - 1]));
        i = i - 1;
    }
    proof {
        assert(digits@.subrange(0, 0) =~= Seq::<u8>::empty());
        assert(text@ + Seq::<char>::empty() =~= text@);
    }
    text
}

/// A number in decimal digits.
pub fn to_decimal(value: u64) -> (r: String)
    ensures
        r@ == decimal_text(value as nat),
{
    natural_to_text(&Natural::from_u64(value))
}

/// A number in decimal digits, with `-` before a negative one.
pub fn to_signed_decimal(value: i64) -> (r: String)
    ensures
        r@ == signed_text(value as int),
{
    big_integer_to_text(&BigInteger::from_i64(value))
}

} // verus!
