//! Decimal numbers as text: rendering a byte and reading one back.

use vstd::prelude::*;

verus! {

/// The decimal digit for a value below ten.
pub open spec fn digit_char(d: nat) -> char {
    if d == 0 {
        '0'
    } else if d == 1 {
        '1'
    } else if d == 2 {
        '2'
    } else if d == 3 {
        '3'
    } else if d == 4 {
        '4'
    } else if d == 5 {
        '5'
    } else if d == 6 {
        '6'
    } else if d == 7 {
        '7'
    } else if d == 8 {
        '8'
    } else {
        '9'
    }
}

/// The decimal rendering of a natural number, without sign or padding.
pub open spec fn decimal(n: nat) -> Seq<char>
    decreases n,
{
    if n < 10 {
        seq![digit_char(n)]
    } else {
        decimal(n / 10).push(digit_char(n % 10))
    }
}

fn digit_text(d: u8) -> (text: &'static str)
    requires
        d < 10,
    ensures
        text@ == seq![digit_char(d as nat)],
{
    proof {
        reveal_strlit("0");
        reveal_strlit("1");
        reveal_strlit("2");
        reveal_strlit("3");
        reveal_strlit("4");
        reveal_strlit("5");
        reveal_strlit("6");
        reveal_strlit("7");
        reveal_strlit("8");
        reveal_strlit("9");
    }
    let text = if d == 0 {
        "0"
    } else if d == 1 {
        "1"
    } else if d == 2 {
        "2"
    } else if d == 3 {
        "3"
    } else if d == 4 {
        "4"
    } else if d == 5 {
        "5"
    } else if d == 6 {
        "6"
    } else if d == 7 {
        "7"
    } else if d == 8 {
        "8"
    } else {
        "9"
    };
    assert(text@ =~= seq![digit_char(d as nat)]);
    text
}

/// Renders a byte in decimal.
pub fn decimal_u8(n: u8) -> (text: String)
    ensures
        text@ == decimal(n as nat),
{
    let ones: u8 = n % 10;
    let tens: u8 = (n / 10) % 10;
    let hundreds: u8 = n / 100;
    let mut text = String::new();
    if n >= 100 {
        text.append(digit_text(hundreds));
    }
    if n >= 10 {
        text.append(digit_text(tens));
    }
    text.append(digit_text(ones));
    proof {
        reveal_with_fuel(decimal, 3);
        assert(text@ =~= decimal(n as nat));
    }
    text
}

/// Whether a character is a decimal digit.
pub open spec fn is_digit(c: char) -> bool {
    '0' <= c <= '9'
}

/// The number that a run of decimal digits denotes.
pub open spec fn digits_value(s: Seq<char>) -> nat
    decreases s.len(),
{
    if s.len() == 0 {
        0
    } else {
        (digits_value(s.drop_last()) * 10 + (s.last() as u32 - '0' as u32)) as nat
    }
}

/// Whether every character is a decimal digit.
pub open spec fn all_digits(s: Seq<char>) -> bool {
    forall|i: int| 0 <= i < s.len() ==> is_digit(#[trigger] s[i])
}

/// The byte that a run of digits denotes: there is at least one digit,
/// nothing but digits, and their value fits in a byte.
pub open spec fn unsigned_byte_of(digits: Seq<char>) -> Option<u8> {
    if digits.len() > 0 && all_digits(digits) && digits_value(digits) <= 255 {
        Some(digits_value(digits) as u8)
    } else {
        None
    }
}

/// The byte that a text denotes: an optional `+`, then digits as for
/// [`unsigned_byte_of`]. Anything else denotes none.
pub open spec fn byte_of(s: Seq<char>) -> Option<u8> {
    if s.len() > 0 && s[0] == '+' {
        unsigned_byte_of(s.drop_first())
    } else {
        unsigned_byte_of(s)
    }
}

proof fn lemma_digits_value_grows(s: Seq<char>, k: int)
    requires
        0 <= k <= s.len(),
        all_digits(s),
    ensures
        digits_value(s.take(k)) <= digits_value(s),
    decreases s.len() - k,
{
    if k == s.len() {
        assert(s.take(k) =~= s);
    } else {
        let front = s.drop_last();
        assert(is_digit(s[s.len() - 1]));
        lemma_digits_value_grows(front, k);
        assert(front.take(k) =~= s.take(k));
    }
}

/// Reads the byte that a text denotes.
pub fn parse_byte(chars: &[char]) -> (byte: Option<u8>)
    ensures
        byte == byte_of(chars@),
{
    let mut i: usize = 0;
    if i < chars.len() && chars[i] == '+' {
        i += 1;
    }
    let start: usize = i;
    let ghost digits = chars@.skip(start as int);
    assert(digits =~= if chars@.len() > 0 && chars@[0] == '+' {
        chars@.drop_first()
    } else {
        chars@
    });
    if start == chars.len() {
        return None;
    }
    let mut value: u32 = 0;
    assert(digits.take(0) =~= Seq::<char>::empty());
    while i < chars.len()
        invariant
            start <= i <= chars.len(),
            digits == chars@.skip(start as int),
            byte_of(chars@) == unsigned_byte_of(digits),
            all_digits(digits.take(i - start)),
            value == digits_value(digits.take(i - start)),
            value <= 255,
        decreases chars.len() - i,
    {
        let c = chars[i];
        if !('0' <= c && c <= '9') {
            assert(!all_digits(digits)) by {
                assert(digits[i - start] == c);
            }
            return None;
        }
        let d: u32 = c as u32 - '0' as u32;
        let next: u32 = value * 10 + d;
        proof {
            let seen = digits.take(i - start + 1);
            assert(seen.drop_last() =~= digits.take(i - start));
            assert(seen.last() == c);
            assert(all_digits(seen)) by {
                assert forall|j: int| 0 <= j < seen.len() implies is_digit(#[trigger] seen[j]) by {
                    if j < seen.len() - 1 {
                        assert(seen[j] == digits.take(i - start)[j]);
                    }
                }
            }
            assert(next == digits_value(seen));
        }
        if next > 255 {
            proof {
                if all_digits(digits) {
                    lemma_digits_value_grows(digits, i - start + 1);
                }
            }
            return None;
        }
        value = next;
        i += 1;
    }
    assert(digits.take(chars.len() - start) =~= digits);
    Some(value as u8)
}

} // verus!
