//! Decimal numerals, as the session daemon exchanges them: identifiers
//! arrive as decimal strings in property maps and leave as decimal strings
//! in link-creation commands.

use vstd::prelude::*;
use vstd::string::*;

verus! {

/// Whether `c` is an ASCII decimal digit.
pub open spec fn is_digit(c: char) -> bool {
    48 <= c as u32 && c as u32 <= 57
}

/// The numeric value of a digit character.
pub open spec fn digit_val(c: char) -> nat
    recommends
        is_digit(c),
{
    (c as u32 - 48) as nat
}

/// Whether every character of `s` is a decimal digit.
pub open spec fn all_digits(s: Seq<char>) -> bool {
    forall|i: int| 0 <= i < s.len() ==> is_digit(#[trigger] s[i])
}

/// The value of a digit string, most significant digit first.
pub open spec fn digits_val(s: Seq<char>) -> nat
    decreases s.len(),
{
    if s.len() == 0 {
        0
    } else {
        digits_val(s.drop_last()) * 10 + digit_val(s.last())
    }
}

/// The identifier a decimal string stands for: its numeric value when it is
/// a non-empty digit string whose value fits in 16 bits, and the sentinel
/// `u16::MAX` otherwise.
pub open spec fn parse_u16_spec(s: Seq<char>) -> u16 {
    if s.len() > 0 && all_digits(s) && digits_val(s) <= u16::MAX {
        digits_val(s) as u16
    } else {
        u16::MAX
    }
}

/// Parses a 16-bit identifier from a decimal string, falling back to the
/// sentinel `u16::MAX` when the string is empty, holds a non-digit, or does
/// not fit in 16 bits.
pub fn parse_u16_or_max(s: &str) -> (r: u16)
    ensures
        r == parse_u16_spec(s@),
{
    let len = s.unicode_len();
    if len == 0 {
        return u16::MAX;
    }
    let mut acc: u32 = 0;
    let mut over: bool = false;
    let mut i: usize = 0;
    while i < len
        invariant
            0 < len,
            len == s@.len(),
            0 <= i <= len,
            all_digits(s@.take(i as int)),
            !over ==> acc == digits_val(s@.take(i as int)) && acc <= 0xFFFF,
            over ==> digits_val(s@.take(i as int)) > 0xFFFF,
        decreases len - i,
    {
        let c = s.get_char(i);
        let d = c as u32;
        if d < 48 || d > 57 {
            assert(!is_digit(s@[i as int]));
            return u16::MAX;
        }
        proof {
            assert(s@.take(i + 1 as int).drop_last() =~= s@.take(i as int));
            assert(s@.take(i + 1 as int).last() == s@[i as int]);
        }
        if !over {
            let next = acc * 10 + (d - 48);
            if next > 0xFFFF {
                over = true;
            } else {
                acc = next;
            }
        }
        i = i + 1;
    }
    proof {
        assert(s@.take(len as int) =~= s@);
    }
    if over {
        u16::MAX
    } else {
        acc as u16
    }
}

/// The character for a single digit value.
pub open spec fn digit_char(d: nat) -> char
    recommends
        d < 10,
{
    if d == 0 {
        '0'
    } else if d == 1 {
        '1'
    } else if d == 2 {
        '2'
    } else if d == 3 {
        '3'
    } else if d == 4 {
        '4'
    } else if d == 5 {
        '5'
    } else if d == 6 {
        '6'
    } else if d == 7 {
        '7'
    } else if d == 8 {
        '8'
    } else {
        '9'
    }
}

/// The decimal numeral of `n`, most significant digit first.
pub open spec fn dec_seq(n: nat) -> Seq<char>
    decreases n,
{
    if n < 10 {
        seq![digit_char(n)]
    } else {
        dec_seq(n / 10) + seq![digit_char(n % 10)]
    }
}

/// A decimal numeral is a non-empty digit string whose value is the number
/// it was formatted from.
pub proof fn lemma_dec_seq_value(n: nat)
    ensures
        dec_seq(n).len() >= 1,
        all_digits(dec_seq(n)),
        digits_val(dec_seq(n)) == n,
    decreases n,
{
    if n < 10 {
        let s = dec_seq(n);
        assert(digit_val(digit_char(n)) == n);
        assert(s == seq![digit_char(n)]);
        assert(s.drop_last() =~= Seq::<char>::empty());
        assert(digits_val(Seq::<char>::empty()) == 0);
        assert(s.last() == digit_char(n));
        assert(digits_val(s) == digits_val(s.drop_last()) * 10 + digit_val(s.last()));
        assert(all_digits(s));
    } else {
        lemma_dec_seq_value(n / 10);
        let a = dec_seq(n / 10);
        let c = digit_char(n % 10);
        assert(dec_seq(n) == a + seq![c]);
        assert((a + seq![c]).drop_last() =~= a);
        assert((a + seq![c]).last() == c);
        assert(digit_val(c) == n % 10);
        assert(digits_val(dec_seq(n)) == digits_val(a) * 10 + digit_val(c));
        assert(n / 10 * 10 + n % 10 == n);
        assert forall|i: int| 0 <= i < dec_seq(n).len() implies is_digit(#[trigger] dec_seq(n)[i])
        by {
            if i < a.len() {
                assert(dec_seq(n)[i] == a[i]);
            } else {
                assert(dec_seq(n)[i] == c);
            }
        }
    }
}

/// Round trip: a 16-bit identifier formatted in decimal parses back to
/// itself, never to the sentinel.
pub proof fn lemma_decimal_round_trip(n: u16)
    ensures
        parse_u16_spec(dec_seq(n as nat)) == n,
{
    lemma_dec_seq_value(n as nat);
}

/// The one-character string for a single digit value.
fn digit_str(d: u32) -> (r: &'static str)
    requires
        d < 10,
    ensures
        r@ == seq![digit_char(d as nat)],
{
    let r: &'static str = if d == 0 {
        "0"
    } else if d == 1 {
        "1"
    } else if d == 2 {
        "2"
    } else if d == 3 {
        "3"
    } else if d == 4 {
        "4"
    } else if d == 5 {
        "5"
    } else if d == 6 {
        "6"
    } else if d == 7 {
        "7"
    } else if d == 8 {
        "8"
    } else {
        "9"
    };
    proof {
        reveal_strlit("0");
        reveal_strlit("1");
        reveal_strlit("2");
        reveal_strlit("3");
        reveal_strlit("4");
        reveal_strlit("5");
        reveal_strlit("6");
        reveal_strlit("7");
        reveal_strlit("8");
        reveal_strlit("9");
        assert(r@ =~= seq![digit_char(d as nat)]);
    }
    r
}

/// Formats `n` in decimal, most significant digit first.
pub fn u32_to_decimal(n: u32) -> (r: String)
    ensures
        r@ == dec_seq(n as nat),
    decreases n,
{
    if n < 10 {
        String::from_str(digit_str(n))
    } else {
        let prefix = u32_to_decimal(n / 10);
        prefix.concat(digit_str(n % 10))
    }
}

} // verus!
