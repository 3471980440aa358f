//! The label that stands for a key code wherever a binding is shown.

use vstd::prelude::*;

verus! {

/// The character for one digit below sixteen: `0` to `9`, then `A` to `F`.
pub open spec fn digit_char(digit: nat) -> char {
    if digit < 10 {
        (48 + digit) as char
    } else {
        (55 + digit) as char
    }
}

/// The digits of `n` in `base`, most significant first, with no leading zero;
/// zero is the single digit `0`.
pub open spec fn digits_of(n: nat, base: nat) -> Seq<char>
    recommends
        2 <= base <= 16,
    decreases n,
    via digits_of_decreases
{
    if n < base || base < 2 {
        seq![digit_char(n)]
    } else {
        digits_of(n / base, base).push(digit_char(n % base))
    }
}

#[via_fn]
proof fn digits_of_decreases(n: nat, base: nat) {
    if n >= base && base >= 2 {
        lemma_quotient_is_smaller(n, base);
    }
}

/// Dividing a number by a base of two or more that does not exceed it gives
/// less than the number.
proof fn lemma_quotient_is_smaller(n: nat, base: nat)
    requires
        2 <= base <= n,
    ensures
        n / base < n,
{
    assert(n / base < n) by (nonlinear_arith)
        requires
            2 <= base <= n,
    ;
}

/// The number that the 32 bits of `key` stand for when read without a sign.
pub open spec fn unsigned_of(key: i32) -> nat {
    if key >= 0 {
        key as nat
    } else {
        (key + 0x1_0000_0000) as nat
    }
}

/// The label of a key code: `F1` to `F24` for the function keys, `BACK` and
/// `SPACE`, the character itself for a digit or a capital letter, and for
/// every other code `0x` with its upper-case hexadecimal digits.
pub open spec fn key_label(key: i32) -> Seq<char> {
    if 0x70 <= key <= 0x87 {
        seq!['F'] + digits_of((key - 0x6F) as nat, 10)
    } else if key == 0x08 {
        seq!['B', 'A', 'C', 'K']
    } else if key == 0x20 {
        seq!['S', 'P', 'A', 'C', 'E']
    } else if 0x30 <= key <= 0x39 || 0x41 <= key <= 0x5A {
        seq![(key as u8) as char]
    } else {
        seq!['0', 'x'] + digits_of(unsigned_of(key), 16)
    }
}

/// The character for one digit below sixteen.
fn digit(value: u8) -> (c: char)
    requires
        value < 16,
    ensures
        c == digit_char(value as nat),
{
    if value < 10 {
        (48u8 + value) as char
    } else {
        (55u8 + value) as char
    }
}

/// Appends the digits of `n` in `base` to `out`.
fn push_digits(out: &mut Vec<char>, n: u64, base: u64)
    requires
        2 <= base <= 16,
    ensures
        final(out)@ == old(out)@ + digits_of(n as nat, base as nat),
    decreases n,
{
    if n >= base {
        proof {
            lemma_quotient_is_smaller(n as nat, base as nat);
        }
        push_digits(out, n / base, base);
    }
    out.push(digit((n % base) as u8));
    proof {
        let tail = digits_of(n as nat, base as nat);
        if n >= base {
            let head = digits_of((n / base) as nat, base as nat);
            assert(tail == head.push(digit_char((n % base) as nat)));
            assert(final(out)@ =~= old(out)@ + tail);
        } else {
            vstd::arithmetic::div_mod::lemma_small_mod(n as nat, base as nat);
            assert(tail == seq![digit_char(n as nat)]);
            assert(final(out)@ =~= old(out)@ + tail);
        }
    }
}

/// Makes a string of the characters in `chars`, in their order, by
/// `String::from_iter`: the string holds exactly those characters.
#[verifier::external_body]
fn text_of(chars: &Vec<char>) -> (text: String)
    ensures
        text@ == chars@,
{
    String::from_iter(chars.iter())
}

/// The label shown for a key code.
pub fn format_key(key: i32) -> (label: String)
    ensures
        label@ == key_label(key),
{
    let mut chars: Vec<char> = Vec::new();
    if 0x70 <= key && key <= 0x87 {
        chars.push('F');
        push_digits(&mut chars, (key - 0x6F) as u64, 10);
    } else if key == 0x08 {
        chars.push('B');
        chars.push('A');
        chars.push('C');
        chars.push('K');
    } else if key == 0x20 {
        chars.push('S');
        chars.push('P');
        chars.push('A');
        chars.push('C');
        chars.push('E');
    } else if (0x30 <= key && key <= 0x39) || (0x41 <= key && key <= 0x5A) {
        chars.push((key as u8) as char);
    } else {
        chars.push('0');
        chars.push('x');
        let wide: i64 = key as i64;
        let unsigned: u64 = if wide >= 0 {
            wide as u64
        } else {
            (wide + 0x1_0000_0000) as u64
        };
        push_digits(&mut chars, unsigned, 16);
    }
    proof {
        assert(chars@ =~= key_label(key));
    }
    text_of(&chars)
}

} // verus!
