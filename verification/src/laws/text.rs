//! What holds of text and of numbers written as text.

use crate::text::{
    begins_with, decimal, digit, hex_digit, hexadecimal, opt_str, opt_text, white_space,
};
use vstd::arithmetic::power::{lemma_pow_positive, pow};
use vstd::prelude::*;

verus! {

/// An optional string is seen as it is: there or not, character by character.
pub proof fn optional_text_is_seen_as_it_is(o: Option<String>, s: Option<&str>)
    ensures
        opt_text(o) is Some <==> o is Some,
        o matches Some(text) ==> opt_text(o)->0 == text@,
        opt_str(s) is Some <==> s is Some,
        s matches Some(text) ==> opt_str(s)->0 == text@,
{
}

/// The characters that are trimmed off: tabs and line ends, blanks of every
/// width, and nothing that shows.
pub proof fn which_characters_are_white(c: char)
    ensures
        white_space(c) <==> {
            ||| c == '\t' || c == '\n' || c == '\u{b}' || c == '\u{c}' || c == '\r'
            ||| c == ' ' || c == '\u{85}' || c == '\u{a0}' || c == '\u{1680}'
            ||| '\u{2000}' <= c <= '\u{200a}'
            ||| c == '\u{2028}' || c == '\u{2029}' || c == '\u{202f}'
            ||| c == '\u{205f}' || c == '\u{3000}'
        },
{
}

/// Text begins with a prefix where each character of the prefix stands at its
/// place.
pub proof fn a_prefix_is_what_comes_first(s: Seq<char>, prefix: Seq<char>)
    ensures
        begins_with(s, prefix) <==> prefix.len() <= s.len() && forall|i: int|
            0 <= i < prefix.len() ==> s[i] == #[trigger] prefix[i],
        begins_with(prefix + s, prefix),
{
    let head = s.take(prefix.len() as int);
    if begins_with(s, prefix) {
        assert forall|i: int| 0 <= i < prefix.len() implies s[i] == #[trigger] prefix[i] by {
            assert(head[i] == s[i]);
        }
    } else if prefix.len() <= s.len() && forall|i: int|
        0 <= i < prefix.len() ==> s[i] == #[trigger] prefix[i] {
        assert(head =~= prefix);
    }
    assert((prefix + s).take(prefix.len() as int) =~= prefix);
}

/// The number that decimal digits stand for.
pub open spec fn read_decimal(s: Seq<char>) -> int
    decreases s.len(),
{
    if s.len() == 0 {
        0
    } else {
        10 * read_decimal(s.drop_last()) + (s.last() as int - '0' as int)
    }
}

/// Decimal notation reads back as the number, in digits alone, and without a
/// leading zero.
pub proof fn decimal_notation_reads_back(n: nat)
    ensures
        read_decimal(decimal(n)) == n,
        decimal(n).len() > 0,
        decimal(n).len() > 1 ==> decimal(n).first() != '0',
        n > 0 ==> decimal(n).first() != '0',
        forall|i: int| 0 <= i < decimal(n).len() ==> '0' <= #[trigger] decimal(n)[i] <= '9',
    decreases n,
{
    if n < 10 {
        let s = decimal(n);
        assert(s.len() == 1 && s[0] == digit(n as int));
        assert(s.drop_last().len() == 0);
        assert(read_decimal(s.drop_last()) == 0);
        assert(s.last() == s[0]);
    } else {
        let front = decimal(n / 10);
        decimal_notation_reads_back(n / 10);
        assert(decimal(n).drop_last() =~= front);
        assert(decimal(n).first() == front.first());
        assert forall|i: int| 0 <= i < decimal(n).len() implies '0' <= #[trigger] decimal(n)[i]
            <= '9' by {
            if i < front.len() {
                assert(decimal(n)[i] == front[i]);
            }
        }
    }
}

/// The value of a lower-case hexadecimal digit.
pub open spec fn hex_value(c: char) -> int {
    if c <= '9' {
        c as int - '0' as int
    } else {
        c as int - 'a' as int + 10
    }
}

/// The number that hexadecimal digits stand for.
pub open spec fn read_hexadecimal(s: Seq<char>) -> int
    decreases s.len(),
{
    if s.len() == 0 {
        0
    } else {
        16 * read_hexadecimal(s.drop_last()) + hex_value(s.last())
    }
}

/// Hexadecimal notation has its width, and reads back as what of the number fits
/// into it.
pub proof fn hexadecimal_notation_reads_back(n: nat, width: nat)
    ensures
        hexadecimal(n, width).len() == width,
        read_hexadecimal(hexadecimal(n, width)) == n as int % pow(16, width),
        0 <= n < pow(16, width) ==> read_hexadecimal(hexadecimal(n, width)) == n,
    decreases width,
{
    lemma_pow_positive(16, width);
    if width == 0 {
        reveal(pow);
        assert(pow(16, 0) == 1);
    } else {
        let rest = (width - 1) as nat;
        let front = hexadecimal(n / 16, rest);
        hexadecimal_notation_reads_back(n / 16, rest);
        assert(hexadecimal(n, width).drop_last() =~= front);
        assert(hex_value(hex_digit((n % 16) as int)) == n % 16);
        vstd::arithmetic::power::lemma_pow1(16);
        vstd::arithmetic::power::lemma_pow_adds(16, 1, rest);
        lemma_pow_positive(16, rest);
        assert(pow(16, width) == 16 * pow(16, rest));
        vstd::arithmetic::div_mod::lemma_breakdown(n as int, 16, pow(16, rest));
    }
    if n < pow(16, width) {
        vstd::arithmetic::div_mod::lemma_small_mod(n, pow(16, width) as nat);
    }
}

/// Two numbers that fit into sixteen hexadecimal digits are written differently.
pub proof fn sixteen_digits_tell_hashes_apart(a: u64, b: u64)
    requires
        a != b,
    ensures
        hexadecimal(a as nat, 16) != hexadecimal(b as nat, 16),
{
    lemma_sixteen_digits();
    hexadecimal_notation_reads_back(a as nat, 16);
    hexadecimal_notation_reads_back(b as nat, 16);
}

pub(crate) proof fn lemma_sixteen_digits()
    ensures
        pow(16, 16) == 0x1_0000_0000_0000_0000,
{
    vstd::arithmetic::power::lemma_pow1(16);
    vstd::arithmetic::power::lemma_pow_adds(16, 1, 1);
    vstd::arithmetic::power::lemma_pow_adds(16, 2, 2);
    vstd::arithmetic::power::lemma_pow_adds(16, 4, 4);
    vstd::arithmetic::power::lemma_pow_adds(16, 8, 8);
    let two = pow(16, 2);
    let four = pow(16, 4);
    let eight = pow(16, 8);
    assert(two == 0x100);
    assert(two * two == 0x1_0000) by (nonlinear_arith)
        requires
            two == 0x100,
    ;
    assert(four * four == 0x1_0000_0000) by (nonlinear_arith)
        requires
            four == 0x1_0000,
    ;
    assert(eight * eight == 0x1_0000_0000_0000_0000) by (nonlinear_arith)
        requires
            eight == 0x1_0000_0000,
    ;
}

} // verus!
