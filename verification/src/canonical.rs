//! The canonical text of a scalar, and the proof that a scalar whose key
//! holds the canonical text of a value becomes that value.

use crate::load_env::LoadEnv;
use crate::loader::found;
use crate::parse::{
    all_digits, bool_of, char_of, digits_value, i128_of, i16_of, i32_of, i64_of, i8_of, integer_of,
    is_digit, isize_of, u128_of, u16_of, u32_of, u64_of, u8_of, usize_of,
};
use crate::text::{decimal, digit_char};
use vstd::prelude::*;

verus! {

/// The canonical text of a truth value.
pub open spec fn bool_text(value: bool) -> Seq<char> {
    if value {
        seq!['t', 'r', 'u', 'e']
    } else {
        seq!['f', 'a', 'l', 's', 'e']
    }
}

/// The canonical text of an integer: a minus sign where it is negative, then
/// its magnitude in decimal.
pub open spec fn integer_text(value: int) -> Seq<char> {
    if value < 0 {
        seq!['-'] + decimal((-value) as nat)
    } else {
        decimal(value as nat)
    }
}

/// A truth value whose key holds the canonical text of `value` becomes
/// `value`.
pub proof fn law_bool_round_trip(
    fallback: bool,
    value: bool,
    path: Seq<char>,
    env: Map<Seq<char>, Seq<char>>,
)
    requires
        found(env, path) == Some(bool_text(value)),
    ensures
        bool_of(bool_text(value)) == Some(value),
        bool::overridden(fallback, path, env) == value,
{
    assert(seq!['f', 'a', 'l', 's', 'e'].len() != seq!['t', 'r', 'u', 'e'].len());
}

/// A character whose key holds the text made of `value` alone becomes
/// `value`.
pub proof fn law_char_round_trip(
    fallback: char,
    value: char,
    path: Seq<char>,
    env: Map<Seq<char>, Seq<char>>,
)
    requires
        found(env, path) == Some(seq![value]),
    ensures
        char_of(seq![value]) == Some(value),
        char::overridden(fallback, path, env) == value,
{
}

/// A text whose key is set becomes what the key holds, whatever that is.
pub proof fn law_text_round_trip(
    fallback: Seq<char>,
    value: Seq<char>,
    path: Seq<char>,
    env: Map<Seq<char>, Seq<char>>,
)
    requires
        found(env, path) == Some(value),
    ensures
        String::overridden(fallback, path, env) == value,
{
}

/// The decimal form of a number is a run of digits that denotes the number.
pub proof fn lemma_decimal_digits(n: nat)
    ensures
        decimal(n).len() > 0,
        all_digits(decimal(n)),
        digits_value(decimal(n)) == n,
    decreases n,
{
    if n < 10 {
        let s = decimal(n);
        assert(s =~= seq![digit_char(n)]);
        assert(s.drop_last() =~= Seq::<char>::empty());
        assert(digits_value(s.drop_last()) == 0);
        assert((s.last() as nat) - ('0' as nat) == n);
    } else {
        lemma_decimal_digits(n / 10);
        let head = decimal(n / 10);
        let s = decimal(n);
        assert(s == head.push(digit_char(n % 10)));
        assert(s.drop_last() =~= head);
        assert((s.last() as nat) - ('0' as nat) == n % 10);
        assert forall|i: int| 0 <= i < s.len() implies is_digit(#[trigger] s[i]) by {
            if i < head.len() {
                assert(s[i] == head[i]);
            }
        }
    }
}

/// An integer within the range of its type is read back from its canonical
/// text; a negative one only by a signed type.
pub proof fn lemma_integer_round_trip(value: int, signed: bool, min: int, max: int)
    requires
        min <= value <= max,
        signed || value >= 0,
    ensures
        integer_of(integer_text(value), signed, min, max) == Some(value),
{
    let text = integer_text(value);
    if value < 0 {
        let digits = decimal((-value) as nat);
        lemma_decimal_digits((-value) as nat);
        assert(text[0] == '-');
        assert(text.skip(1) =~= digits);
    } else {
        lemma_decimal_digits(value as nat);
        assert(is_digit(text[0]));
    }
}

/// A `u8` whose key holds the canonical text of `value` becomes `value`.
pub proof fn law_u8_round_trip(
    fallback: u8,
    value: u8,
    path: Seq<char>,
    env: Map<Seq<char>, Seq<char>>,
)
    requires
        found(env, path) == Some(integer_text(value as int)),
    ensures
        u8_of(integer_text(value as int)) == Some(value),
        u8::overridden(fallback, path, env) == value,
{
    lemma_integer_round_trip(value as int, false, u8::MIN as int, u8::MAX as int);
}

/// A `u16` whose key holds the canonical text of `value` becomes `value`.
pub proof fn law_u16_round_trip(
    fallback: u16,
    value: u16,
    path: Seq<char>,
    env: Map<Seq<char>, Seq<char>>,
)
    requires
        found(env, path) == Some(integer_text(value as int)),
    ensures
        u16_of(integer_text(value as int)) == Some(value),
        u16::overridden(fallback, path, env) == value,
{
    lemma_integer_round_trip(value as int, false, u16::MIN as int, u16::MAX as int);
}

/// A `u32` whose key holds the canonical text of `value` becomes `value`.
pub proof fn law_u32_round_trip(
    fallback: u32,
    value: u32,
    path: Seq<char>,
    env: Map<Seq<char>, Seq<char>>,
)
    requires
        found(env, path) == Some(integer_text(value as int)),
    ensures
        u32_of(integer_text(value as int)) == Some(value),
        u32::overridden(fallback, path, env) == value,
{
    lemma_integer_round_trip(value as int, false, u32::MIN as int, u32::MAX as int);
}

/// A `u64` whose key holds the canonical text of `value` becomes `value`.
pub proof fn law_u64_round_trip(
    fallback: u64,
    value: u64,
    path: Seq<char>,
    env: Map<Seq<char>, Seq<char>>,
)
    requires
        found(env, path) == Some(integer_text(value as int)),
    ensures
        u64_of(integer_text(value as int)) == Some(value),
        u64::overridden(fallback, path, env) == value,
{
    lemma_integer_round_trip(value as int, false, u64::MIN as int, u64::MAX as int);
}

/// A `u128` whose key holds the canonical text of `value` becomes `value`.
pub proof fn law_u128_round_trip(
    fallback: u128,
    value: u128,
    path: Seq<char>,
    env: Map<Seq<char>, Seq<char>>,
)
    requires
        found(env, path) == Some(integer_text(value as int)),
    ensures
        u128_of(integer_text(value as int)) == Some(value),
        u128::overridden(fallback, path, env) == value,
{
    lemma_integer_round_trip(value as int, false, u128::MIN as int, u128::MAX as int);
}

/// A `usize` whose key holds the canonical text of `value` becomes `value`.
pub proof fn law_usize_round_trip(
    fallback: usize,
    value: usize,
    path: Seq<char>,
    env: Map<Seq<char>, Seq<char>>,
)
    requires
        found(env, path) == Some(integer_text(value as int)),
    ensures
        usize_of(integer_text(value as int)) == Some(value),
        usize::overridden(fallback, path, env) == value,
{
    lemma_integer_round_trip(value as int, false, usize::MIN as int, usize::MAX as int);
}

/// A `i8` whose key holds the canonical text of `value` becomes `value`.
pub proof fn law_i8_round_trip(
    fallback: i8,
    value: i8,
    path: Seq<char>,
    env: Map<Seq<char>, Seq<char>>,
)
    requires
        found(env, path) == Some(integer_text(value as int)),
    ensures
        i8_of(integer_text(value as int)) == Some(value),
        i8::overridden(fallback, path, env) == value,
{
    lemma_integer_round_trip(value as int, true, i8::MIN as int, i8::MAX as int);
}

/// A `i16` whose key holds the canonical text of `value` becomes `value`.
pub proof fn law_i16_round_trip(
    fallback: i16,
    value: i16,
    path: Seq<char>,
    env: Map<Seq<char>, Seq<char>>,
)
    requires
        found(env, path) == Some(integer_text(value as int)),
    ensures
        i16_of(integer_text(value as int)) == Some(value),
        i16::overridden(fallback, path, env) == value,
{
    lemma_integer_round_trip(value as int, true, i16::MIN as int, i16::MAX as int);
}

/// A `i32` whose key holds the canonical text of `value` becomes `value`.
pub proof fn law_i32_round_trip(
    fallback: i32,
    value: i32,
    path: Seq<char>,
    env: Map<Seq<char>, Seq<char>>,
)
    requires
        found(env, path) == Some(integer_text(value as int)),
    ensures
        i32_of(integer_text(value as int)) == Some(value),
        i32::overridden(fallback, path, env) == value,
{
    lemma_integer_round_trip(value as int, true, i32::MIN as int, i32::MAX as int);
}

/// A `i64` whose key holds the canonical text of `value` becomes `value`.
pub proof fn law_i64_round_trip(
    fallback: i64,
    value: i64,
    path: Seq<char>,
    env: Map<Seq<char>, Seq<char>>,
)
    requires
        found(env, path) == Some(integer_text(value as int)),
    ensures
        i64_of(integer_text(value as int)) == Some(value),
        i64::overridden(fallback, path, env) == value,
{
    lemma_integer_round_trip(value as int, true, i64::MIN as int, i64::MAX as int);
}

/// A `i128` whose key holds the canonical text of `value` becomes `value`.
pub proof fn law_i128_round_trip(
    fallback: i128,
    value: i128,
    path: Seq<char>,
    env: Map<Seq<char>, Seq<char>>,
)
    requires
        found(env, path) == Some(integer_text(value as int)),
    ensures
        i128_of(integer_text(value as int)) == Some(value),
        i128::overridden(fallback, path, env) == value,
{
    lemma_integer_round_trip(value as int, true, i128::MIN as int, i128::MAX as int);
}

/// A `isize` whose key holds the canonical text of `value` becomes `value`.
pub proof fn law_isize_round_trip(
    fallback: isize,
    value: isize,
    path: Seq<char>,
    env: Map<Seq<char>, Seq<char>>,
)
    requires
        found(env, path) == Some(integer_text(value as int)),
    ensures
        isize_of(integer_text(value as int)) == Some(value),
        isize::overridden(fallback, path, env) == value,
{
    lemma_integer_round_trip(value as int, true, isize::MIN as int, isize::MAX as int);
}

} // verus!
