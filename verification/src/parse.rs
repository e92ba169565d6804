//! The scalar strategy: converting one text into one leaf value.

use vstd::prelude::*;
use vstd::string::StringExecFns;

verus! {

/// A type whose values can be read from a text directly.
pub trait FromText: Sized + DeepView {
    /// The value that `text` stands for, if it stands for one.
    spec fn parsed(text: Seq<char>) -> Option<Self::V>;

    /// Converts `text`; `None` where it stands for no value of the type.
    fn from_text(text: &str) -> (r: Option<Self>)
        ensures
            r.deep_view() == Self::parsed(text@),
    ;
}

/// Whether `c` is one of the ten ASCII digits.
pub open spec fn is_digit(c: char) -> bool {
    '0' <= c && c <= '9'
}

/// Whether `text` holds ASCII digits only.
pub open spec fn all_digits(text: Seq<char>) -> bool {
    forall|i: int| 0 <= i < text.len() ==> is_digit(#[trigger] text[i])
}

/// The number that a run of digits denotes in base ten.
pub open spec fn digits_value(text: Seq<char>) -> nat
    decreases text.len(),
{
    if text.len() == 0 {
        0
    } else {
        digits_value(text.drop_last()) * 10 + ((text.last() as nat) - ('0' as nat)) as nat
    }
}

/// The integer that `text` denotes within `min ..= max`: an optional sign (a
/// minus only for a signed type), then at least one digit and nothing else.
pub open spec fn integer_of(text: Seq<char>, signed: bool, min: int, max: int) -> Option<int> {
    let negative = signed && text.len() > 0 && text[0] == '-';
    let body = if text.len() > 0 && (text[0] == '+' || negative) {
        text.skip(1)
    } else {
        text
    };
    let value: int = if negative {
        -(digits_value(body) as int)
    } else {
        digits_value(body) as int
    };
    if body.len() > 0 && all_digits(body) && min <= value <= max {
        Some(value)
    } else {
        None
    }
}

/// The truth value that `text` denotes: `true` and `false`, spelled so.
pub open spec fn bool_of(text: Seq<char>) -> Option<bool> {
    if text == seq!['t', 'r', 'u', 'e'] {
        Some(true)
    } else if text == seq!['f', 'a', 'l', 's', 'e'] {
        Some(false)
    } else {
        None
    }
}

/// The character that `text` denotes: its only one.
pub open spec fn char_of(text: Seq<char>) -> Option<char> {
    if text.len() == 1 {
        Some(text[0])
    } else {
        None
    }
}

/// Calls `str::parse` for `bool`, which accepts the two texts `true` and
/// `false` and fails on every other text.
#[verifier::external_body]
fn parse_bool(text: &str) -> (r: Option<bool>)
    ensures
        r == bool_of(text@),
{
    text.parse::<bool>().ok()
}

/// Calls `str::parse` for `char`, which accepts a text of exactly one
/// character and fails on the empty text and on a longer one.
#[verifier::external_body]
fn parse_char(text: &str) -> (r: Option<char>)
    ensures
        r == char_of(text@),
{
    text.parse::<char>().ok()
}

impl FromText for bool {
    open spec fn parsed(text: Seq<char>) -> Option<bool> {
        bool_of(text)
    }

    fn from_text(text: &str) -> (r: Option<bool>) {
        parse_bool(text)
    }
}

impl FromText for char {
    open spec fn parsed(text: Seq<char>) -> Option<char> {
        char_of(text)
    }

    fn from_text(text: &str) -> (r: Option<char>) {
        parse_char(text)
    }
}

impl FromText for String {
    open spec fn parsed(text: Seq<char>) -> Option<Seq<char>> {
        Some(text)
    }

    fn from_text(text: &str) -> (r: Option<String>) {
        Some(String::from_str(text))
    }
}

/// The `u8` that `text` denotes.
pub open spec fn u8_of(text: Seq<char>) -> Option<u8> {
    match integer_of(text, false, u8::MIN as int, u8::MAX as int) {
        Some(value) => Some(value as u8),
        None => None,
    }
}

/// Calls `str::parse` for `u8`, which accepts an optional `+` followed by
/// decimal digits only, and fails on the empty text, on any other character
/// and on a number outside the type's range.
#[verifier::external_body]
fn parse_u8(text: &str) -> (r: Option<u8>)
    ensures
        r == u8_of(text@),
{
    text.parse::<u8>().ok()
}

impl FromText for u8 {
    open spec fn parsed(text: Seq<char>) -> Option<u8> {
        u8_of(text)
    }

    fn from_text(text: &str) -> (r: Option<u8>) {
        parse_u8(text)
    }
}

/// The `u16` that `text` denotes.
pub open spec fn u16_of(text: Seq<char>) -> Option<u16> {
    match integer_of(text, false, u16::MIN as int, u16::MAX as int) {
        Some(value) => Some(value as u16),
        None => None,
    }
}

/// Calls `str::parse` for `u16`, which accepts an optional `+` followed by
/// decimal digits only, and fails on the empty text, on any other character
/// and on a number outside the type's range.
#[verifier::external_body]
fn parse_u16(text: &str) -> (r: Option<u16>)
    ensures
        r == u16_of(text@),
{
    text.parse::<u16>().ok()
}

impl FromText for u16 {
    open spec fn parsed(text: Seq<char>) -> Option<u16> {
        u16_of(text)
    }

    fn from_text(text: &str) -> (r: Option<u16>) {
        parse_u16(text)
    }
}

/// The `u32` that `text` denotes.
pub open spec fn u32_of(text: Seq<char>) -> Option<u32> {
    match integer_of(text, false, u32::MIN as int, u32::MAX as int) {
        Some(value) => Some(value as u32),
        None => None,
    }
}

/// Calls `str::parse` for `u32`, which accepts an optional `+` followed by
/// decimal digits only, and fails on the empty text, on any other character
/// and on a number outside the type's range.
#[verifier::external_body]
fn parse_u32(text: &str) -> (r: Option<u32>)
    ensures
        r == u32_of(text@),
{
    text.parse::<u32>().ok()
}

impl FromText for u32 {
    open spec fn parsed(text: Seq<char>) -> Option<u32> {
        u32_of(text)
    }

    fn from_text(text: &str) -> (r: Option<u32>) {
        parse_u32(text)
    }
}

/// The `u64` that `text` denotes.
pub open spec fn u64_of(text: Seq<char>) -> Option<u64> {
    match integer_of(text, false, u64::MIN as int, u64::MAX as int) {
        Some(value) => Some(value as u64),
        None => None,
    }
}

/// Calls `str::parse` for `u64`, which accepts an optional `+` followed by
/// decimal digits only, and fails on the empty text, on any other character
/// and on a number outside the type's range.
#[verifier::external_body]
fn parse_u64(text: &str) -> (r: Option<u64>)
    ensures
        r == u64_of(text@),
{
    text.parse::<u64>().ok()
}

impl FromText for u64 {
    open spec fn parsed(text: Seq<char>) -> Option<u64> {
        u64_of(text)
    }

    fn from_text(text: &str) -> (r: Option<u64>) {
        parse_u64(text)
    }
}

/// The `u128` that `text` denotes.
pub open spec fn u128_of(text: Seq<char>) -> Option<u128> {
    match integer_of(text, false, u128::MIN as int, u128::MAX as int) {
        Some(value) => Some(value as u128),
        None => None,
    }
}

/// Calls `str::parse` for `u128`, which accepts an optional `+` followed by
/// decimal digits only, and fails on the empty text, on any other character
/// and on a number outside the type's range.
#[verifier::external_body]
fn parse_u128(text: &str) -> (r: Option<u128>)
    ensures
        r == u128_of(text@),
{
    text.parse::<u128>().ok()
}

impl FromText for u128 {
    open spec fn parsed(text: Seq<char>) -> Option<u128> {
        u128_of(text)
    }

    fn from_text(text: &str) -> (r: Option<u128>) {
        parse_u128(text)
    }
}

/// The `usize` that `text` denotes.
pub open spec fn usize_of(text: Seq<char>) -> Option<usize> {
    match integer_of(text, false, usize::MIN as int, usize::MAX as int) {
        Some(value) => Some(value as usize),
        None => None,
    }
}

/// Calls `str::parse` for `usize`, which accepts an optional `+` followed by
/// decimal digits only, and fails on the empty text, on any other character
/// and on a number outside the type's range.
#[verifier::external_body]
fn parse_usize(text: &str) -> (r: Option<usize>)
    ensures
        r == usize_of(text@),
{
    text.parse::<usize>().ok()
}

impl FromText for usize {
    open spec fn parsed(text: Seq<char>) -> Option<usize> {
        usize_of(text)
    }

    fn from_text(text: &str) -> (r: Option<usize>) {
        parse_usize(text)
    }
}

/// The `i8` that `text` denotes.
pub open spec fn i8_of(text: Seq<char>) -> Option<i8> {
    match integer_of(text, true, i8::MIN as int, i8::MAX as int) {
        Some(value) => Some(value as i8),
        None => None,
    }
}

/// Calls `str::parse` for `i8`, which accepts an optional `+` or `-` followed by
/// decimal digits only, and fails on the empty text, on any other character
/// and on a number outside the type's range.
#[verifier::external_body]
fn parse_i8(text: &str) -> (r: Option<i8>)
    ensures
        r == i8_of(text@),
{
    text.parse::<i8>().ok()
}

impl FromText for i8 {
    open spec fn parsed(text: Seq<char>) -> Option<i8> {
        i8_of(text)
    }

    fn from_text(text: &str) -> (r: Option<i8>) {
        parse_i8(text)
    }
}

/// The `i16` that `text` denotes.
pub open spec fn i16_of(text: Seq<char>) -> Option<i16> {
    match integer_of(text, true, i16::MIN as int, i16::MAX as int) {
        Some(value) => Some(value as i16),
        None => None,
    }
}

/// Calls `str::parse` for `i16`, which accepts an optional `+` or `-` followed by
/// decimal digits only, and fails on the empty text, on any other character
/// and on a number outside the type's range.
#[verifier::external_body]
fn parse_i16(text: &str) -> (r: Option<i16>)
    ensures
        r == i16_of(text@),
{
    text.parse::<i16>().ok()
}

impl FromText for i16 {
    open spec fn parsed(text: Seq<char>) -> Option<i16> {
        i16_of(text)
    }

    fn from_text(text: &str) -> (r: Option<i16>) {
        parse_i16(text)
    }
}

/// The `i32` that `text` denotes.
pub open spec fn i32_of(text: Seq<char>) -> Option<i32> {
    match integer_of(text, true, i32::MIN as int, i32::MAX as int) {
        Some(value) => Some(value as i32),
        None => None,
    }
}

/// Calls `str::parse` for `i32`, which accepts an optional `+` or `-` followed by
/// decimal digits only, and fails on the empty text, on any other character
/// and on a number outside the type's range.
#[verifier::external_body]
fn parse_i32(text: &str) -> (r: Option<i32>)
    ensures
        r == i32_of(text@),
{
    text.parse::<i32>().ok()
}

impl FromText for i32 {
    open spec fn parsed(text: Seq<char>) -> Option<i32> {
        i32_of(text)
    }

    fn from_text(text: &str) -> (r: Option<i32>) {
        parse_i32(text)
    }
}

/// The `i64` that `text` denotes.
pub open spec fn i64_of(text: Seq<char>) -> Option<i64> {
    match integer_of(text, true, i64::MIN as int, i64::MAX as int) {
        Some(value) => Some(value as i64),
        None => None,
    }
}

/// Calls `str::parse` for `i64`, which accepts an optional `+` or `-` followed by
/// decimal digits only, and fails on the empty text, on any other character
/// and on a number outside the type's range.
#[verifier::external_body]
fn parse_i64(text: &str) -> (r: Option<i64>)
    ensures
        r == i64_of(text@),
{
    text.parse::<i64>().ok()
}

impl FromText for i64 {
    open spec fn parsed(text: Seq<char>) -> Option<i64> {
        i64_of(text)
    }

    fn from_text(text: &str) -> (r: Option<i64>) {
        parse_i64(text)
    }
}

/// The `i128` that `text` denotes.
pub open spec fn i128_of(text: Seq<char>) -> Option<i128> {
    match integer_of(text, true, i128::MIN as int, i128::MAX as int) {
        Some(value) => Some(value as i128),
        None => None,
    }
}

/// Calls `str::parse` for `i128`, which accepts an optional `+` or `-` followed by
/// decimal digits only, and fails on the empty text, on any other character
/// and on a number outside the type's range.
#[verifier::external_body]
fn parse_i128(text: &str) -> (r: Option<i128>)
    ensures
        r == i128_of(text@),
{
    text.parse::<i128>().ok()
}

impl FromText for i128 {
    open spec fn parsed(text: Seq<char>) -> Option<i128> {
        i128_of(text)
    }

    fn from_text(text: &str) -> (r: Option<i128>) {
        parse_i128(text)
    }
}

/// The `isize` that `text` denotes.
pub open spec fn isize_of(text: Seq<char>) -> Option<isize> {
    match integer_of(text, true, isize::MIN as int, isize::MAX as int) {
        Some(value) => Some(value as isize),
        None => None,
    }
}

/// Calls `str::parse` for `isize`, which accepts an optional `+` or `-` followed by
/// decimal digits only, and fails on the empty text, on any other character
/// and on a number outside the type's range.
#[verifier::external_body]
fn parse_isize(text: &str) -> (r: Option<isize>)
    ensures
        r == isize_of(text@),
{
    text.parse::<isize>().ok()
}

impl FromText for isize {
    open spec fn parsed(text: Seq<char>) -> Option<isize> {
        isize_of(text)
    }

    fn from_text(text: &str) -> (r: Option<isize>) {
        parse_isize(text)
    }
}

} // verus!
