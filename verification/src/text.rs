//! Override paths: how a child's path is built, and how a path becomes a key.

use vstd::prelude::*;
use vstd::string::StringExecFns;

verus! {

/// The upper-case form of a text, as `str::to_uppercase` computes it.
pub uninterp spec fn upper_case(text: Seq<char>) -> Seq<char>;

/// Calls `str::to_uppercase`: the result is the upper-case form of `text`
/// under the Unicode rules that std implements. The contract only gives that
/// result its name; nothing is claimed about which characters change.
#[verifier::external_body]
pub(crate) fn to_upper(text: &str) -> (r: String)
    ensures
        r@ == upper_case(text@),
{
    text.to_uppercase()
}

/// The key under which a value at `path` is looked up.
pub open spec fn key_of(path: Seq<char>) -> Seq<char> {
    upper_case(path)
}

/// The path of a child: the base, one underscore, the segment.
pub open spec fn spec_child_path(base: Seq<char>, segment: Seq<char>) -> Seq<char> {
    base + seq!['_'] + segment
}

/// The decimal digit for a number below ten.
pub open spec fn digit_char(d: nat) -> char {
    if d == 0 {
        '0'
    } else if d == 1 {
        '1'
    } else if d == 2 {
        '2'
    } else if d == 3 {
        '3'
    } else if d == 4 {
        '4'
    } else if d == 5 {
        '5'
    } else if d == 6 {
        '6'
    } else if d == 7 {
        '7'
    } else if d == 8 {
        '8'
    } else {
        '9'
    }
}

/// A number written in decimal, without sign or leading zeros.
pub open spec fn decimal(n: nat) -> Seq<char>
    decreases n,
{
    if n < 10 {
        seq![digit_char(n)]
    } else {
        decimal(n / 10).push(digit_char(n % 10))
    }
}

/// Builds the path of a child from the path of its parent and the child's
/// segment. The case of neither part is changed.
pub fn child_path(base: &str, segment: &str) -> (r: String)
    ensures
        r@ == spec_child_path(base@, segment@),
{
    proof {
        reveal_strlit("_");
        assert("_"@ =~= seq!['_']);
    }
    let r = String::from_str(base).concat("_").concat(segment);
    r
}

fn digit_text(d: usize) -> (r: &'static str)
    requires
        d < 10,
    ensures
        r@ == seq![digit_char(d as nat)],
{
    proof {
        reveal_strlit("0");
        reveal_strlit("1");
        reveal_strlit("2");
        reveal_strlit("3");
        reveal_strlit("4");
        reveal_strlit("5");
        reveal_strlit("6");
        reveal_strlit("7");
        reveal_strlit("8");
        reveal_strlit("9");
    }
    let r = if d == 0 {
        "0"
    } else if d == 1 {
        "1"
    } else if d == 2 {
        "2"
    } else if d == 3 {
        "3"
    } else if d == 4 {
        "4"
    } else if d == 5 {
        "5"
    } else if d == 6 {
        "6"
    } else if d == 7 {
        "7"
    } else if d == 8 {
        "8"
    } else {
        "9"
    };
    assert(r@ =~= seq![digit_char(d as nat)]);
    r
}

/// The segment of a positional field: its zero-based index in decimal.
pub fn index_segment(index: usize) -> (r: String)
    ensures
        r@ == decimal(index as nat),
    decreases index,
{
    if index < 10 {
        String::from_str(digit_text(index))
    } else {
        let head = index_segment(index / 10);
        let r = head.concat(digit_text(index % 10));
        assert(r@ =~= decimal(index as nat));
        r
    }
}

} // verus!
