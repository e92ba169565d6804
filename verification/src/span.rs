//! Durations, written the way people write them: `2h 37min`, `32ms`.

use crate::load_env::{lemma_consulted_grows, LoadEnv};
use crate::loader::{found, scalar_converts, scalar_value, Loader, State};
use crate::parse::{is_digit, FromText};
use crate::text::key_of;
use vstd::prelude::*;
use vstd::string::StrSliceExecFns;

verus! {

/// A span of time: whole seconds and the nanoseconds beyond them.
#[derive(Clone, Copy, Debug, PartialEq, Eq, Structural)]
pub struct Span {
    pub secs: u64,
    pub nanos: u32,
}

/// Why a text is no span.
#[derive(Clone, Copy, Debug, PartialEq, Eq, Structural)]
pub enum SpanError {
    /// The text holds more digits than are handed to the parser.
    TooManyDigits,
    /// The parser refused the text.
    Malformed,
}

impl DeepView for Span {
    type V = Span;

    open spec fn deep_view(&self) -> Span {
        *self
    }
}

impl Span {
    /// The nanoseconds stay below one second.
    pub open spec fn wf(self) -> bool {
        self.nanos < 1_000_000_000
    }
}

/// The most digits that a text may hold to be handed to the parser.
pub const MAX_DIGITS: usize = 11;

/// How many ASCII digits `text` holds.
pub open spec fn digit_count(text: Seq<char>) -> nat
    decreases text.len(),
{
    if text.len() == 0 {
        0
    } else {
        digit_count(text.drop_last()) + if is_digit(text.last()) {
            1nat
        } else {
            0nat
        }
    }
}

/// The outcome of `humantime::parse_duration` on `text`: whole seconds and
/// the nanoseconds beyond them, or `None` where it fails.
pub uninterp spec fn span_of(text: Seq<char>) -> Option<(u64, u32)>;

/// The span that `text` stands for: what the parser makes of it, as long as
/// the text holds no more than `MAX_DIGITS` digits.
pub open spec fn spec_read_span(text: Seq<char>) -> Result<Span, SpanError> {
    if digit_count(text) > MAX_DIGITS {
        Err(SpanError::TooManyDigits)
    } else {
        match span_of(text) {
            Some((secs, nanos)) => Ok(Span { secs, nanos }),
            None => Err(SpanError::Malformed),
        }
    }
}

/// Calls `humantime::parse_duration` and takes the duration apart with
/// `Duration::as_secs` and `Duration::subsec_nanos`.
///
/// The parser adds up its units with checked arithmetic, but leaves one carry
/// to `Duration::new`, which panics where the seconds are `u64::MAX` and the
/// nanoseconds a whole second. Every unit is at most 31 557 600 seconds, so
/// with at most eleven digits in the text the seconds stay below 4 * 10^18
/// and the call returns: that is the `requires`. The contract names the
/// outcome and adds what std says of every duration: the nanoseconds beyond
/// the whole seconds are fewer than a second.
#[verifier::external_body]
fn parse_span(text: &str) -> (r: Option<Span>)
    requires
        digit_count(text@) <= MAX_DIGITS,
    ensures
        match r {
            Some(span) => span_of(text@) == Some((span.secs, span.nanos)) && span.wf(),
            None => span_of(text@) is None,
        },
{
    match humantime::parse_duration(text) {
        Ok(d) => Some(Span { secs: d.as_secs(), nanos: d.subsec_nanos() }),
        Err(_) => None,
    }
}

/// Counts the ASCII digits of `text`.
pub fn count_digits(text: &str) -> (r: usize)
    ensures
        r == digit_count(text@),
{
    let n = text.unicode_len();
    let mut count: usize = 0;
    let mut i: usize = 0;
    while i < n
        invariant
            n == text@.len(),
            i <= n,
            count <= i,
            count == digit_count(text@.take(i as int)),
        decreases n - i,
    {
        let c = text.get_char(i);
        assert(text@.take(i + 1).drop_last() =~= text@.take(i as int));
        if '0' <= c && c <= '9' {
            count += 1;
        }
        i += 1;
    }
    assert(text@.take(n as int) =~= text@);
    count
}

/// Reads a span from a text such as `1h 12min 5s`. A text with more than
/// `MAX_DIGITS` digits is refused without being parsed.
pub fn read_span(text: &str) -> (r: Result<Span, SpanError>)
    ensures
        r == spec_read_span(text@),
        r is Ok ==> r->Ok_0.wf(),
{
    if count_digits(text) > MAX_DIGITS {
        Err(SpanError::TooManyDigits)
    } else {
        match parse_span(text) {
            Some(span) => Ok(span),
            None => Err(SpanError::Malformed),
        }
    }
}

impl FromText for Span {
    open spec fn parsed(text: Seq<char>) -> Option<Span> {
        match spec_read_span(text) {
            Ok(span) => Some(span),
            Err(_) => None,
        }
    }

    fn from_text(text: &str) -> (r: Option<Span>) {
        match read_span(text) {
            Ok(span) => Some(span),
            Err(_) => None,
        }
    }
}

impl LoadEnv for Span {
    open spec fn overridden(value: Span, path: Seq<char>, env: Map<Seq<char>, Seq<char>>) -> Span {
        scalar_value::<Span>(value, found(env, path))
    }

    open spec fn key_set(value: Span, path: Seq<char>) -> Set<Seq<char>> {
        set![key_of(path)]
    }

    open spec fn visited(value: Span, path: Seq<char>, state: State) -> State {
        state.consulted(path, scalar_converts::<Span>(found(state.env, path)))
    }

    fn load(self, path: &str, loader: &mut Loader) -> (r: Span) {
        loader.load_and_map(self, path, read_span)
    }

    proof fn lemma_visit_grows(value: Span, path: Seq<char>, state: State) {
        lemma_consulted_grows(state, path, scalar_converts::<Span>(found(state.env, path)));
    }

    proof fn lemma_unset_keeps(value: Span, path: Seq<char>, env: Map<Seq<char>, Seq<char>>) {
        assert(Self::key_set(value, path).contains(key_of(path)));
    }
}

} // verus!
