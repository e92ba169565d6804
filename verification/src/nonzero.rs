//! Integers that are never zero: a text that stands for zero does not
//! convert, so a non-zero setting cannot be overridden into zero.

use crate::load_env::{lemma_consulted_grows, LoadEnv};
use crate::loader::{found, scalar_converts, scalar_value, Loader, State};
use crate::parse::FromText;
use crate::text::key_of;
use vstd::prelude::*;

verus! {

/// An integer type: one that is read from a text and can be compared with
/// zero.
pub trait Integer: FromText + Copy {
    /// Whether the value is zero.
    spec fn spec_is_zero(value: Self::V) -> bool;

    /// Whether the value is zero.
    fn is_zero(&self) -> (r: bool)
        ensures
            r == Self::spec_is_zero(self.deep_view()),
    ;
}

impl Integer for u8 {
    open spec fn spec_is_zero(value: u8) -> bool {
        value == 0
    }

    fn is_zero(&self) -> (r: bool) {
        *self == 0
    }
}

impl Integer for u16 {
    open spec fn spec_is_zero(value: u16) -> bool {
        value == 0
    }

    fn is_zero(&self) -> (r: bool) {
        *self == 0
    }
}

impl Integer for u32 {
    open spec fn spec_is_zero(value: u32) -> bool {
        value == 0
    }

    fn is_zero(&self) -> (r: bool) {
        *self == 0
    }
}

impl Integer for u64 {
    open spec fn spec_is_zero(value: u64) -> bool {
        value == 0
    }

    fn is_zero(&self) -> (r: bool) {
        *self == 0
    }
}

impl Integer for u128 {
    open spec fn spec_is_zero(value: u128) -> bool {
        value == 0
    }

    fn is_zero(&self) -> (r: bool) {
        *self == 0
    }
}

impl Integer for usize {
    open spec fn spec_is_zero(value: usize) -> bool {
        value == 0
    }

    fn is_zero(&self) -> (r: bool) {
        *self == 0
    }
}

impl Integer for i8 {
    open spec fn spec_is_zero(value: i8) -> bool {
        value == 0
    }

    fn is_zero(&self) -> (r: bool) {
        *self == 0
    }
}

impl Integer for i16 {
    open spec fn spec_is_zero(value: i16) -> bool {
        value == 0
    }

    fn is_zero(&self) -> (r: bool) {
        *self == 0
    }
}

impl Integer for i32 {
    open spec fn spec_is_zero(value: i32) -> bool {
        value == 0
    }

    fn is_zero(&self) -> (r: bool) {
        *self == 0
    }
}

impl Integer for i64 {
    open spec fn spec_is_zero(value: i64) -> bool {
        value == 0
    }

    fn is_zero(&self) -> (r: bool) {
        *self == 0
    }
}

impl Integer for i128 {
    open spec fn spec_is_zero(value: i128) -> bool {
        value == 0
    }

    fn is_zero(&self) -> (r: bool) {
        *self == 0
    }
}

impl Integer for isize {
    open spec fn spec_is_zero(value: isize) -> bool {
        value == 0
    }

    fn is_zero(&self) -> (r: bool) {
        *self == 0
    }
}

/// An integer that is not zero.
#[derive(Debug, PartialEq, Eq)]
pub struct NonZero<T: Integer> {
    value: T,
}

impl<T: Integer> Clone for NonZero<T> {
    fn clone(&self) -> (r: Self)
        ensures
            r == *self,
    {
        proof {
            use_type_invariant(self);
        }
        NonZero { value: self.value }
    }
}

impl<T: Integer> Copy for NonZero<T> {}

impl<T: Integer> DeepView for NonZero<T> {
    type V = T::V;

    closed spec fn deep_view(&self) -> T::V {
        self.value.deep_view()
    }
}

impl<T: Integer> NonZero<T> {
    #[verifier::type_invariant]
    spec fn not_zero(self) -> bool {
        !T::spec_is_zero(self.value.deep_view())
    }

    /// The non-zero integer `value`; `None` where `value` is zero.
    pub fn new(value: T) -> (r: Option<Self>)
        ensures
            match r {
                Some(n) => !T::spec_is_zero(value.deep_view()) && n.deep_view()
                    == value.deep_view(),
                None => T::spec_is_zero(value.deep_view()),
            },
    {
        if value.is_zero() {
            None
        } else {
            Some(NonZero { value })
        }
    }

    /// The integer, which is not zero.
    pub fn get(&self) -> (r: T)
        ensures
            r.deep_view() == self.deep_view(),
            !T::spec_is_zero(r.deep_view()),
    {
        proof {
            use_type_invariant(self);
        }
        self.value
    }
}

/// The non-zero integer that `text` stands for: the integer that it stands
/// for, unless that is zero.
pub open spec fn non_zero_of<T: Integer>(text: Seq<char>) -> Option<T::V> {
    match T::parsed(text) {
        Some(value) => if T::spec_is_zero(value) {
            None
        } else {
            Some(value)
        },
        None => None,
    }
}

impl<T: Integer> FromText for NonZero<T> {
    open spec fn parsed(text: Seq<char>) -> Option<T::V> {
        non_zero_of::<T>(text)
    }

    fn from_text(text: &str) -> (r: Option<Self>) {
        match T::from_text(text) {
            Some(value) => NonZero::new(value),
            None => None,
        }
    }
}

impl<T: Integer> LoadEnv for NonZero<T> {
    open spec fn overridden(value: T::V, path: Seq<char>, env: Map<Seq<char>, Seq<char>>) -> T::V {
        scalar_value::<NonZero<T>>(value, found(env, path))
    }

    open spec fn key_set(value: T::V, path: Seq<char>) -> Set<Seq<char>> {
        set![key_of(path)]
    }

    open spec fn visited(value: T::V, path: Seq<char>, state: State) -> State {
        state.consulted(path, scalar_converts::<NonZero<T>>(found(state.env, path)))
    }

    fn load(self, path: &str, loader: &mut Loader) -> (r: Self) {
        loader.load_from_str(self, path)
    }

    proof fn lemma_visit_grows(value: T::V, path: Seq<char>, state: State) {
        lemma_consulted_grows(state, path, scalar_converts::<NonZero<T>>(found(state.env, path)));
    }

    proof fn lemma_unset_keeps(value: T::V, path: Seq<char>, env: Map<Seq<char>, Seq<char>>) {
        assert(Self::key_set(value, path).contains(key_of(path)));
    }
}

/// A non-zero integer whose key holds a text that stands for zero stays as it
/// was; one whose key holds a text that stands for another integer becomes
/// that integer.
pub proof fn law_zero_never_overrides<T: Integer>(
    fallback: T::V,
    value: T::V,
    path: Seq<char>,
    env: Map<Seq<char>, Seq<char>>,
)
    requires
        env.contains_key(key_of(path)),
        T::parsed(env[key_of(path)]) == Some(value),
    ensures
        NonZero::<T>::overridden(fallback, path, env) == if T::spec_is_zero(value) {
            fallback
        } else {
            value
        },
{
}

} // verus!
