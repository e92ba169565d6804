//! The built-in leaves of a configuration tree: the scalars, which a text
//! converts to directly, and the containers, which are decoded whole.

use crate::load_env::LoadEnv;
use crate::loader::{Loader, State};
use crate::span::Span;
use vstd::prelude::*;

verus! {

/// A leaf of a configuration tree.
#[derive(Clone, Debug, PartialEq, Eq)]
pub enum Leaf {
    Bool(bool),
    Char(char),
    Text(String),
    U8(u8),
    U16(u16),
    U32(u32),
    U64(u64),
    U128(u128),
    Usize(usize),
    I8(i8),
    I16(i16),
    I32(i32),
    I64(i64),
    I128(i128),
    Isize(isize),
    Span(Span),
    Bools(Vec<bool>),
    Signed(Vec<i64>),
    Unsigned(Vec<u64>),
    Texts(Vec<String>),
    MaybeSigned(Option<i64>),
    MaybeText(Option<String>),
}

/// The mathematical form of a [`Leaf`].
pub enum LeafView {
    Bool(bool),
    Char(char),
    Text(Seq<char>),
    U8(u8),
    U16(u16),
    U32(u32),
    U64(u64),
    U128(u128),
    Usize(usize),
    I8(i8),
    I16(i16),
    I32(i32),
    I64(i64),
    I128(i128),
    Isize(isize),
    Span(Span),
    Bools(Seq<bool>),
    Signed(Seq<i64>),
    Unsigned(Seq<u64>),
    Texts(Seq<Seq<char>>),
    MaybeSigned(Option<i64>),
    MaybeText(Option<Seq<char>>),
}

impl DeepView for Leaf {
    type V = LeafView;

    open spec fn deep_view(&self) -> LeafView {
        match self {
            Leaf::Bool(x) => LeafView::Bool(x.deep_view()),
            Leaf::Char(x) => LeafView::Char(x.deep_view()),
            Leaf::Text(x) => LeafView::Text(x.deep_view()),
            Leaf::U8(x) => LeafView::U8(x.deep_view()),
            Leaf::U16(x) => LeafView::U16(x.deep_view()),
            Leaf::U32(x) => LeafView::U32(x.deep_view()),
            Leaf::U64(x) => LeafView::U64(x.deep_view()),
            Leaf::U128(x) => LeafView::U128(x.deep_view()),
            Leaf::Usize(x) => LeafView::Usize(x.deep_view()),
            Leaf::I8(x) => LeafView::I8(x.deep_view()),
            Leaf::I16(x) => LeafView::I16(x.deep_view()),
            Leaf::I32(x) => LeafView::I32(x.deep_view()),
            Leaf::I64(x) => LeafView::I64(x.deep_view()),
            Leaf::I128(x) => LeafView::I128(x.deep_view()),
            Leaf::Isize(x) => LeafView::Isize(x.deep_view()),
            Leaf::Span(x) => LeafView::Span(x.deep_view()),
            Leaf::Bools(x) => LeafView::Bools(x.deep_view()),
            Leaf::Signed(x) => LeafView::Signed(x.deep_view()),
            Leaf::Unsigned(x) => LeafView::Unsigned(x.deep_view()),
            Leaf::Texts(x) => LeafView::Texts(x.deep_view()),
            Leaf::MaybeSigned(x) => LeafView::MaybeSigned(x.deep_view()),
            Leaf::MaybeText(x) => LeafView::MaybeText(x.deep_view()),
        }
    }
}

fn copy_items<T: Copy>(items: &Vec<T>) -> (r: Vec<T>)
    ensures
        r@ == items@,
{
    let mut out: Vec<T> = Vec::new();
    let mut i: usize = 0;
    while i < items.len()
        invariant
            i <= items.len(),
            out@ == items@.take(i as int),
        decreases items.len() - i,
    {
        out.push(items[i]);
        assert(out@ =~= items@.take(i + 1));
        i += 1;
    }
    assert(items@.take(i as int) =~= items@);
    out
}

fn copy_texts(items: &Vec<String>) -> (r: Vec<String>)
    ensures
        r@ == items@,
{
    let mut out: Vec<String> = Vec::new();
    let mut i: usize = 0;
    while i < items.len()
        invariant
            i <= items.len(),
            out@ == items@.take(i as int),
        decreases items.len() - i,
    {
        out.push(items[i].clone());
        assert(out@ =~= items@.take(i + 1));
        i += 1;
    }
    assert(items@.take(i as int) =~= items@);
    out
}

impl Leaf {
    /// A copy of the leaf.
    pub fn duplicate(&self) -> (r: Leaf)
        ensures
            r.deep_view() == self.deep_view(),
    {
        match self {
            Leaf::Bool(x) => Leaf::Bool(*x),
            Leaf::Char(x) => Leaf::Char(*x),
            Leaf::Text(x) => Leaf::Text(x.clone()),
            Leaf::U8(x) => Leaf::U8(*x),
            Leaf::U16(x) => Leaf::U16(*x),
            Leaf::U32(x) => Leaf::U32(*x),
            Leaf::U64(x) => Leaf::U64(*x),
            Leaf::U128(x) => Leaf::U128(*x),
            Leaf::Usize(x) => Leaf::Usize(*x),
            Leaf::I8(x) => Leaf::I8(*x),
            Leaf::I16(x) => Leaf::I16(*x),
            Leaf::I32(x) => Leaf::I32(*x),
            Leaf::I64(x) => Leaf::I64(*x),
            Leaf::I128(x) => Leaf::I128(*x),
            Leaf::Isize(x) => Leaf::Isize(*x),
            Leaf::Span(x) => Leaf::Span(*x),
            Leaf::Bools(x) => Leaf::Bools(copy_items(x)),
            Leaf::Signed(x) => Leaf::Signed(copy_items(x)),
            Leaf::Unsigned(x) => Leaf::Unsigned(copy_items(x)),
            Leaf::Texts(x) => Leaf::Texts(copy_texts(x)),
            Leaf::MaybeSigned(x) => Leaf::MaybeSigned(*x),
            Leaf::MaybeText(x) => Leaf::MaybeText(
                match x {
                    Some(t) => Some(t.clone()),
                    None => None,
                },
            ),
        }
    }
}

impl LoadEnv for Leaf {
    open spec fn overridden(
        value: LeafView,
        path: Seq<char>,
        env: Map<Seq<char>, Seq<char>>,
    ) -> LeafView {
        match value {
            LeafView::Bool(x) => LeafView::Bool(bool::overridden(x, path, env)),
            LeafView::Char(x) => LeafView::Char(char::overridden(x, path, env)),
            LeafView::Text(x) => LeafView::Text(String::overridden(x, path, env)),
            LeafView::U8(x) => LeafView::U8(u8::overridden(x, path, env)),
            LeafView::U16(x) => LeafView::U16(u16::overridden(x, path, env)),
            LeafView::U32(x) => LeafView::U32(u32::overridden(x, path, env)),
            LeafView::U64(x) => LeafView::U64(u64::overridden(x, path, env)),
            LeafView::U128(x) => LeafView::U128(u128::overridden(x, path, env)),
            LeafView::Usize(x) => LeafView::Usize(usize::overridden(x, path, env)),
            LeafView::I8(x) => LeafView::I8(i8::overridden(x, path, env)),
            LeafView::I16(x) => LeafView::I16(i16::overridden(x, path, env)),
            LeafView::I32(x) => LeafView::I32(i32::overridden(x, path, env)),
            LeafView::I64(x) => LeafView::I64(i64::overridden(x, path, env)),
            LeafView::I128(x) => LeafView::I128(i128::overridden(x, path, env)),
            LeafView::Isize(x) => LeafView::Isize(isize::overridden(x, path, env)),
            LeafView::Span(x) => LeafView::Span(Span::overridden(x, path, env)),
            LeafView::Bools(x) => LeafView::Bools(Vec::<bool>::overridden(x, path, env)),
            LeafView::Signed(x) => LeafView::Signed(Vec::<i64>::overridden(x, path, env)),
            LeafView::Unsigned(x) => LeafView::Unsigned(Vec::<u64>::overridden(x, path, env)),
            LeafView::Texts(x) => LeafView::Texts(Vec::<String>::overridden(x, path, env)),
            LeafView::MaybeSigned(x) => LeafView::MaybeSigned(
                Option::<i64>::overridden(x, path, env),
            ),
            LeafView::MaybeText(x) => LeafView::MaybeText(
                Option::<String>::overridden(x, path, env),
            ),
        }
    }

    open spec fn key_set(value: LeafView, path: Seq<char>) -> Set<Seq<char>> {
        match value {
            LeafView::Bool(x) => bool::key_set(x, path),
            LeafView::Char(x) => char::key_set(x, path),
            LeafView::Text(x) => String::key_set(x, path),
            LeafView::U8(x) => u8::key_set(x, path),
            LeafView::U16(x) => u16::key_set(x, path),
            LeafView::U32(x) => u32::key_set(x, path),
            LeafView::U64(x) => u64::key_set(x, path),
            LeafView::U128(x) => u128::key_set(x, path),
            LeafView::Usize(x) => usize::key_set(x, path),
            LeafView::I8(x) => i8::key_set(x, path),
            LeafView::I16(x) => i16::key_set(x, path),
            LeafView::I32(x) => i32::key_set(x, path),
            LeafView::I64(x) => i64::key_set(x, path),
            LeafView::I128(x) => i128::key_set(x, path),
            LeafView::Isize(x) => isize::key_set(x, path),
            LeafView::Span(x) => Span::key_set(x, path),
            LeafView::Bools(x) => Vec::<bool>::key_set(x, path),
            LeafView::Signed(x) => Vec::<i64>::key_set(x, path),
            LeafView::Unsigned(x) => Vec::<u64>::key_set(x, path),
            LeafView::Texts(x) => Vec::<String>::key_set(x, path),
            LeafView::MaybeSigned(x) => Option::<i64>::key_set(x, path),
            LeafView::MaybeText(x) => Option::<String>::key_set(x, path),
        }
    }

    open spec fn visited(value: LeafView, path: Seq<char>, state: State) -> State {
        match value {
            LeafView::Bool(x) => bool::visited(x, path, state),
            LeafView::Char(x) => char::visited(x, path, state),
            LeafView::Text(x) => String::visited(x, path, state),
            LeafView::U8(x) => u8::visited(x, path, state),
            LeafView::U16(x) => u16::visited(x, path, state),
            LeafView::U32(x) => u32::visited(x, path, state),
            LeafView::U64(x) => u64::visited(x, path, state),
            LeafView::U128(x) => u128::visited(x, path, state),
            LeafView::Usize(x) => usize::visited(x, path, state),
            LeafView::I8(x) => i8::visited(x, path, state),
            LeafView::I16(x) => i16::visited(x, path, state),
            LeafView::I32(x) => i32::visited(x, path, state),
            LeafView::I64(x) => i64::visited(x, path, state),
            LeafView::I128(x) => i128::visited(x, path, state),
            LeafView::Isize(x) => isize::visited(x, path, state),
            LeafView::Span(x) => Span::visited(x, path, state),
            LeafView::Bools(x) => Vec::<bool>::visited(x, path, state),
            LeafView::Signed(x) => Vec::<i64>::visited(x, path, state),
            LeafView::Unsigned(x) => Vec::<u64>::visited(x, path, state),
            LeafView::Texts(x) => Vec::<String>::visited(x, path, state),
            LeafView::MaybeSigned(x) => Option::<i64>::visited(x, path, state),
            LeafView::MaybeText(x) => Option::<String>::visited(x, path, state),
        }
    }

    fn load(self, path: &str, loader: &mut Loader) -> (r: Leaf) {
        match self {
            Leaf::Bool(x) => Leaf::Bool(x.load(path, loader)),
            Leaf::Char(x) => Leaf::Char(x.load(path, loader)),
            Leaf::Text(x) => Leaf::Text(x.load(path, loader)),
            Leaf::U8(x) => Leaf::U8(x.load(path, loader)),
            Leaf::U16(x) => Leaf::U16(x.load(path, loader)),
            Leaf::U32(x) => Leaf::U32(x.load(path, loader)),
            Leaf::U64(x) => Leaf::U64(x.load(path, loader)),
            Leaf::U128(x) => Leaf::U128(x.load(path, loader)),
            Leaf::Usize(x) => Leaf::Usize(x.load(path, loader)),
            Leaf::I8(x) => Leaf::I8(x.load(path, loader)),
            Leaf::I16(x) => Leaf::I16(x.load(path, loader)),
            Leaf::I32(x) => Leaf::I32(x.load(path, loader)),
            Leaf::I64(x) => Leaf::I64(x.load(path, loader)),
            Leaf::I128(x) => Leaf::I128(x.load(path, loader)),
            Leaf::Isize(x) => Leaf::Isize(x.load(path, loader)),
            Leaf::Span(x) => Leaf::Span(x.load(path, loader)),
            Leaf::Bools(x) => Leaf::Bools(x.load(path, loader)),
            Leaf::Signed(x) => Leaf::Signed(x.load(path, loader)),
            Leaf::Unsigned(x) => Leaf::Unsigned(x.load(path, loader)),
            Leaf::Texts(x) => Leaf::Texts(x.load(path, loader)),
            Leaf::MaybeSigned(x) => Leaf::MaybeSigned(x.load(path, loader)),
            Leaf::MaybeText(x) => Leaf::MaybeText(x.load(path, loader)),
        }
    }

    proof fn lemma_visit_grows(value: LeafView, path: Seq<char>, state: State) {
        match value {
            LeafView::Bool(x) => bool::lemma_visit_grows(x, path, state),
            LeafView::Char(x) => char::lemma_visit_grows(x, path, state),
            LeafView::Text(x) => String::lemma_visit_grows(x, path, state),
            LeafView::U8(x) => u8::lemma_visit_grows(x, path, state),
            LeafView::U16(x) => u16::lemma_visit_grows(x, path, state),
            LeafView::U32(x) => u32::lemma_visit_grows(x, path, state),
            LeafView::U64(x) => u64::lemma_visit_grows(x, path, state),
            LeafView::U128(x) => u128::lemma_visit_grows(x, path, state),
            LeafView::Usize(x) => usize::lemma_visit_grows(x, path, state),
            LeafView::I8(x) => i8::lemma_visit_grows(x, path, state),
            LeafView::I16(x) => i16::lemma_visit_grows(x, path, state),
            LeafView::I32(x) => i32::lemma_visit_grows(x, path, state),
            LeafView::I64(x) => i64::lemma_visit_grows(x, path, state),
            LeafView::I128(x) => i128::lemma_visit_grows(x, path, state),
            LeafView::Isize(x) => isize::lemma_visit_grows(x, path, state),
            LeafView::Span(x) => Span::lemma_visit_grows(x, path, state),
            LeafView::Bools(x) => Vec::<bool>::lemma_visit_grows(x, path, state),
            LeafView::Signed(x) => Vec::<i64>::lemma_visit_grows(x, path, state),
            LeafView::Unsigned(x) => Vec::<u64>::lemma_visit_grows(x, path, state),
            LeafView::Texts(x) => Vec::<String>::lemma_visit_grows(x, path, state),
            LeafView::MaybeSigned(x) => Option::<i64>::lemma_visit_grows(x, path, state),
            LeafView::MaybeText(x) => Option::<String>::lemma_visit_grows(x, path, state),
        }
    }

    proof fn lemma_unset_keeps(value: LeafView, path: Seq<char>, env: Map<Seq<char>, Seq<char>>) {
        match value {
            LeafView::Bool(x) => bool::lemma_unset_keeps(x, path, env),
            LeafView::Char(x) => char::lemma_unset_keeps(x, path, env),
            LeafView::Text(x) => String::lemma_unset_keeps(x, path, env),
            LeafView::U8(x) => u8::lemma_unset_keeps(x, path, env),
            LeafView::U16(x) => u16::lemma_unset_keeps(x, path, env),
            LeafView::U32(x) => u32::lemma_unset_keeps(x, path, env),
            LeafView::U64(x) => u64::lemma_unset_keeps(x, path, env),
            LeafView::U128(x) => u128::lemma_unset_keeps(x, path, env),
            LeafView::Usize(x) => usize::lemma_unset_keeps(x, path, env),
            LeafView::I8(x) => i8::lemma_unset_keeps(x, path, env),
            LeafView::I16(x) => i16::lemma_unset_keeps(x, path, env),
            LeafView::I32(x) => i32::lemma_unset_keeps(x, path, env),
            LeafView::I64(x) => i64::lemma_unset_keeps(x, path, env),
            LeafView::I128(x) => i128::lemma_unset_keeps(x, path, env),
            LeafView::Isize(x) => isize::lemma_unset_keeps(x, path, env),
            LeafView::Span(x) => Span::lemma_unset_keeps(x, path, env),
            LeafView::Bools(x) => Vec::<bool>::lemma_unset_keeps(x, path, env),
            LeafView::Signed(x) => Vec::<i64>::lemma_unset_keeps(x, path, env),
            LeafView::Unsigned(x) => Vec::<u64>::lemma_unset_keeps(x, path, env),
            LeafView::Texts(x) => Vec::<String>::lemma_unset_keeps(x, path, env),
            LeafView::MaybeSigned(x) => Option::<i64>::lemma_unset_keeps(x, path, env),
            LeafView::MaybeText(x) => Option::<String>::lemma_unset_keeps(x, path, env),
        }
    }
}

} // verus!
