//! The descent protocol: what every value that takes part in a load pass
//! implements, and its implementations for the scalar types.

use crate::loader::{found, scalar_converts, scalar_value, Loader, State};
use crate::text::key_of;
use vstd::prelude::*;

verus! {

/// A value that a load pass can override.
///
/// `load` is given the value, its path and the loader of the pass, and returns
/// the value to use from then on. The three specification functions say, over
/// the mathematical form of the value, what `load` returns, which keys it
/// consults and what it leaves in the loader; the two laws are what every
/// implementation owes.
pub trait LoadEnv: Sized + DeepView {
    /// The value after the descent: it depends on the store alone.
    spec fn overridden(
        value: Self::V,
        path: Seq<char>,
        env: Map<Seq<char>, Seq<char>>,
    ) -> Self::V;

    /// The keys that the descent consults.
    spec fn key_set(value: Self::V, path: Seq<char>) -> Set<Seq<char>>;

    /// The loader's state after the descent.
    spec fn visited(value: Self::V, path: Seq<char>, state: State) -> State;

    /// Overrides the value from the store of `loader`.
    fn load(self, path: &str, loader: &mut Loader) -> (r: Self)
        ensures
            r.deep_view() == Self::overridden(self.deep_view(), path@, old(loader)@.env),
            final(loader)@ == Self::visited(self.deep_view(), path@, old(loader)@),
    ;

    /// A descent never changes the store, registers exactly its keys, and only
    /// adds diagnostics.
    proof fn lemma_visit_grows(value: Self::V, path: Seq<char>, state: State)
        ensures
            Self::visited(value, path, state).env == state.env,
            Self::visited(value, path, state).names == state.names.union(
                Self::key_set(value, path),
            ),
            state.log.is_prefix_of(Self::visited(value, path, state).log),
    ;

    /// Where the store holds none of the keys that the descent consults, the
    /// value stays as it is.
    proof fn lemma_unset_keeps(value: Self::V, path: Seq<char>, env: Map<Seq<char>, Seq<char>>)
        requires
            Self::key_set(value, path).disjoint(env.dom()),
        ensures
            Self::overridden(value, path, env) == value,
    ;
}

/// One lookup leaves the store alone, registers the key of its path and adds
/// one or two diagnostics.
pub proof fn lemma_consulted_grows(state: State, path: Seq<char>, converts: bool)
    ensures
        state.consulted(path, converts).env == state.env,
        state.consulted(path, converts).names == state.names.union(set![key_of(path)]),
        state.log.is_prefix_of(state.consulted(path, converts).log),
{
    assert(state.names.insert(key_of(path)) =~= state.names.union(set![key_of(path)]));
}

impl LoadEnv for bool {
    open spec fn overridden(value: bool, path: Seq<char>, env: Map<Seq<char>, Seq<char>>) -> bool {
        scalar_value::<bool>(value, found(env, path))
    }

    open spec fn key_set(value: bool, path: Seq<char>) -> Set<Seq<char>> {
        set![key_of(path)]
    }

    open spec fn visited(value: bool, path: Seq<char>, state: State) -> State {
        state.consulted(path, scalar_converts::<bool>(found(state.env, path)))
    }

    fn load(self, path: &str, loader: &mut Loader) -> (r: bool) {
        loader.load_from_str(self, path)
    }

    proof fn lemma_visit_grows(value: bool, path: Seq<char>, state: State) {
        lemma_consulted_grows(state, path, scalar_converts::<bool>(found(state.env, path)));
    }

    proof fn lemma_unset_keeps(value: bool, path: Seq<char>, env: Map<Seq<char>, Seq<char>>) {
        assert(Self::key_set(value, path).contains(key_of(path)));
    }
}

impl LoadEnv for char {
    open spec fn overridden(value: char, path: Seq<char>, env: Map<Seq<char>, Seq<char>>) -> char {
        scalar_value::<char>(value, found(env, path))
    }

    open spec fn key_set(value: char, path: Seq<char>) -> Set<Seq<char>> {
        set![key_of(path)]
    }

    open spec fn visited(value: char, path: Seq<char>, state: State) -> State {
        state.consulted(path, scalar_converts::<char>(found(state.env, path)))
    }

    fn load(self, path: &str, loader: &mut Loader) -> (r: char) {
        loader.load_from_str(self, path)
    }

    proof fn lemma_visit_grows(value: char, path: Seq<char>, state: State) {
        lemma_consulted_grows(state, path, scalar_converts::<char>(found(state.env, path)));
    }

    proof fn lemma_unset_keeps(value: char, path: Seq<char>, env: Map<Seq<char>, Seq<char>>) {
        assert(Self::key_set(value, path).contains(key_of(path)));
    }
}

impl LoadEnv for String {
    open spec fn overridden(
        value: Seq<char>,
        path: Seq<char>,
        env: Map<Seq<char>, Seq<char>>,
    ) -> Seq<char> {
        scalar_value::<String>(value, found(env, path))
    }

    open spec fn key_set(value: Seq<char>, path: Seq<char>) -> Set<Seq<char>> {
        set![key_of(path)]
    }

    open spec fn visited(value: Seq<char>, path: Seq<char>, state: State) -> State {
        state.consulted(path, scalar_converts::<String>(found(state.env, path)))
    }

    fn load(self, path: &str, loader: &mut Loader) -> (r: String) {
        loader.load_from_str(self, path)
    }

    proof fn lemma_visit_grows(value: Seq<char>, path: Seq<char>, state: State) {
        lemma_consulted_grows(state, path, scalar_converts::<String>(found(state.env, path)));
    }

    proof fn lemma_unset_keeps(value: Seq<char>, path: Seq<char>, env: Map<Seq<char>, Seq<char>>) {
        assert(Self::key_set(value, path).contains(key_of(path)));
    }
}

impl LoadEnv for u8 {
    open spec fn overridden(value: u8, path: Seq<char>, env: Map<Seq<char>, Seq<char>>) -> u8 {
        scalar_value::<u8>(value, found(env, path))
    }

    open spec fn key_set(value: u8, path: Seq<char>) -> Set<Seq<char>> {
        set![key_of(path)]
    }

    open spec fn visited(value: u8, path: Seq<char>, state: State) -> State {
        state.consulted(path, scalar_converts::<u8>(found(state.env, path)))
    }

    fn load(self, path: &str, loader: &mut Loader) -> (r: u8) {
        loader.load_from_str(self, path)
    }

    proof fn lemma_visit_grows(value: u8, path: Seq<char>, state: State) {
        lemma_consulted_grows(state, path, scalar_converts::<u8>(found(state.env, path)));
    }

    proof fn lemma_unset_keeps(value: u8, path: Seq<char>, env: Map<Seq<char>, Seq<char>>) {
        assert(Self::key_set(value, path).contains(key_of(path)));
    }
}

impl LoadEnv for u16 {
    open spec fn overridden(value: u16, path: Seq<char>, env: Map<Seq<char>, Seq<char>>) -> u16 {
        scalar_value::<u16>(value, found(env, path))
    }

    open spec fn key_set(value: u16, path: Seq<char>) -> Set<Seq<char>> {
        set![key_of(path)]
    }

    open spec fn visited(value: u16, path: Seq<char>, state: State) -> State {
        state.consulted(path, scalar_converts::<u16>(found(state.env, path)))
    }

    fn load(self, path: &str, loader: &mut Loader) -> (r: u16) {
        loader.load_from_str(self, path)
    }

    proof fn lemma_visit_grows(value: u16, path: Seq<char>, state: State) {
        lemma_consulted_grows(state, path, scalar_converts::<u16>(found(state.env, path)));
    }

    proof fn lemma_unset_keeps(value: u16, path: Seq<char>, env: Map<Seq<char>, Seq<char>>) {
        assert(Self::key_set(value, path).contains(key_of(path)));
    }
}

impl LoadEnv for u32 {
    open spec fn overridden(value: u32, path: Seq<char>, env: Map<Seq<char>, Seq<char>>) -> u32 {
        scalar_value::<u32>(value, found(env, path))
    }

    open spec fn key_set(value: u32, path: Seq<char>) -> Set<Seq<char>> {
        set![key_of(path)]
    }

    open spec fn visited(value: u32, path: Seq<char>, state: State) -> State {
        state.consulted(path, scalar_converts::<u32>(found(state.env, path)))
    }

    fn load(self, path: &str, loader: &mut Loader) -> (r: u32) {
        loader.load_from_str(self, path)
    }

    proof fn lemma_visit_grows(value: u32, path: Seq<char>, state: State) {
        lemma_consulted_grows(state, path, scalar_converts::<u32>(found(state.env, path)));
    }

    proof fn lemma_unset_keeps(value: u32, path: Seq<char>, env: Map<Seq<char>, Seq<char>>) {
        assert(Self::key_set(value, path).contains(key_of(path)));
    }
}

impl LoadEnv for u64 {
    open spec fn overridden(value: u64, path: Seq<char>, env: Map<Seq<char>, Seq<char>>) -> u64 {
        scalar_value::<u64>(value, found(env, path))
    }

    open spec fn key_set(value: u64, path: Seq<char>) -> Set<Seq<char>> {
        set![key_of(path)]
    }

    open spec fn visited(value: u64, path: Seq<char>, state: State) -> State {
        state.consulted(path, scalar_converts::<u64>(found(state.env, path)))
    }

    fn load(self, path: &str, loader: &mut Loader) -> (r: u64) {
        loader.load_from_str(self, path)
    }

    proof fn lemma_visit_grows(value: u64, path: Seq<char>, state: State) {
        lemma_consulted_grows(state, path, scalar_converts::<u64>(found(state.env, path)));
    }

    proof fn lemma_unset_keeps(value: u64, path: Seq<char>, env: Map<Seq<char>, Seq<char>>) {
        assert(Self::key_set(value, path).contains(key_of(path)));
    }
}

impl LoadEnv for u128 {
    open spec fn overridden(value: u128, path: Seq<char>, env: Map<Seq<char>, Seq<char>>) -> u128 {
        scalar_value::<u128>(value, found(env, path))
    }

    open spec fn key_set(value: u128, path: Seq<char>) -> Set<Seq<char>> {
        set![key_of(path)]
    }

    open spec fn visited(value: u128, path: Seq<char>, state: State) -> State {
        state.consulted(path, scalar_converts::<u128>(found(state.env, path)))
    }

    fn load(self, path: &str, loader: &mut Loader) -> (r: u128) {
        loader.load_from_str(self, path)
    }

    proof fn lemma_visit_grows(value: u128, path: Seq<char>, state: State) {
        lemma_consulted_grows(state, path, scalar_converts::<u128>(found(state.env, path)));
    }

    proof fn lemma_unset_keeps(value: u128, path: Seq<char>, env: Map<Seq<char>, Seq<char>>) {
        assert(Self::key_set(value, path).contains(key_of(path)));
    }
}

impl LoadEnv for usize {
    open spec fn overridden(
        value: usize,
        path: Seq<char>,
        env: Map<Seq<char>, Seq<char>>,
    ) -> usize {
        scalar_value::<usize>(value, found(env, path))
    }

    open spec fn key_set(value: usize, path: Seq<char>) -> Set<Seq<char>> {
        set![key_of(path)]
    }

    open spec fn visited(value: usize, path: Seq<char>, state: State) -> State {
        state.consulted(path, scalar_converts::<usize>(found(state.env, path)))
    }

    fn load(self, path: &str, loader: &mut Loader) -> (r: usize) {
        loader.load_from_str(self, path)
    }

    proof fn lemma_visit_grows(value: usize, path: Seq<char>, state: State) {
        lemma_consulted_grows(state, path, scalar_converts::<usize>(found(state.env, path)));
    }

    proof fn lemma_unset_keeps(value: usize, path: Seq<char>, env: Map<Seq<char>, Seq<char>>) {
        assert(Self::key_set(value, path).contains(key_of(path)));
    }
}

impl LoadEnv for i8 {
    open spec fn overridden(value: i8, path: Seq<char>, env: Map<Seq<char>, Seq<char>>) -> i8 {
        scalar_value::<i8>(value, found(env, path))
    }

    open spec fn key_set(value: i8, path: Seq<char>) -> Set<Seq<char>> {
        set![key_of(path)]
    }

    open spec fn visited(value: i8, path: Seq<char>, state: State) -> State {
        state.consulted(path, scalar_converts::<i8>(found(state.env, path)))
    }

    fn load(self, path: &str, loader: &mut Loader) -> (r: i8) {
        loader.load_from_str(self, path)
    }

    proof fn lemma_visit_grows(value: i8, path: Seq<char>, state: State) {
        lemma_consulted_grows(state, path, scalar_converts::<i8>(found(state.env, path)));
    }

    proof fn lemma_unset_keeps(value: i8, path: Seq<char>, env: Map<Seq<char>, Seq<char>>) {
        assert(Self::key_set(value, path).contains(key_of(path)));
    }
}

impl LoadEnv for i16 {
    open spec fn overridden(value: i16, path: Seq<char>, env: Map<Seq<char>, Seq<char>>) -> i16 {
        scalar_value::<i16>(value, found(env, path))
    }

    open spec fn key_set(value: i16, path: Seq<char>) -> Set<Seq<char>> {
        set![key_of(path)]
    }

    open spec fn visited(value: i16, path: Seq<char>, state: State) -> State {
        state.consulted(path, scalar_converts::<i16>(found(state.env, path)))
    }

    fn load(self, path: &str, loader: &mut Loader) -> (r: i16) {
        loader.load_from_str(self, path)
    }

    proof fn lemma_visit_grows(value: i16, path: Seq<char>, state: State) {
        lemma_consulted_grows(state, path, scalar_converts::<i16>(found(state.env, path)));
    }

    proof fn lemma_unset_keeps(value: i16, path: Seq<char>, env: Map<Seq<char>, Seq<char>>) {
        assert(Self::key_set(value, path).contains(key_of(path)));
    }
}

impl LoadEnv for i32 {
    open spec fn overridden(value: i32, path: Seq<char>, env: Map<Seq<char>, Seq<char>>) -> i32 {
        scalar_value::<i32>(value, found(env, path))
    }

    open spec fn key_set(value: i32, path: Seq<char>) -> Set<Seq<char>> {
        set![key_of(path)]
    }

    open spec fn visited(value: i32, path: Seq<char>, state: State) -> State {
        state.consulted(path, scalar_converts::<i32>(found(state.env, path)))
    }

    fn load(self, path: &str, loader: &mut Loader) -> (r: i32) {
        loader.load_from_str(self, path)
    }

    proof fn lemma_visit_grows(value: i32, path: Seq<char>, state: State) {
        lemma_consulted_grows(state, path, scalar_converts::<i32>(found(state.env, path)));
    }

    proof fn lemma_unset_keeps(value: i32, path: Seq<char>, env: Map<Seq<char>, Seq<char>>) {
        assert(Self::key_set(value, path).contains(key_of(path)));
    }
}

impl LoadEnv for i64 {
    open spec fn overridden(value: i64, path: Seq<char>, env: Map<Seq<char>, Seq<char>>) -> i64 {
        scalar_value::<i64>(value, found(env, path))
    }

    open spec fn key_set(value: i64, path: Seq<char>) -> Set<Seq<char>> {
        set![key_of(path)]
    }

    open spec fn visited(value: i64, path: Seq<char>, state: State) -> State {
        state.consulted(path, scalar_converts::<i64>(found(state.env, path)))
    }

    fn load(self, path: &str, loader: &mut Loader) -> (r: i64) {
        loader.load_from_str(self, path)
    }

    proof fn lemma_visit_grows(value: i64, path: Seq<char>, state: State) {
        lemma_consulted_grows(state, path, scalar_converts::<i64>(found(state.env, path)));
    }

    proof fn lemma_unset_keeps(value: i64, path: Seq<char>, env: Map<Seq<char>, Seq<char>>) {
        assert(Self::key_set(value, path).contains(key_of(path)));
    }
}

impl LoadEnv for i128 {
    open spec fn overridden(value: i128, path: Seq<char>, env: Map<Seq<char>, Seq<char>>) -> i128 {
        scalar_value::<i128>(value, found(env, path))
    }

    open spec fn key_set(value: i128, path: Seq<char>) -> Set<Seq<char>> {
        set![key_of(path)]
    }

    open spec fn visited(value: i128, path: Seq<char>, state: State) -> State {
        state.consulted(path, scalar_converts::<i128>(found(state.env, path)))
    }

    fn load(self, path: &str, loader: &mut Loader) -> (r: i128) {
        loader.load_from_str(self, path)
    }

    proof fn lemma_visit_grows(value: i128, path: Seq<char>, state: State) {
        lemma_consulted_grows(state, path, scalar_converts::<i128>(found(state.env, path)));
    }

    proof fn lemma_unset_keeps(value: i128, path: Seq<char>, env: Map<Seq<char>, Seq<char>>) {
        assert(Self::key_set(value, path).contains(key_of(path)));
    }
}

impl LoadEnv for isize {
    open spec fn overridden(
        value: isize,
        path: Seq<char>,
        env: Map<Seq<char>, Seq<char>>,
    ) -> isize {
        scalar_value::<isize>(value, found(env, path))
    }

    open spec fn key_set(value: isize, path: Seq<char>) -> Set<Seq<char>> {
        set![key_of(path)]
    }

    open spec fn visited(value: isize, path: Seq<char>, state: State) -> State {
        state.consulted(path, scalar_converts::<isize>(found(state.env, path)))
    }

    fn load(self, path: &str, loader: &mut Loader) -> (r: isize) {
        loader.load_from_str(self, path)
    }

    proof fn lemma_visit_grows(value: isize, path: Seq<char>, state: State) {
        lemma_consulted_grows(state, path, scalar_converts::<isize>(found(state.env, path)));
    }

    proof fn lemma_unset_keeps(value: isize, path: Seq<char>, env: Map<Seq<char>, Seq<char>>) {
        assert(Self::key_set(value, path).contains(key_of(path)));
    }
}

} // verus!
