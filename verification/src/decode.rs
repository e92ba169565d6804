//! The structured strategy: decoding one text, as one YAML document, into a
//! whole container. JSON-like brackets and braces are YAML too.

use crate::load_env::{lemma_consulted_grows, LoadEnv};
use crate::loader::{found, structured_converts, structured_value, Loader, State};
use crate::text::key_of;
use std::collections::{BTreeMap, BTreeSet};
use vstd::prelude::*;

verus! {

/// A type whose values can be decoded from a YAML document.
pub trait FromYaml: Sized + DeepView {
    /// The value that the document `text` decodes to, if it decodes.
    spec fn decoded(text: Seq<char>) -> Option<Self::V>;

    /// Decodes `text`; `None` where it is malformed or of another shape.
    fn from_yaml(text: &str) -> (r: Option<Self>)
        ensures
            r.deep_view() == Self::decoded(text@),
    ;
}

/// What `serde_yaml::from_str` makes of `text` when it is asked for
/// a sequence of truth values.
pub uninterp spec fn yaml_bools(text: Seq<char>) -> Option<Seq<bool>>;

/// Calls `serde_yaml::from_str` for a sequence of truth values. The
/// contract gives the result its name and says that a failure is `None`;
/// what YAML is and how it maps to the type is the decoder's business.
#[verifier::external_body]
fn decode_bools(text: &str) -> (r: Option<Vec<bool>>)
    ensures
        r.deep_view() == yaml_bools(text@),
{
    serde_yaml::from_str::<Vec<bool>>(text).ok()
}

impl FromYaml for Vec<bool> {
    open spec fn decoded(text: Seq<char>) -> Option<Seq<bool>> {
        yaml_bools(text)
    }

    fn from_yaml(text: &str) -> (r: Option<Vec<bool>>) {
        decode_bools(text)
    }
}

impl LoadEnv for Vec<bool> {
    open spec fn overridden(
        value: Seq<bool>,
        path: Seq<char>,
        env: Map<Seq<char>, Seq<char>>,
    ) -> Seq<bool> {
        structured_value::<Vec<bool>>(value, found(env, path))
    }

    open spec fn key_set(value: Seq<bool>, path: Seq<char>) -> Set<Seq<char>> {
        set![key_of(path)]
    }

    open spec fn visited(value: Seq<bool>, path: Seq<char>, state: State) -> State {
        state.consulted(path, structured_converts::<Vec<bool>>(found(state.env, path)))
    }

    fn load(self, path: &str, loader: &mut Loader) -> (r: Vec<bool>) {
        loader.load_from_yaml(self, path)
    }

    proof fn lemma_visit_grows(value: Seq<bool>, path: Seq<char>, state: State) {
        lemma_consulted_grows(
            state,
            path,
            structured_converts::<Vec<bool>>(found(state.env, path)),
        );
    }

    proof fn lemma_unset_keeps(value: Seq<bool>, path: Seq<char>, env: Map<Seq<char>, Seq<char>>) {
        assert(Self::key_set(value, path).contains(key_of(path)));
    }
}

/// What `serde_yaml::from_str` makes of `text` when it is asked for
/// a sequence of signed integers.
pub uninterp spec fn yaml_signed(text: Seq<char>) -> Option<Seq<i64>>;

/// Calls `serde_yaml::from_str` for a sequence of signed integers. The
/// contract gives the result its name and says that a failure is `None`;
/// what YAML is and how it maps to the type is the decoder's business.
#[verifier::external_body]
fn decode_signed(text: &str) -> (r: Option<Vec<i64>>)
    ensures
        r.deep_view() == yaml_signed(text@),
{
    serde_yaml::from_str::<Vec<i64>>(text).ok()
}

impl FromYaml for Vec<i64> {
    open spec fn decoded(text: Seq<char>) -> Option<Seq<i64>> {
        yaml_signed(text)
    }

    fn from_yaml(text: &str) -> (r: Option<Vec<i64>>) {
        decode_signed(text)
    }
}

impl LoadEnv for Vec<i64> {
    open spec fn overridden(
        value: Seq<i64>,
        path: Seq<char>,
        env: Map<Seq<char>, Seq<char>>,
    ) -> Seq<i64> {
        structured_value::<Vec<i64>>(value, found(env, path))
    }

    open spec fn key_set(value: Seq<i64>, path: Seq<char>) -> Set<Seq<char>> {
        set![key_of(path)]
    }

    open spec fn visited(value: Seq<i64>, path: Seq<char>, state: State) -> State {
        state.consulted(path, structured_converts::<Vec<i64>>(found(state.env, path)))
    }

    fn load(self, path: &str, loader: &mut Loader) -> (r: Vec<i64>) {
        loader.load_from_yaml(self, path)
    }

    proof fn lemma_visit_grows(value: Seq<i64>, path: Seq<char>, state: State) {
        lemma_consulted_grows(
            state,
            path,
            structured_converts::<Vec<i64>>(found(state.env, path)),
        );
    }

    proof fn lemma_unset_keeps(value: Seq<i64>, path: Seq<char>, env: Map<Seq<char>, Seq<char>>) {
        assert(Self::key_set(value, path).contains(key_of(path)));
    }
}

/// What `serde_yaml::from_str` makes of `text` when it is asked for
/// a sequence of unsigned integers.
pub uninterp spec fn yaml_unsigned(text: Seq<char>) -> Option<Seq<u64>>;

/// Calls `serde_yaml::from_str` for a sequence of unsigned integers. The
/// contract gives the result its name and says that a failure is `None`;
/// what YAML is and how it maps to the type is the decoder's business.
#[verifier::external_body]
fn decode_unsigned(text: &str) -> (r: Option<Vec<u64>>)
    ensures
        r.deep_view() == yaml_unsigned(text@),
{
    serde_yaml::from_str::<Vec<u64>>(text).ok()
}

impl FromYaml for Vec<u64> {
    open spec fn decoded(text: Seq<char>) -> Option<Seq<u64>> {
        yaml_unsigned(text)
    }

    fn from_yaml(text: &str) -> (r: Option<Vec<u64>>) {
        decode_unsigned(text)
    }
}

impl LoadEnv for Vec<u64> {
    open spec fn overridden(
        value: Seq<u64>,
        path: Seq<char>,
        env: Map<Seq<char>, Seq<char>>,
    ) -> Seq<u64> {
        structured_value::<Vec<u64>>(value, found(env, path))
    }

    open spec fn key_set(value: Seq<u64>, path: Seq<char>) -> Set<Seq<char>> {
        set![key_of(path)]
    }

    open spec fn visited(value: Seq<u64>, path: Seq<char>, state: State) -> State {
        state.consulted(path, structured_converts::<Vec<u64>>(found(state.env, path)))
    }

    fn load(self, path: &str, loader: &mut Loader) -> (r: Vec<u64>) {
        loader.load_from_yaml(self, path)
    }

    proof fn lemma_visit_grows(value: Seq<u64>, path: Seq<char>, state: State) {
        lemma_consulted_grows(
            state,
            path,
            structured_converts::<Vec<u64>>(found(state.env, path)),
        );
    }

    proof fn lemma_unset_keeps(value: Seq<u64>, path: Seq<char>, env: Map<Seq<char>, Seq<char>>) {
        assert(Self::key_set(value, path).contains(key_of(path)));
    }
}

/// What `serde_yaml::from_str` makes of `text` when it is asked for
/// a sequence of texts.
pub uninterp spec fn yaml_texts(text: Seq<char>) -> Option<Seq<Seq<char>>>;

/// Calls `serde_yaml::from_str` for a sequence of texts. The
/// contract gives the result its name and says that a failure is `None`;
/// what YAML is and how it maps to the type is the decoder's business.
#[verifier::external_body]
fn decode_texts(text: &str) -> (r: Option<Vec<String>>)
    ensures
        r.deep_view() == yaml_texts(text@),
{
    serde_yaml::from_str::<Vec<String>>(text).ok()
}

impl FromYaml for Vec<String> {
    open spec fn decoded(text: Seq<char>) -> Option<Seq<Seq<char>>> {
        yaml_texts(text)
    }

    fn from_yaml(text: &str) -> (r: Option<Vec<String>>) {
        decode_texts(text)
    }
}

impl LoadEnv for Vec<String> {
    open spec fn overridden(
        value: Seq<Seq<char>>,
        path: Seq<char>,
        env: Map<Seq<char>, Seq<char>>,
    ) -> Seq<Seq<char>> {
        structured_value::<Vec<String>>(value, found(env, path))
    }

    open spec fn key_set(value: Seq<Seq<char>>, path: Seq<char>) -> Set<Seq<char>> {
        set![key_of(path)]
    }

    open spec fn visited(value: Seq<Seq<char>>, path: Seq<char>, state: State) -> State {
        state.consulted(path, structured_converts::<Vec<String>>(found(state.env, path)))
    }

    fn load(self, path: &str, loader: &mut Loader) -> (r: Vec<String>) {
        loader.load_from_yaml(self, path)
    }

    proof fn lemma_visit_grows(value: Seq<Seq<char>>, path: Seq<char>, state: State) {
        lemma_consulted_grows(
            state,
            path,
            structured_converts::<Vec<String>>(found(state.env, path)),
        );
    }

    proof fn lemma_unset_keeps(
        value: Seq<Seq<char>>,
        path: Seq<char>,
        env: Map<Seq<char>, Seq<char>>,
    ) {
        assert(Self::key_set(value, path).contains(key_of(path)));
    }
}

/// What `serde_yaml::from_str` makes of `text` when it is asked for
/// an optional signed integer.
pub uninterp spec fn yaml_maybe_signed(text: Seq<char>) -> Option<Option<i64>>;

/// Calls `serde_yaml::from_str` for an optional signed integer. The
/// contract gives the result its name and says that a failure is `None`;
/// what YAML is and how it maps to the type is the decoder's business.
#[verifier::external_body]
fn decode_maybe_signed(text: &str) -> (r: Option<Option<i64>>)
    ensures
        r.deep_view() == yaml_maybe_signed(text@),
{
    serde_yaml::from_str::<Option<i64>>(text).ok()
}

impl FromYaml for Option<i64> {
    open spec fn decoded(text: Seq<char>) -> Option<Option<i64>> {
        yaml_maybe_signed(text)
    }

    fn from_yaml(text: &str) -> (r: Option<Option<i64>>) {
        decode_maybe_signed(text)
    }
}

impl LoadEnv for Option<i64> {
    open spec fn overridden(
        value: Option<i64>,
        path: Seq<char>,
        env: Map<Seq<char>, Seq<char>>,
    ) -> Option<i64> {
        structured_value::<Option<i64>>(value, found(env, path))
    }

    open spec fn key_set(value: Option<i64>, path: Seq<char>) -> Set<Seq<char>> {
        set![key_of(path)]
    }

    open spec fn visited(value: Option<i64>, path: Seq<char>, state: State) -> State {
        state.consulted(path, structured_converts::<Option<i64>>(found(state.env, path)))
    }

    fn load(self, path: &str, loader: &mut Loader) -> (r: Option<i64>) {
        loader.load_from_yaml(self, path)
    }

    proof fn lemma_visit_grows(value: Option<i64>, path: Seq<char>, state: State) {
        lemma_consulted_grows(
            state,
            path,
            structured_converts::<Option<i64>>(found(state.env, path)),
        );
    }

    proof fn lemma_unset_keeps(
        value: Option<i64>,
        path: Seq<char>,
        env: Map<Seq<char>, Seq<char>>,
    ) {
        assert(Self::key_set(value, path).contains(key_of(path)));
    }
}

/// What `serde_yaml::from_str` makes of `text` when it is asked for
/// an optional text.
pub uninterp spec fn yaml_maybe_text(text: Seq<char>) -> Option<Option<Seq<char>>>;

/// Calls `serde_yaml::from_str` for an optional text. The
/// contract gives the result its name and says that a failure is `None`;
/// what YAML is and how it maps to the type is the decoder's business.
#[verifier::external_body]
fn decode_maybe_text(text: &str) -> (r: Option<Option<String>>)
    ensures
        r.deep_view() == yaml_maybe_text(text@),
{
    serde_yaml::from_str::<Option<String>>(text).ok()
}

impl FromYaml for Option<String> {
    open spec fn decoded(text: Seq<char>) -> Option<Option<Seq<char>>> {
        yaml_maybe_text(text)
    }

    fn from_yaml(text: &str) -> (r: Option<Option<String>>) {
        decode_maybe_text(text)
    }
}

impl LoadEnv for Option<String> {
    open spec fn overridden(
        value: Option<Seq<char>>,
        path: Seq<char>,
        env: Map<Seq<char>, Seq<char>>,
    ) -> Option<Seq<char>> {
        structured_value::<Option<String>>(value, found(env, path))
    }

    open spec fn key_set(value: Option<Seq<char>>, path: Seq<char>) -> Set<Seq<char>> {
        set![key_of(path)]
    }

    open spec fn visited(value: Option<Seq<char>>, path: Seq<char>, state: State) -> State {
        state.consulted(path, structured_converts::<Option<String>>(found(state.env, path)))
    }

    fn load(self, path: &str, loader: &mut Loader) -> (r: Option<String>) {
        loader.load_from_yaml(self, path)
    }

    proof fn lemma_visit_grows(value: Option<Seq<char>>, path: Seq<char>, state: State) {
        lemma_consulted_grows(
            state,
            path,
            structured_converts::<Option<String>>(found(state.env, path)),
        );
    }

    proof fn lemma_unset_keeps(
        value: Option<Seq<char>>,
        path: Seq<char>,
        env: Map<Seq<char>, Seq<char>>,
    ) {
        assert(Self::key_set(value, path).contains(key_of(path)));
    }
}

/// What `serde_yaml::from_str` makes of `text` when it is asked for
/// a triple of a truth value, a signed integer and a text.
pub uninterp spec fn yaml_triple(text: Seq<char>) -> Option<(bool, i64, Seq<char>)>;

/// Calls `serde_yaml::from_str` for a triple of a truth value, a signed integer and a text. The
/// contract gives the result its name and says that a failure is `None`;
/// what YAML is and how it maps to the type is the decoder's business.
#[verifier::external_body]
fn decode_triple(text: &str) -> (r: Option<(bool, i64, String)>)
    ensures
        r.deep_view() == yaml_triple(text@),
{
    serde_yaml::from_str::<(bool, i64, String)>(text).ok()
}

impl FromYaml for (bool, i64, String) {
    open spec fn decoded(text: Seq<char>) -> Option<(bool, i64, Seq<char>)> {
        yaml_triple(text)
    }

    fn from_yaml(text: &str) -> (r: Option<(bool, i64, String)>) {
        decode_triple(text)
    }
}

impl LoadEnv for (bool, i64, String) {
    open spec fn overridden(
        value: (bool, i64, Seq<char>),
        path: Seq<char>,
        env: Map<Seq<char>, Seq<char>>) -> (bool, i64, Seq<char>,
    ) {
        structured_value::<(bool, i64, String)>(value, found(env, path))
    }

    open spec fn key_set(value: (bool, i64, Seq<char>), path: Seq<char>) -> Set<Seq<char>> {
        set![key_of(path)]
    }

    open spec fn visited(value: (bool, i64, Seq<char>), path: Seq<char>, state: State) -> State {
        state.consulted(path, structured_converts::<(bool, i64, String)>(found(state.env, path)))
    }

    fn load(self, path: &str, loader: &mut Loader) -> (r: (bool, i64, String)) {
        loader.load_from_yaml(self, path)
    }

    proof fn lemma_visit_grows(value: (bool, i64, Seq<char>), path: Seq<char>, state: State) {
        lemma_consulted_grows(
            state,
            path,
            structured_converts::<(bool, i64, String)>(found(state.env, path)),
        );
    }

    proof fn lemma_unset_keeps(
        value: (bool, i64, Seq<char>),
        path: Seq<char>,
        env: Map<Seq<char>, Seq<char>>,
    ) {
        assert(Self::key_set(value, path).contains(key_of(path)));
    }
}

/// What `serde_yaml::from_str` makes of `text` when it is asked for
/// an ordered map from signed integers to texts.
pub uninterp spec fn yaml_signed_to_text(text: Seq<char>) -> Option<Map<i64, Seq<char>>>;

/// Calls `serde_yaml::from_str` for an ordered map from signed integers to texts. The
/// contract gives the result its name and says that a failure is `None`;
/// what YAML is and how it maps to the type is the decoder's business.
#[verifier::external_body]
fn decode_signed_to_text(text: &str) -> (r: Option<BTreeMap<i64, String>>)
    ensures
        r.deep_view() == yaml_signed_to_text(text@),
{
    serde_yaml::from_str::<BTreeMap<i64, String>>(text).ok()
}

impl FromYaml for BTreeMap<i64, String> {
    open spec fn decoded(text: Seq<char>) -> Option<Map<i64, Seq<char>>> {
        yaml_signed_to_text(text)
    }

    fn from_yaml(text: &str) -> (r: Option<BTreeMap<i64, String>>) {
        decode_signed_to_text(text)
    }
}

impl LoadEnv for BTreeMap<i64, String> {
    open spec fn overridden(
        value: Map<i64, Seq<char>>,
        path: Seq<char>,
        env: Map<Seq<char>, Seq<char>>,
    ) -> Map<i64, Seq<char>> {
        structured_value::<BTreeMap<i64, String>>(value, found(env, path))
    }

    open spec fn key_set(value: Map<i64, Seq<char>>, path: Seq<char>) -> Set<Seq<char>> {
        set![key_of(path)]
    }

    open spec fn visited(value: Map<i64, Seq<char>>, path: Seq<char>, state: State) -> State {
        state.consulted(path, structured_converts::<BTreeMap<i64, String>>(found(state.env, path)))
    }

    fn load(self, path: &str, loader: &mut Loader) -> (r: BTreeMap<i64, String>) {
        loader.load_from_yaml(self, path)
    }

    proof fn lemma_visit_grows(value: Map<i64, Seq<char>>, path: Seq<char>, state: State) {
        lemma_consulted_grows(
            state,
            path,
            structured_converts::<BTreeMap<i64, String>>(found(state.env, path)),
        );
    }

    proof fn lemma_unset_keeps(
        value: Map<i64, Seq<char>>,
        path: Seq<char>,
        env: Map<Seq<char>, Seq<char>>,
    ) {
        assert(Self::key_set(value, path).contains(key_of(path)));
    }
}

/// What `serde_yaml::from_str` makes of `text` when it is asked for
/// a set of texts.
pub uninterp spec fn yaml_text_set(text: Seq<char>) -> Option<Set<Seq<char>>>;

/// Calls `serde_yaml::from_str` for a set of texts. The
/// contract gives the result its name and says that a failure is `None`;
/// what YAML is and how it maps to the type is the decoder's business.
#[verifier::external_body]
fn decode_text_set(text: &str) -> (r: Option<BTreeSet<String>>)
    ensures
        r.deep_view() == yaml_text_set(text@),
{
    serde_yaml::from_str::<BTreeSet<String>>(text).ok()
}

impl FromYaml for BTreeSet<String> {
    open spec fn decoded(text: Seq<char>) -> Option<Set<Seq<char>>> {
        yaml_text_set(text)
    }

    fn from_yaml(text: &str) -> (r: Option<BTreeSet<String>>) {
        decode_text_set(text)
    }
}

impl LoadEnv for BTreeSet<String> {
    open spec fn overridden(
        value: Set<Seq<char>>,
        path: Seq<char>,
        env: Map<Seq<char>, Seq<char>>,
    ) -> Set<Seq<char>> {
        structured_value::<BTreeSet<String>>(value, found(env, path))
    }

    open spec fn key_set(value: Set<Seq<char>>, path: Seq<char>) -> Set<Seq<char>> {
        set![key_of(path)]
    }

    open spec fn visited(value: Set<Seq<char>>, path: Seq<char>, state: State) -> State {
        state.consulted(path, structured_converts::<BTreeSet<String>>(found(state.env, path)))
    }

    fn load(self, path: &str, loader: &mut Loader) -> (r: BTreeSet<String>) {
        loader.load_from_yaml(self, path)
    }

    proof fn lemma_visit_grows(value: Set<Seq<char>>, path: Seq<char>, state: State) {
        lemma_consulted_grows(
            state,
            path,
            structured_converts::<BTreeSet<String>>(found(state.env, path)),
        );
    }

    proof fn lemma_unset_keeps(
        value: Set<Seq<char>>,
        path: Seq<char>,
        env: Map<Seq<char>, Seq<char>>,
    ) {
        assert(Self::key_set(value, path).contains(key_of(path)));
    }
}

} // verus!
