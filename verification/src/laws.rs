//! What holds of every load pass, proved from the definitions of the descent.

use crate::decode::FromYaml;
use crate::diagnostics::{Event, Notice};
use crate::load_env::LoadEnv;
use crate::loader::{
    found, lookup_notice, scalar_converts, scalar_value, structured_converts, structured_value,
    State,
};
use crate::parse::FromText;
use crate::text::{key_of, spec_child_path, upper_case};
use crate::tree::{
    choice_overridden, choice_visited, field_overridden, fields_keys, fields_overridden,
    fields_visited, label, lemma_fields_overridden, lemma_first_match, segment, tree_overridden,
    tree_visited, wanted,
    ChoiceView, FieldView, Tree,
};
use vstd::prelude::*;

verus! {

/// A scalar whose key holds a text that stands for `value` becomes `value`,
/// whatever it was before, and the lookup counts as converted.
pub proof fn law_scalar_round_trip<T: FromText>(
    fallback: T::V,
    value: T::V,
    path: Seq<char>,
    env: Map<Seq<char>, Seq<char>>,
)
    requires
        env.contains_key(key_of(path)),
        T::parsed(env[key_of(path)]) == Some(value),
    ensures
        scalar_value::<T>(fallback, found(env, path)) == value,
        scalar_converts::<T>(found(env, path)),
{
}

/// A scalar whose key holds a text that stands for no value of its type stays
/// as it was, and the lookup is recorded as a failure with that text.
pub proof fn law_malformed_text_keeps<T: FromText>(
    fallback: T::V,
    path: Seq<char>,
    state: State,
)
    requires
        state.env.contains_key(key_of(path)),
        T::parsed(state.env[key_of(path)]) is None,
    ensures
        scalar_value::<T>(fallback, found(state.env, path)) == fallback,
        state.consulted(path, scalar_converts::<T>(found(state.env, path))).log.last() == (Notice {
            event: Event::ParseFailure,
            key: key_of(path),
            text: state.env[key_of(path)],
        }),
{
}

/// A container whose key holds a document that decodes to `value` becomes
/// `value` as a whole, whatever it held before.
pub proof fn law_structured_round_trip<T: FromYaml>(
    fallback: T::V,
    value: T::V,
    path: Seq<char>,
    env: Map<Seq<char>, Seq<char>>,
)
    requires
        env.contains_key(key_of(path)),
        T::decoded(env[key_of(path)]) == Some(value),
    ensures
        structured_value::<T>(fallback, found(env, path)) == value,
        structured_converts::<T>(found(env, path)),
{
}

/// A container whose key holds a text that does not decode stays as it was,
/// and the lookup is recorded as a failure with that text.
pub proof fn law_malformed_document_keeps<T: FromYaml>(
    fallback: T::V,
    path: Seq<char>,
    state: State,
)
    requires
        state.env.contains_key(key_of(path)),
        T::decoded(state.env[key_of(path)]) is None,
    ensures
        structured_value::<T>(fallback, found(state.env, path)) == fallback,
        state.consulted(
            path,
            structured_converts::<T>(found(state.env, path)),
        ).log.last() == (Notice {
            event: Event::ParseFailure,
            key: key_of(path),
            text: state.env[key_of(path)],
        }),
{
}

/// The descent of a record keeps the number and the order of its fields, and
/// the field at `i` is overridden at its own path, whatever the other fields
/// are.
pub proof fn law_field_overridden(
    fields: Seq<FieldView>,
    i: int,
    path: Seq<char>,
    env: Map<Seq<char>, Seq<char>>,
)
    requires
        0 <= i < fields.len(),
    ensures
        tree_overridden(Tree::Record(fields), path, env) is Record,
        tree_overridden(Tree::Record(fields), path, env)->Record_0.len() == fields.len(),
        tree_overridden(Tree::Record(fields), path, env)->Record_0[i] == field_overridden(
            fields[i],
            i,
            path,
            env,
        ),
{
    lemma_fields_overridden(fields, path, env, fields.len());
}

/// A field of a record that is itself a field of a record is overridden at the
/// path made of the root's path and both segments, each after an underscore.
pub proof fn law_nested_field(
    outer: Seq<FieldView>,
    i: int,
    inner: Seq<FieldView>,
    j: int,
    path: Seq<char>,
    env: Map<Seq<char>, Seq<char>>,
)
    requires
        0 <= i < outer.len(),
        !outer[i].skip,
        outer[i].value == Tree::Record(inner),
        0 <= j < inner.len(),
        !inner[j].skip,
    ensures
        tree_overridden(Tree::Record(outer), path, env)->Record_0[i].value is Record,
        tree_overridden(Tree::Record(outer), path, env)->Record_0[i].value->Record_0[j].value
            == tree_overridden(
            inner[j].value,
            path + seq!['_'] + segment(outer[i], i) + seq!['_'] + segment(inner[j], j),
            env,
        ),
{
    law_field_overridden(outer, i, path, env);
    law_field_overridden(inner, j, spec_child_path(path, segment(outer[i], i)), env);
}

/// A flat field whose segment holds an underscore and a nested field can have
/// the same path.
pub proof fn law_flat_and_nested_paths_meet(base: Seq<char>, first: Seq<char>, second: Seq<char>)
    ensures
        spec_child_path(spec_child_path(base, first), second) == spec_child_path(
            base,
            first + seq!['_'] + second,
        ),
{
    assert(base + seq!['_'] + first + seq!['_'] + second =~= base + seq!['_'] + (first + seq!['_']
        + second));
}

/// Two lookups whose paths have the same key: both read the same text, so two
/// scalars of one type that the text stands for become the same value; the
/// second lookup is not refused, and it records a warning for the key before
/// its own diagnostic.
pub proof fn law_ambiguous_paths<T: FromText>(
    one: T::V,
    other: T::V,
    p: Seq<char>,
    q: Seq<char>,
    state: State,
)
    requires
        key_of(p) == key_of(q),
    ensures
        found(state.env, p) == found(state.env, q),
        scalar_converts::<T>(found(state.env, p)) ==> scalar_value::<T>(one, found(state.env, p))
            == scalar_value::<T>(other, found(state.env, q)),
        ({
            let c = scalar_converts::<T>(found(state.env, p));
            let first = state.consulted(p, c);
            let second = first.consulted(q, c);
            &&& first.seen(q)
            &&& second.names == first.names
            &&& second.log == first.log.push(
                Notice { event: Event::Ambiguous, key: key_of(q), text: Seq::empty() },
            ).push(lookup_notice(key_of(q), found(state.env, q), c))
        }),
{
    let c = scalar_converts::<T>(found(state.env, p));
    let first = state.consulted(p, c);
    let second = first.consulted(q, c);
    assert(second.names =~= first.names);
}

/// A key that was consulted stays registered through every later descent, so
/// a later lookup of it, at whatever path and however far away, records the
/// warning before its own diagnostic.
pub proof fn law_seen_key_warns<T: LoadEnv>(
    between: T::V,
    path: Seq<char>,
    q: Seq<char>,
    state: State,
    converts: bool,
)
    requires
        state.seen(q),
    ensures
        T::visited(between, path, state).seen(q),
        ({
            let later = T::visited(between, path, state);
            later.consulted(q, converts).log == later.log.push(
                Notice { event: Event::Ambiguous, key: key_of(q), text: Seq::empty() },
            ).push(lookup_notice(key_of(q), found(state.env, q), converts))
        }),
{
    T::lemma_visit_grows(between, path, state);
}

/// A record without fields is passed by: it stays as it is, no key is
/// registered and nothing is recorded, whatever the store holds at its path.
pub proof fn law_empty_record(path: Seq<char>, state: State)
    ensures
        tree_overridden(Tree::Record(Seq::empty()), path, state.env) == Tree::Record(Seq::empty()),
        tree_visited(Tree::Record(Seq::empty()), path, state) == state,
{
}

/// A skipped field stays as it is whatever the store holds, and the descent
/// of its record passes it by: no key is registered and no diagnostic recorded
/// for it.
pub proof fn law_skipped_field(
    fields: Seq<FieldView>,
    i: int,
    path: Seq<char>,
    state: State,
)
    requires
        0 <= i < fields.len(),
        fields[i].skip,
    ensures
        tree_overridden(Tree::Record(fields), path, state.env)->Record_0[i] == fields[i],
        fields_keys(fields, path, (i + 1) as nat) == fields_keys(fields, path, i as nat),
        fields_visited(fields, path, state, (i + 1) as nat) == fields_visited(
            fields,
            path,
            state,
            i as nat,
        ),
{
    law_field_overridden(fields, i, path, state.env);
}

/// An enumeration whose key holds the label of a variant becomes the first
/// variant with that label.
pub proof fn law_choice_named(
    value: ChoiceView,
    k: int,
    path: Seq<char>,
    env: Map<Seq<char>, Seq<char>>,
)
    requires
        0 <= k < value.variants.len(),
        env.contains_key(key_of(path)),
        env[key_of(path)].len() > 0,
        label(value.variants[k]) == env[key_of(path)],
        forall|j: int| 0 <= j < k ==> label(#[trigger] value.variants[j]) != env[key_of(path)],
    ensures
        choice_overridden(value, path, env) == (ChoiceView { current: k, ..value }),
{
    lemma_first_match(value.variants, env[key_of(path)], 0);
}

/// An enumeration whose key is absent, or holds the empty text, stays as it
/// is, and nothing but the lookup is recorded.
pub proof fn law_choice_unset(value: ChoiceView, path: Seq<char>, state: State)
    requires
        found(state.env, path) is None || found(state.env, path) == Some(Seq::<char>::empty()),
    ensures
        choice_overridden(value, path, state.env) == value,
        choice_visited(value, path, state) == String::visited(Seq::empty(), path, state),
{
}

/// An enumeration whose key holds a text that is the label of no variant
/// stays as it is, and the last diagnostic is the error that names the text.
pub proof fn law_choice_unknown(value: ChoiceView, path: Seq<char>, state: State)
    requires
        state.env.contains_key(key_of(path)),
        state.env[key_of(path)].len() > 0,
        forall|j: int|
            0 <= j < value.variants.len() ==> label(#[trigger] value.variants[j])
                != state.env[key_of(path)],
    ensures
        choice_overridden(value, path, state.env) == value,
        choice_visited(value, path, state).log.last() == (Notice {
            event: Event::UnknownVariant,
            key: key_of(path),
            text: state.env[key_of(path)],
        }),
{
    lemma_first_match(value.variants, state.env[key_of(path)], 0);
    assert(wanted(state.env, path) == state.env[key_of(path)]);
}

/// Paths that differ only in what upper-casing removes are one override
/// target: they read the same text, register the same key and leave the same
/// state, and a scalar becomes the same value at either.
pub proof fn law_same_key<T: FromText>(value: T::V, p: Seq<char>, q: Seq<char>, state: State)
    requires
        upper_case(p) == upper_case(q),
    ensures
        found(state.env, p) == found(state.env, q),
        state.seen(p) == state.seen(q),
        state.registered(p) == state.registered(q),
        forall|converts: bool| state.consulted(p, converts) == state.consulted(q, converts),
        scalar_value::<T>(value, found(state.env, p)) == scalar_value::<T>(
            value,
            found(state.env, q),
        ),
{
}

/// Every value that takes part obeys the two laws of the descent: the store
/// is never changed, exactly the keys of the value are registered, earlier
/// diagnostics stay in front; and where none of its keys is set, the value
/// stays as it is.
pub proof fn law_descent<T: LoadEnv>(value: T::V, path: Seq<char>, state: State)
    ensures
        T::visited(value, path, state).env == state.env,
        T::visited(value, path, state).names == state.names.union(T::key_set(value, path)),
        state.names.subset_of(T::visited(value, path, state).names),
        state.log.is_prefix_of(T::visited(value, path, state).log),
        T::key_set(value, path).disjoint(state.env.dom()) ==> T::overridden(
            value,
            path,
            state.env,
        ) == value,
{
    T::lemma_visit_grows(value, path, state);
    if T::key_set(value, path).disjoint(state.env.dom()) {
        T::lemma_unset_keeps(value, path, state.env);
    }
}

} // verus!
