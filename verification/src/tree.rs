//! Configuration trees: records with named or positional fields, unit-only
//! enumerations and leaves, described at run time, and their descent.

use crate::diagnostics::{Event, Notice};
use crate::load_env::LoadEnv;
use crate::loader::{found, Loader, State};
use crate::leaf::{Leaf, LeafView};
use crate::text::{child_path, decimal, index_segment, key_of, spec_child_path};
use vstd::prelude::*;
use vstd::string::StringExecFns;

verus! {

/// One field of a record.
#[derive(Debug, PartialEq, Eq)]
pub struct Field {
    /// The field's identifier; `None` for a positional field.
    pub name: Option<String>,
    /// The segment to use in place of the identifier or the index.
    pub rename: Option<String>,
    /// Whether the field is left out of the descent.
    pub skip: bool,
    /// The field's value.
    pub value: Value,
}

/// One variant of a unit-only enumeration.
#[derive(Debug, PartialEq, Eq)]
pub struct Variant {
    /// The variant's identifier.
    pub name: String,
    /// The label to match in place of the identifier.
    pub rename: Option<String>,
}

/// A value of a unit-only enumeration: its variants in declaration order and
/// the index of the one that is chosen.
#[derive(Debug, PartialEq, Eq)]
pub struct Choice {
    pub variants: Vec<Variant>,
    pub current: usize,
}

/// A configuration value.
#[derive(Debug, PartialEq, Eq)]
pub enum Value {
    /// A leaf: a scalar or a container that is decoded whole.
    Leaf(Leaf),
    /// A record; its fields in declaration order. A record without fields is
    /// never looked up.
    Record(Vec<Field>),
    /// A unit-only enumeration.
    Choice(Choice),
}

/// The mathematical form of a [`Field`].
pub struct FieldView {
    pub name: Option<Seq<char>>,
    pub rename: Option<Seq<char>>,
    pub skip: bool,
    pub value: Tree,
}

/// The mathematical form of a [`Variant`].
pub struct VariantView {
    pub name: Seq<char>,
    pub rename: Option<Seq<char>>,
}

/// The mathematical form of a [`Choice`].
pub struct ChoiceView {
    pub variants: Seq<VariantView>,
    pub current: int,
}

/// The mathematical form of a [`Value`].
pub enum Tree {
    Leaf(LeafView),
    Record(Seq<FieldView>),
    Choice(ChoiceView),
}

impl DeepView for Variant {
    type V = VariantView;

    open spec fn deep_view(&self) -> VariantView {
        VariantView { name: self.name@, rename: self.rename.deep_view() }
    }
}

impl DeepView for Choice {
    type V = ChoiceView;

    open spec fn deep_view(&self) -> ChoiceView {
        ChoiceView { variants: self.variants.deep_view(), current: self.current as int }
    }
}

/// The mathematical form of the first `n` fields of `fields`.
pub open spec fn fields_view(fields: Seq<Field>, n: nat) -> Seq<FieldView>
    decreases fields, n,
{
    if n == 0 || n > fields.len() {
        Seq::empty()
    } else {
        fields_view(fields, (n - 1) as nat).push(fields[n - 1].deep_view())
    }
}

impl DeepView for Field {
    type V = FieldView;

    open spec fn deep_view(&self) -> FieldView
        decreases self,
    {
        FieldView {
            name: self.name.deep_view(),
            rename: self.rename.deep_view(),
            skip: self.skip,
            value: self.value.deep_view(),
        }
    }
}

impl DeepView for Value {
    type V = Tree;

    open spec fn deep_view(&self) -> Tree
        decreases self,
    {
        match self {
            Value::Leaf(s) => Tree::Leaf(s.deep_view()),
            Value::Record(fields) => Tree::Record(fields_view(fields@, fields@.len())),
            Value::Choice(c) => Tree::Choice(c.deep_view()),
        }
    }
}

/// The segment that a field adds to the path of its record: the rename where
/// there is one, else the identifier, else the index in decimal.
pub open spec fn segment(field: FieldView, index: int) -> Seq<char> {
    match field.rename {
        Some(r) => r,
        None => match field.name {
            Some(n) => n,
            None => decimal(index as nat),
        },
    }
}

/// The path of the field at `index` of a record at `path`.
pub open spec fn field_path(path: Seq<char>, field: FieldView, index: int) -> Seq<char> {
    spec_child_path(path, segment(field, index))
}

/// The label that selects a variant: the rename where there is one, else the
/// identifier.
pub open spec fn label(variant: VariantView) -> Seq<char> {
    match variant.rename {
        Some(r) => r,
        None => variant.name,
    }
}

/// The index of the first variant at or after `from` whose label is `text`.
pub open spec fn first_match(variants: Seq<VariantView>, text: Seq<char>, from: nat) -> Option<int>
    decreases variants.len() - from,
{
    if from >= variants.len() {
        None
    } else if label(variants[from as int]) == text {
        Some(from as int)
    } else {
        first_match(variants, text, from + 1)
    }
}

/// The text that selects a variant for an enumeration at `path`: what the
/// store holds for the path, or the empty text.
pub open spec fn wanted(env: Map<Seq<char>, Seq<char>>, path: Seq<char>) -> Seq<char> {
    String::overridden(Seq::empty(), path, env)
}

/// An enumeration after the descent: the first variant that the text names,
/// or the one it had where the text is empty or names none.
pub open spec fn choice_overridden(
    value: ChoiceView,
    path: Seq<char>,
    env: Map<Seq<char>, Seq<char>>,
) -> ChoiceView {
    let text = wanted(env, path);
    if text.len() == 0 {
        value
    } else {
        match first_match(value.variants, text, 0) {
            Some(i) => ChoiceView { current: i, ..value },
            None => value,
        }
    }
}

/// The loader after the descent of an enumeration: one lookup of a text at
/// exactly `path`, and an error where the text is not empty and names no
/// variant.
pub open spec fn choice_visited(value: ChoiceView, path: Seq<char>, state: State) -> State {
    let text = wanted(state.env, path);
    let after = String::visited(Seq::empty(), path, state);
    if text.len() > 0 && first_match(value.variants, text, 0) is None {
        after.noted(Notice { event: Event::UnknownVariant, key: key_of(path), text })
    } else {
        after
    }
}

/// The first `n` fields of a record at `path` after the descent.
pub open spec fn fields_overridden(
    fields: Seq<FieldView>,
    path: Seq<char>,
    env: Map<Seq<char>, Seq<char>>,
    n: nat,
) -> Seq<FieldView>
    decreases fields, n,
{
    if n == 0 || n > fields.len() {
        Seq::empty()
    } else {
        let f = fields[n - 1];
        fields_overridden(fields, path, env, (n - 1) as nat).push(
            FieldView {
                value: if f.skip {
                    f.value
                } else {
                    tree_overridden(f.value, field_path(path, f, n - 1), env)
                },
                ..f
            },
        )
    }
}

/// A tree at `path` after the descent.
pub open spec fn tree_overridden(
    tree: Tree,
    path: Seq<char>,
    env: Map<Seq<char>, Seq<char>>,
) -> Tree
    decreases tree,
{
    match tree {
        Tree::Leaf(s) => Tree::Leaf(Leaf::overridden(s, path, env)),
        Tree::Record(fields) => Tree::Record(fields_overridden(fields, path, env, fields.len())),
        Tree::Choice(c) => Tree::Choice(choice_overridden(c, path, env)),
    }
}

/// The keys that the descent of the first `n` fields of a record consults.
pub open spec fn fields_keys(fields: Seq<FieldView>, path: Seq<char>, n: nat) -> Set<Seq<char>>
    decreases fields, n,
{
    if n == 0 || n > fields.len() {
        Set::empty()
    } else {
        let f = fields[n - 1];
        if f.skip {
            fields_keys(fields, path, (n - 1) as nat)
        } else {
            fields_keys(fields, path, (n - 1) as nat).union(
                tree_keys(f.value, field_path(path, f, n - 1)),
            )
        }
    }
}

/// The keys that the descent of a tree at `path` consults.
pub open spec fn tree_keys(tree: Tree, path: Seq<char>) -> Set<Seq<char>>
    decreases tree,
{
    match tree {
        Tree::Leaf(s) => Leaf::key_set(s, path),
        Tree::Record(fields) => fields_keys(fields, path, fields.len()),
        Tree::Choice(c) => set![key_of(path)],
    }
}

/// The loader after the descent of the first `n` fields of a record, in
/// declaration order.
pub open spec fn fields_visited(
    fields: Seq<FieldView>,
    path: Seq<char>,
    state: State,
    n: nat,
) -> State
    decreases fields, n,
{
    if n == 0 || n > fields.len() {
        state
    } else {
        let f = fields[n - 1];
        let before = fields_visited(fields, path, state, (n - 1) as nat);
        if f.skip {
            before
        } else {
            tree_visited(f.value, field_path(path, f, n - 1), before)
        }
    }
}

/// The loader after the descent of a tree at `path`.
pub open spec fn tree_visited(tree: Tree, path: Seq<char>, state: State) -> State
    decreases tree,
{
    match tree {
        Tree::Leaf(s) => Leaf::visited(s, path, state),
        Tree::Record(fields) => fields_visited(fields, path, state, fields.len()),
        Tree::Choice(c) => choice_visited(c, path, state),
    }
}

/// Whether every enumeration among the first `n` fields has chosen one of
/// its variants.
pub open spec fn fields_wf(fields: Seq<FieldView>, n: nat) -> bool
    decreases fields, n,
{
    if n == 0 || n > fields.len() {
        true
    } else {
        fields_wf(fields, (n - 1) as nat) && tree_wf(fields[n - 1].value)
    }
}

/// Whether every enumeration in the tree has chosen one of its variants.
pub open spec fn tree_wf(tree: Tree) -> bool
    decreases tree,
{
    match tree {
        Tree::Leaf(_) => true,
        Tree::Record(fields) => fields_wf(fields, fields.len()),
        Tree::Choice(c) => c.wf(),
    }
}

/// One field after the descent of its record: a skipped field as it was, any
/// other with its value overridden at the field's own path.
pub open spec fn field_overridden(
    field: FieldView,
    index: int,
    path: Seq<char>,
    env: Map<Seq<char>, Seq<char>>,
) -> FieldView {
    FieldView {
        value: if field.skip {
            field.value
        } else {
            tree_overridden(field.value, field_path(path, field, index), env)
        },
        ..field
    }
}

/// The first `n` mathematical fields are the mathematical forms of the first
/// `n` fields.
pub proof fn lemma_fields_view(fields: Seq<Field>, n: nat)
    requires
        n <= fields.len(),
    ensures
        fields_view(fields, n).len() == n,
        forall|i: int| 0 <= i < n ==> (#[trigger] fields_view(fields, n)[i]) == fields[i].deep_view(),
    decreases n,
{
    if n > 0 {
        lemma_fields_view(fields, (n - 1) as nat);
        assert(fields_view(fields, n) == fields_view(fields, (n - 1) as nat).push(
            fields[n - 1].deep_view(),
        ));
    } else {
        assert(fields_view(fields, n) == Seq::<FieldView>::empty());
    }
}

/// Every field of a record is overridden by itself: the result has as many
/// fields, and the one at `i` is the field at `i` overridden at its own path.
pub proof fn lemma_fields_overridden(
    fields: Seq<FieldView>,
    path: Seq<char>,
    env: Map<Seq<char>, Seq<char>>,
    n: nat,
)
    requires
        n <= fields.len(),
    ensures
        fields_overridden(fields, path, env, n).len() == n,
        forall|i: int|
            0 <= i < n ==> (#[trigger] fields_overridden(fields, path, env, n)[i])
                == field_overridden(fields[i], i, path, env),
    decreases n,
{
    if n > 0 {
        lemma_fields_overridden(fields, path, env, (n - 1) as nat);
    }
}

/// A prefix of a prefix is a prefix.
pub proof fn lemma_prefix_chain<A>(a: Seq<A>, b: Seq<A>, c: Seq<A>)
    requires
        a.is_prefix_of(b),
        b.is_prefix_of(c),
    ensures
        a.is_prefix_of(c),
{
    assert(a =~= c.subrange(0, a.len() as int)) by {
        assert forall|i: int| 0 <= i < a.len() implies a[i] == c.subrange(0, a.len() as int)[i] by {
            assert(a[i] == b.subrange(0, a.len() as int)[i]);
            assert(b[i] == c.subrange(0, b.len() as int)[i]);
        }
    }
}

/// The descent of an enumeration leaves the store alone, registers the key of
/// its path and only adds diagnostics.
pub proof fn lemma_choice_visit_grows(value: ChoiceView, path: Seq<char>, state: State)
    ensures
        choice_visited(value, path, state).env == state.env,
        choice_visited(value, path, state).names == state.names.union(set![key_of(path)]),
        state.log.is_prefix_of(choice_visited(value, path, state).log),
{
    String::lemma_visit_grows(Seq::empty(), path, state);
    let after = String::visited(Seq::empty(), path, state);
    let end = choice_visited(value, path, state);
    if end != after {
        assert(after.log.is_prefix_of(end.log)) by {
            assert(after.log =~= end.log.subrange(0, after.log.len() as int));
        }
        lemma_prefix_chain(state.log, after.log, end.log);
    }
}

/// The descent of the first `n` fields leaves the store alone, registers
/// exactly their keys and only adds diagnostics.
pub proof fn lemma_fields_visit_grows(fields: Seq<FieldView>, path: Seq<char>, state: State, n: nat)
    requires
        n <= fields.len(),
    ensures
        fields_visited(fields, path, state, n).env == state.env,
        fields_visited(fields, path, state, n).names == state.names.union(
            fields_keys(fields, path, n),
        ),
        state.log.is_prefix_of(fields_visited(fields, path, state, n).log),
    decreases fields, n,
{
    if n == 0 {
        assert(fields_visited(fields, path, state, n) == state);
        assert(fields_keys(fields, path, n) == Set::<Seq<char>>::empty());
        assert(state.names =~= state.names.union(Set::<Seq<char>>::empty()));
        assert(state.log =~= state.log.subrange(0, state.log.len() as int));
    } else {
        let f = fields[n - 1];
        let before = fields_visited(fields, path, state, (n - 1) as nat);
        lemma_fields_visit_grows(fields, path, state, (n - 1) as nat);
        if f.skip {
            assert(fields_visited(fields, path, state, n) == before);
            assert(fields_keys(fields, path, n) == fields_keys(fields, path, (n - 1) as nat));
        } else {
            let p = field_path(path, f, n - 1);
            lemma_tree_visit_grows(f.value, p, before);
            let end = tree_visited(f.value, p, before);
            assert(fields_visited(fields, path, state, n) == end);
            assert(fields_keys(fields, path, n) == fields_keys(fields, path, (n - 1) as nat).union(
                tree_keys(f.value, p),
            ));
            assert(end.names =~= state.names.union(fields_keys(fields, path, n)));
            lemma_prefix_chain(state.log, before.log, end.log);
        }
    }
}

/// The descent of a tree leaves the store alone, registers exactly the keys
/// of the tree and only adds diagnostics.
pub proof fn lemma_tree_visit_grows(tree: Tree, path: Seq<char>, state: State)
    ensures
        tree_visited(tree, path, state).env == state.env,
        tree_visited(tree, path, state).names == state.names.union(tree_keys(tree, path)),
        state.log.is_prefix_of(tree_visited(tree, path, state).log),
    decreases tree,
{
    match tree {
        Tree::Leaf(s) => Leaf::lemma_visit_grows(s, path, state),
        Tree::Record(fields) => lemma_fields_visit_grows(fields, path, state, fields.len()),
        Tree::Choice(c) => lemma_choice_visit_grows(c, path, state),
    }
}

/// Where the store holds none of the keys of the first `n` fields, these
/// fields stay as they are.
pub proof fn lemma_fields_unset_keep(
    fields: Seq<FieldView>,
    path: Seq<char>,
    env: Map<Seq<char>, Seq<char>>,
    n: nat,
)
    requires
        n <= fields.len(),
        fields_keys(fields, path, n).disjoint(env.dom()),
    ensures
        fields_overridden(fields, path, env, n) == fields.take(n as int),
    decreases fields, n,
{
    if n == 0 {
        assert(fields_overridden(fields, path, env, n) =~= fields.take(n as int));
    } else {
        let f = fields[n - 1];
        let m = (n - 1) as nat;
        assert(fields_keys(fields, path, n) == if f.skip {
            fields_keys(fields, path, m)
        } else {
            fields_keys(fields, path, m).union(tree_keys(f.value, field_path(path, f, n - 1)))
        });
        lemma_fields_unset_keep(fields, path, env, m);
        if !f.skip {
            lemma_tree_unset_keeps(f.value, field_path(path, f, n - 1), env);
        }
        assert(fields_overridden(fields, path, env, n) == fields_overridden(
            fields,
            path,
            env,
            m,
        ).push(field_overridden(f, n - 1, path, env)));
        assert(fields_overridden(fields, path, env, n) =~= fields.take(n as int));
    }
}

/// Where the store holds none of the keys of a tree, the tree stays as it is.
pub proof fn lemma_tree_unset_keeps(tree: Tree, path: Seq<char>, env: Map<Seq<char>, Seq<char>>)
    requires
        tree_keys(tree, path).disjoint(env.dom()),
    ensures
        tree_overridden(tree, path, env) == tree,
    decreases tree,
{
    match tree {
        Tree::Leaf(s) => Leaf::lemma_unset_keeps(s, path, env),
        Tree::Record(fields) => {
            lemma_fields_unset_keep(fields, path, env, fields.len());
            assert(fields.take(fields.len() as int) =~= fields);
        },
        Tree::Choice(c) => {
            assert(tree_keys(tree, path).contains(key_of(path)));
            String::lemma_unset_keeps(Seq::empty(), path, env);
        },
    }
}

fn copy_text(text: &Option<String>) -> (r: Option<String>)
    ensures
        r.deep_view() == text.deep_view(),
{
    match text {
        Some(t) => Some(t.clone()),
        None => None,
    }
}

impl ChoiceView {
    /// The chosen index is that of a variant.
    pub open spec fn wf(self) -> bool {
        0 <= self.current < self.variants.len()
    }
}

impl Variant {
    /// The variant with the identifier `name`, selected by that identifier.
    pub fn new(name: &str) -> (r: Variant)
        ensures
            r.deep_view() == (VariantView { name: name@, rename: None }),
    {
        Variant { name: String::from_str(name), rename: None }
    }

    /// The same variant, selected by `label` in place of its identifier.
    pub fn renamed(self, label: &str) -> (r: Variant)
        ensures
            r.deep_view() == (VariantView { rename: Some(label@), ..self.deep_view() }),
    {
        Variant { name: self.name, rename: Some(String::from_str(label)) }
    }

    /// A copy of the variant.
    pub fn duplicate(&self) -> (r: Variant)
        ensures
            r.deep_view() == self.deep_view(),
    {
        Variant { name: self.name.clone(), rename: copy_text(&self.rename) }
    }

    /// Whether `text` is the label that selects this variant.
    pub fn is_named(&self, text: &String) -> (r: bool)
        ensures
            r == (label(self.deep_view()) == text@),
    {
        match &self.rename {
            Some(r) => *r == *text,
            None => self.name == *text,
        }
    }
}

impl Choice {
    /// The value of an enumeration with the given variants that has chosen
    /// the one at `current`; `None` where there is no such variant.
    pub fn new(variants: Vec<Variant>, current: usize) -> (r: Option<Choice>)
        ensures
            match r {
                Some(c) => current < variants@.len() && c.deep_view().wf() && c.deep_view() == (
                ChoiceView { variants: variants.deep_view(), current: current as int }),
                None => current >= variants@.len(),
            },
    {
        if current < variants.len() {
            Some(Choice { variants, current })
        } else {
            None
        }
    }

    /// The variant that is chosen; `None` where the index names none.
    pub fn chosen(&self) -> (r: Option<&Variant>)
        ensures
            match r {
                Some(v) => self.deep_view().wf() && v.deep_view()
                    == self.deep_view().variants[self.deep_view().current],
                None => !self.deep_view().wf(),
            },
    {
        if self.current < self.variants.len() {
            Some(&self.variants[self.current])
        } else {
            None
        }
    }

    /// A copy of the enumeration value.
    pub fn duplicate(&self) -> (r: Choice)
        ensures
            r.deep_view() == self.deep_view(),
    {
        let mut variants: Vec<Variant> = Vec::new();
        let mut i: usize = 0;
        while i < self.variants.len()
            invariant
                i <= self.variants.len(),
                variants.len() == i,
                forall|j: int| 0 <= j < i ==> variants@[j].deep_view() == self.variants@[j].deep_view(),
            decreases self.variants.len() - i,
        {
            variants.push(self.variants[i].duplicate());
            i += 1;
        }
        assert(variants.deep_view() =~= self.variants.deep_view());
        Choice { variants, current: self.current }
    }

    /// The index of the first variant whose label is `text`.
    pub fn find(&self, text: &String) -> (r: Option<usize>)
        ensures
            match r {
                Some(i) => i < self.variants@.len() && first_match(
                    self.deep_view().variants,
                    text@,
                    0,
                ) == Some(i as int),
                None => first_match(self.deep_view().variants, text@, 0) is None,
            },
    {
        let ghost variants = self.deep_view().variants;
        let mut i: usize = 0;
        while i < self.variants.len()
            invariant
                i <= self.variants.len(),
                variants == self.deep_view().variants,
                first_match(variants, text@, 0) == first_match(variants, text@, i as nat),
            decreases self.variants.len() - i,
        {
            assert(variants[i as int] == self.variants@[i as int].deep_view());
            if self.variants[i].is_named(text) {
                return Some(i);
            }
            i += 1;
        }
        None
    }

    /// The descent of an enumeration: a text is looked up at exactly `path`;
    /// where it is not empty, the first variant that it names is chosen, and
    /// where it names none, an error is recorded and the value stays.
    pub fn resolve(&self, path: &str, loader: &mut Loader) -> (r: Choice)
        ensures
            r.deep_view() == choice_overridden(self.deep_view(), path@, old(loader)@.env),
            final(loader)@ == choice_visited(self.deep_view(), path@, old(loader)@),
            self.deep_view().wf() ==> r.deep_view().wf(),
    {
        let text = String::new().load(path, loader);
        let mut r = self.duplicate();
        if text.as_str().is_empty() {
            return r;
        }
        match self.find(&text) {
            Some(i) => {
                r.current = i;
                r
            },
            None => {
                loader.report_unknown_variant(path, text);
                r
            },
        }
    }
}

impl Field {
    /// A field with an identifier, neither renamed nor skipped.
    pub fn named(name: &str, value: Value) -> (r: Field)
        ensures
            r.deep_view() == (FieldView {
                name: Some(name@),
                rename: None,
                skip: false,
                value: value.deep_view(),
            }),
    {
        Field { name: Some(String::from_str(name)), rename: None, skip: false, value }
    }

    /// A positional field, neither renamed nor skipped.
    pub fn positional(value: Value) -> (r: Field)
        ensures
            r.deep_view() == (FieldView {
                name: None,
                rename: None,
                skip: false,
                value: value.deep_view(),
            }),
    {
        Field { name: None, rename: None, skip: false, value }
    }

    /// The same field with `segment` in place of its identifier or index.
    pub fn renamed(self, segment: &str) -> (r: Field)
        ensures
            r.deep_view() == (FieldView { rename: Some(segment@), ..self.deep_view() }),
    {
        Field {
            name: self.name,
            rename: Some(String::from_str(segment)),
            skip: self.skip,
            value: self.value,
        }
    }

    /// The same field, left out of every descent.
    pub fn skipped(self) -> (r: Field)
        ensures
            r.deep_view() == (FieldView { skip: true, ..self.deep_view() }),
    {
        Field { name: self.name, rename: self.rename, skip: true, value: self.value }
    }

    /// The segment that this field adds to the path of its record when it
    /// stands at `index`.
    pub fn segment(&self, index: usize) -> (r: String)
        ensures
            r@ == segment(self.deep_view(), index as int),
    {
        match &self.rename {
            Some(r) => r.clone(),
            None => match &self.name {
                Some(n) => n.clone(),
                None => index_segment(index),
            },
        }
    }
}

fn duplicate_fields(fields: &Vec<Field>) -> (r: Vec<Field>)
    ensures
        fields_view(r@, r@.len()) == fields_view(fields@, fields@.len()),
    decreases fields,
{
    let mut out: Vec<Field> = Vec::new();
    let mut i: usize = 0;
    while i < fields.len()
        invariant
            i <= fields.len(),
            out.len() == i,
            forall|j: int| 0 <= j < i ==> out@[j].deep_view() == fields@[j].deep_view(),
        decreases fields.len() - i,
    {
        let f = &fields[i];
        let copy = Field {
            name: copy_text(&f.name),
            rename: copy_text(&f.rename),
            skip: f.skip,
            value: f.value.duplicate(),
        };
        out.push(copy);
        i += 1;
    }
    proof {
        lemma_fields_view(out@, out@.len());
        lemma_fields_view(fields@, fields@.len());
        assert(fields_view(out@, out@.len()) =~= fields_view(fields@, fields@.len()));
    }
    out
}

fn descend_fields(fields: &Vec<Field>, path: &str, loader: &mut Loader) -> (r: Vec<Field>)
    ensures
        fields_view(r@, r@.len()) == fields_overridden(
            fields_view(fields@, fields@.len()),
            path@,
            old(loader)@.env,
            fields@.len(),
        ),
        final(loader)@ == fields_visited(
            fields_view(fields@, fields@.len()),
            path@,
            old(loader)@,
            fields@.len(),
        ),
    decreases fields,
{
    let ghost model = fields_view(fields@, fields@.len());
    let ghost env = loader@.env;
    let ghost start = loader@;
    proof {
        lemma_fields_view(fields@, fields@.len());
    }
    let mut out: Vec<Field> = Vec::new();
    let mut i: usize = 0;
    while i < fields.len()
        invariant
            i <= fields.len(),
            out.len() == i,
            model == fields_view(fields@, fields@.len()),
            model.len() == fields@.len(),
            forall|j: int| 0 <= j < fields@.len() ==> model[j] == fields@[j].deep_view(),
            forall|j: int|
                0 <= j < i ==> out@[j].deep_view() == field_overridden(model[j], j, path@, env),
            loader@ == fields_visited(model, path@, start, i as nat),
            start.env == env,
        decreases fields.len() - i,
    {
        let f = &fields[i];
        proof {
            lemma_fields_visit_grows(model, path@, start, i as nat);
            assert(model[i as int] == f.deep_view());
        }
        let value = if f.skip {
            f.value.duplicate()
        } else {
            let seg = f.segment(i);
            let child = child_path(path, seg.as_str());
            descend(&f.value, child.as_str(), loader)
        };
        let next = Field {
            name: copy_text(&f.name),
            rename: copy_text(&f.rename),
            skip: f.skip,
            value,
        };
        assert(next.deep_view() == field_overridden(model[i as int], i as int, path@, env));
        out.push(next);
        i += 1;
    }
    proof {
        lemma_fields_view(out@, out@.len());
        lemma_fields_overridden(model, path@, env, model.len());
        assert(fields_view(out@, out@.len()) =~= fields_overridden(model, path@, env, model.len()));
    }
    out
}

/// The descent of a tree: a leaf is looked up at `path`; the fields of a
/// record are visited in declaration order, each at its own path, skipped
/// fields not at all; an enumeration is resolved at exactly `path`.
pub fn descend(value: &Value, path: &str, loader: &mut Loader) -> (r: Value)
    ensures
        r.deep_view() == tree_overridden(value.deep_view(), path@, old(loader)@.env),
        final(loader)@ == tree_visited(value.deep_view(), path@, old(loader)@),
        tree_wf(value.deep_view()) ==> tree_wf(r.deep_view()),
    decreases value,
{
    let ghost tree = value.deep_view();
    let ghost start = loader@;
    proof {
        if tree_wf(tree) {
            lemma_tree_stays_wf(tree, path@, start.env);
        }
    }
    let r = match value {
        Value::Leaf(s) => {
            assert(tree == Tree::Leaf(s.deep_view()));
            Value::Leaf(s.duplicate().load(path, loader))
        },
        Value::Record(fields) => {
            assert(tree == Tree::Record(fields_view(fields@, fields@.len())));
            proof {
                lemma_fields_view(fields@, fields@.len());
            }
            Value::Record(descend_fields(fields, path, loader))
        },
        Value::Choice(c) => {
            assert(tree == Tree::Choice(c.deep_view()));
            Value::Choice(c.resolve(path, loader))
        },
    };
    proof {
        match tree {
            Tree::Leaf(s) => {
                assert(tree_overridden(tree, path@, start.env) == Tree::Leaf(
                    Leaf::overridden(s, path@, start.env),
                ));
                assert(tree_visited(tree, path@, start) == Leaf::visited(s, path@, start));
            },
            Tree::Record(fs) => {
                assert(tree_overridden(tree, path@, start.env) == Tree::Record(
                    fields_overridden(fs, path@, start.env, fs.len()),
                ));
                assert(tree_visited(tree, path@, start) == fields_visited(
                    fs,
                    path@,
                    start,
                    fs.len(),
                ));
            },
            Tree::Choice(c) => {
                assert(tree_overridden(tree, path@, start.env) == Tree::Choice(
                    choice_overridden(c, path@, start.env),
                ));
                assert(tree_visited(tree, path@, start) == choice_visited(c, path@, start));
            },
        }
    }
    r
}

impl Value {
    /// The value of the field at `index` of a record; `None` for any other
    /// value and for an index beyond the last field.
    pub fn get(&self, index: usize) -> (r: Option<&Value>)
        ensures
            match self.deep_view() {
                Tree::Record(fields) => if index < fields.len() {
                    r is Some && r.unwrap().deep_view() == fields[index as int].value
                } else {
                    r is None
                },
                _ => r is None,
            },
    {
        match self {
            Value::Record(fields) => {
                proof {
                    lemma_fields_view(fields@, fields@.len());
                }
                assert(self.deep_view() == Tree::Record(fields_view(fields@, fields@.len())));
                if index < fields.len() {
                    Some(&fields[index].value)
                } else {
                    None
                }
            },
            Value::Leaf(leaf) => {
                assert(self.deep_view() == Tree::Leaf(leaf.deep_view()));
                None
            },
            Value::Choice(c) => {
                assert(self.deep_view() == Tree::Choice(c.deep_view()));
                None
            },
        }
    }

    /// A copy of the value.
    pub fn duplicate(&self) -> (r: Value)
        ensures
            r.deep_view() == self.deep_view(),
        decreases self,
    {
        match self {
            Value::Leaf(s) => Value::Leaf(s.duplicate()),
            Value::Record(fields) => Value::Record(duplicate_fields(fields)),
            Value::Choice(c) => Value::Choice(c.duplicate()),
        }
    }
}

impl LoadEnv for Value {
    open spec fn overridden(tree: Tree, path: Seq<char>, env: Map<Seq<char>, Seq<char>>) -> Tree {
        tree_overridden(tree, path, env)
    }

    open spec fn key_set(tree: Tree, path: Seq<char>) -> Set<Seq<char>> {
        tree_keys(tree, path)
    }

    open spec fn visited(tree: Tree, path: Seq<char>, state: State) -> State {
        tree_visited(tree, path, state)
    }

    fn load(self, path: &str, loader: &mut Loader) -> (r: Value) {
        descend(&self, path, loader)
    }

    proof fn lemma_visit_grows(tree: Tree, path: Seq<char>, state: State) {
        lemma_tree_visit_grows(tree, path, state);
    }

    proof fn lemma_unset_keeps(tree: Tree, path: Seq<char>, env: Map<Seq<char>, Seq<char>>) {
        lemma_tree_unset_keeps(tree, path, env);
    }
}

/// An enumeration that has chosen one of its variants has still done so
/// after the descent.
pub proof fn lemma_choice_stays_wf(
    value: ChoiceView,
    path: Seq<char>,
    env: Map<Seq<char>, Seq<char>>,
)
    requires
        value.wf(),
    ensures
        choice_overridden(value, path, env).wf(),
        choice_overridden(value, path, env).variants == value.variants,
{
    lemma_first_match(value.variants, wanted(env, path), 0);
}

/// What the search for a variant finds: the least index at or after `from`
/// whose label is the text, and nothing exactly where no such index exists.
pub proof fn lemma_first_match(variants: Seq<VariantView>, text: Seq<char>, from: nat)
    ensures
        match first_match(variants, text, from) {
            Some(i) => {
                &&& from <= i < variants.len()
                &&& label(variants[i]) == text
                &&& forall|j: int| from <= j < i ==> label(#[trigger] variants[j]) != text
            },
            None => forall|j: int|
                from <= j < variants.len() ==> label(#[trigger] variants[j]) != text,
        },
    decreases variants.len() - from,
{
    if from < variants.len() && label(variants[from as int]) != text {
        lemma_first_match(variants, text, from + 1);
    }
}

/// The descent keeps the first `n` fields well formed.
pub proof fn lemma_fields_stay_wf(
    fields: Seq<FieldView>,
    path: Seq<char>,
    env: Map<Seq<char>, Seq<char>>,
    n: nat,
)
    requires
        n <= fields.len(),
        fields_wf(fields, n),
    ensures
        fields_wf(fields_overridden(fields, path, env, n), n),
    decreases fields, n,
{
    if n > 0 {
        let m = (n - 1) as nat;
        let f = fields[n - 1];
        let after = fields_overridden(fields, path, env, n);
        let before = fields_overridden(fields, path, env, m);
        assert(fields_wf(fields, n) == (fields_wf(fields, m) && tree_wf(f.value)));
        lemma_fields_stay_wf(fields, path, env, m);
        if !f.skip {
            lemma_tree_stays_wf(f.value, field_path(path, f, n - 1), env);
        }
        lemma_fields_overridden(fields, path, env, n);
        lemma_fields_overridden(fields, path, env, m);
        lemma_fields_wf_by_index(before, m);
        assert forall|i: int| 0 <= i < n implies tree_wf(#[trigger] after[i].value) by {
            if i < m {
                assert(after[i] == before[i]);
            }
        }
        lemma_fields_wf_from_index(after, n);
    } else {
        assert(fields_wf(fields_overridden(fields, path, env, n), n));
    }
}

/// Well-formed fields are well formed one by one.
pub proof fn lemma_fields_wf_by_index(fields: Seq<FieldView>, n: nat)
    requires
        n <= fields.len(),
        fields_wf(fields, n),
    ensures
        forall|i: int| 0 <= i < n ==> tree_wf(#[trigger] fields[i].value),
    decreases n,
{
    if n > 0 {
        assert(fields_wf(fields, n) == (fields_wf(fields, (n - 1) as nat) && tree_wf(
            fields[n - 1].value,
        )));
        lemma_fields_wf_by_index(fields, (n - 1) as nat);
    }
}

/// Fields that are well formed one by one are well formed.
pub proof fn lemma_fields_wf_from_index(fields: Seq<FieldView>, n: nat)
    requires
        n <= fields.len(),
        forall|i: int| 0 <= i < n ==> tree_wf(#[trigger] fields[i].value),
    ensures
        fields_wf(fields, n),
    decreases n,
{
    if n > 0 {
        lemma_fields_wf_from_index(fields, (n - 1) as nat);
        assert(fields_wf(fields, n) == (fields_wf(fields, (n - 1) as nat) && tree_wf(
            fields[n - 1].value,
        )));
    } else {
        assert(fields_wf(fields, n));
    }
}

/// The descent keeps a tree well formed: every enumeration in it has still
/// chosen one of its variants.
pub proof fn lemma_tree_stays_wf(tree: Tree, path: Seq<char>, env: Map<Seq<char>, Seq<char>>)
    requires
        tree_wf(tree),
    ensures
        tree_wf(tree_overridden(tree, path, env)),
    decreases tree,
{
    match tree {
        Tree::Leaf(_) => {},
        Tree::Record(fields) => {
            lemma_fields_stay_wf(fields, path, env, fields.len());
            lemma_fields_overridden(fields, path, env, fields.len());
        },
        Tree::Choice(c) => {
            lemma_choice_stays_wf(c, path, env);
        },
    }
}

} // verus!
