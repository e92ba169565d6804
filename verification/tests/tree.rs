use econf::diagnostics::{Diagnostic, Event};
use econf::env::Env;
use econf::leaf::Leaf;
use econf::load;
use econf::load_env::LoadEnv;
use econf::loader::Loader;
use econf::text::{child_path, index_segment};
use econf::tree::{descend, Choice, Field, Value, Variant};

fn store_with(pairs: &[(&str, &str)]) -> Env {
    let mut env = Env::new();
    for (k, v) in pairs {
        env.set(k, v);
    }
    env
}

fn num(name: &str, n: u64) -> Field {
    Field::named(name, Value::Leaf(Leaf::U64(n)))
}

fn three(current: usize) -> Choice {
    Choice::new(vec![Variant::new("V1"), Variant::new("V2"), Variant::new("V3")], current).unwrap()
}

fn note(event: Event, key: &str, text: &str) -> Diagnostic {
    Diagnostic { event, key: key.to_string(), text: text.to_string() }
}

#[test]
fn child_path_joins_with_underscore() {
    assert_eq!(child_path("PREFIX", "x"), "PREFIX_x");
    assert_eq!(child_path("", "x"), "_x");
    assert_eq!(child_path("a", ""), "a_");
    assert_eq!(child_path(&child_path("p", "v2"), "v1"), child_path("p", "v2_v1"));
}

#[test]
fn index_segment_is_decimal() {
    assert_eq!(index_segment(0), "0");
    assert_eq!(index_segment(9), "9");
    assert_eq!(index_segment(10), "10");
    assert_eq!(index_segment(12345), "12345");
    assert_eq!(index_segment(usize::MAX), usize::MAX.to_string());
}

#[test]
fn readme_scenario() {
    let env = store_with(&[("PREFIX_X", "false")]);
    let a = Value::Record(vec![Field::named("x", Value::Leaf(Leaf::Bool(true))), num("y", 42)]);
    let a = load(a, "PREFIX", &env);
    let want = Value::Record(vec![Field::named("x", Value::Leaf(Leaf::Bool(false))), num("y", 42)]);
    assert_eq!(a, want);
}

#[test]
fn nothing_set_nothing_changes() {
    let env = store_with(&[("ELSEWHERE_X", "false")]);
    let tree = || {
        Value::Record(vec![
            Field::named("x", Value::Leaf(Leaf::Bool(true))),
            Field::named("inner", Value::Record(vec![num("y", 42)])),
            Field::named("mode", Value::Choice(three(2))),
        ])
    };
    assert_eq!(load(tree(), "PREFIX", &env), tree());
    assert_eq!(load(tree(), "", &env), tree());
}

#[test]
fn nested_fields_compose_their_paths() {
    let env = store_with(&[("PREFIX_V2_V1", "20")]);
    let a = Value::Record(vec![
        num("v1", 1),
        Field::named("v2", Value::Record(vec![num("v1", 2), num("v2", 3)])),
    ]);
    let a = load(a, "PREFIX", &env);
    let want = Value::Record(vec![
        num("v1", 1),
        Field::named("v2", Value::Record(vec![num("v1", 20), num("v2", 3)])),
    ]);
    assert_eq!(a, want);
}

#[test]
fn ambiguous_path_reaches_both_fields() {
    let env = store_with(&[("PREFIX_V2_V1", "9")]);
    let a = Value::Record(vec![
        num("v2_v1", 1),
        Field::named("v2", Value::Record(vec![num("v1", 2), num("v2", 3)])),
    ]);
    let mut loader = Loader::new(&env);
    let a = a.load("PREFIX", &mut loader);
    let want = Value::Record(vec![
        num("v2_v1", 9),
        Field::named("v2", Value::Record(vec![num("v1", 9), num("v2", 3)])),
    ]);
    assert_eq!(a, want);
    let log = vec![
        note(Event::Found, "PREFIX_V2_V1", "9"),
        note(Event::Ambiguous, "PREFIX_V2_V1", ""),
        note(Event::Found, "PREFIX_V2_V1", "9"),
        note(Event::NotFound, "PREFIX_V2_V2", ""),
    ];
    assert_eq!(loader.diagnostics(), &log);
}

#[test]
fn skipped_field_is_never_consulted() {
    let env = store_with(&[("P_A", "1"), ("P_B", "2")]);
    let a = Value::Record(vec![num("a", 10).skipped(), num("b", 20)]);
    let mut loader = Loader::new(&env);
    let a = descend(&a, "p", &mut loader);
    assert_eq!(a, Value::Record(vec![num("a", 10).skipped(), num("b", 2)]));
    assert_eq!(loader.diagnostics(), &vec![note(Event::Found, "P_B", "2")]);
    assert!(!loader.is_duplicated("P_A"));
    assert!(loader.is_duplicated("P_B"));
}

#[test]
fn renamed_field_uses_the_new_segment() {
    let env = store_with(&[("P_Y", "1"), ("P_ANOTHER_Y", "2")]);
    let a = Value::Record(vec![num("y", 0).renamed("ANOTHER_Y")]);
    let a = load(a, "p", &env);
    assert_eq!(a, Value::Record(vec![num("y", 2).renamed("ANOTHER_Y")]));
}

#[test]
fn positional_fields_use_their_index() {
    let env = store_with(&[("T_0", "5"), ("T_2", "7"), ("T_NAME", "8")]);
    let pos = |n: u64| Field::positional(Value::Leaf(Leaf::U64(n)));
    let a = Value::Record(vec![pos(0), pos(0), pos(0), pos(0).renamed("name")]);
    let a = load(a, "t", &env);
    assert_eq!(a, Value::Record(vec![pos(5), pos(0), pos(7), pos(8).renamed("name")]));
}

#[test]
fn record_without_fields_is_not_looked_up() {
    let env = store_with(&[("UNIT", "anything")]);
    let mut loader = Loader::new(&env);
    let a = Value::Record(Vec::new()).load("unit", &mut loader);
    assert_eq!(a, Value::Record(Vec::new()));
    assert!(loader.diagnostics().is_empty());
    assert!(!loader.is_duplicated("UNIT"));
}

#[test]
fn enumeration_takes_the_named_variant() {
    let env = store_with(&[("PREFIX", "V2")]);
    let mut loader = Loader::new(&env);
    let c = three(0).resolve("PREFIX", &mut loader);
    assert_eq!(c, three(1));
    assert_eq!(c.chosen(), Some(&Variant::new("V2")));
    assert_eq!(loader.diagnostics(), &vec![note(Event::Found, "PREFIX", "V2")]);
}

#[test]
fn enumeration_unset_or_empty_stays() {
    let env = store_with(&[("EMPTY", "")]);
    let mut loader = Loader::new(&env);
    assert_eq!(three(2).resolve("PREFIX", &mut loader), three(2));
    assert_eq!(three(2).resolve("EMPTY", &mut loader), three(2));
    let log = vec![note(Event::NotFound, "PREFIX", ""), note(Event::Found, "EMPTY", "")];
    assert_eq!(loader.diagnostics(), &log);
}

#[test]
fn enumeration_unknown_label_stays_with_error() {
    let env = store_with(&[("PREFIX", "Bogus"), ("LOWER", "v2")]);
    let mut loader = Loader::new(&env);
    assert_eq!(three(2).resolve("PREFIX", &mut loader), three(2));
    assert_eq!(three(0).resolve("LOWER", &mut loader), three(0));
    let log = vec![
        note(Event::Found, "PREFIX", "Bogus"),
        note(Event::UnknownVariant, "PREFIX", "Bogus"),
        note(Event::Found, "LOWER", "v2"),
        note(Event::UnknownVariant, "LOWER", "v2"),
    ];
    assert_eq!(loader.diagnostics(), &log);
}

#[test]
fn enumeration_matches_rename_and_first_wins() {
    let env = store_with(&[("MODE", "api-key"), ("DUP", "same")]);
    let variants = || {
        vec![
            Variant::new("ApiKey").renamed("api-key"),
            Variant::new("same"),
            Variant::new("Other").renamed("same"),
        ]
    };
    let start = Choice::new(variants(), 2).unwrap();
    let mut loader = Loader::new(&env);
    assert_eq!(start.resolve("mode", &mut loader), Choice::new(variants(), 0).unwrap());
    assert_eq!(start.resolve("dup", &mut loader), Choice::new(variants(), 1).unwrap());
    let env = store_with(&[("MODE", "ApiKey")]);
    assert_eq!(load(Value::Choice(Choice::new(variants(), 2).unwrap()), "mode", &env),
        Value::Choice(Choice::new(variants(), 2).unwrap()));
}

#[test]
fn choice_needs_an_existing_variant() {
    assert_eq!(Choice::new(Vec::new(), 0), None);
    assert_eq!(Choice::new(vec![Variant::new("A")], 1), None);
    let c = Choice::new(vec![Variant::new("A")], 0).unwrap();
    assert_eq!(c.chosen(), Some(&Variant::new("A")));
    assert_eq!(c.find(&"A".to_string()), Some(0));
    assert_eq!(c.find(&"B".to_string()), None);
}

#[test]
fn get_reaches_fields_only() {
    let a = Value::Record(vec![num("a", 1)]);
    assert_eq!(a.get(0), Some(&Value::Leaf(Leaf::U64(1))));
    assert_eq!(a.get(1), None);
    assert_eq!(Value::Leaf(Leaf::U64(1)).get(0), None);
    assert_eq!(a.duplicate(), a);
}

#[test]
fn leaves_of_every_kind_load() {
    let env = store_with(&[
        ("L_0", "true"),
        ("L_1", "z"),
        ("L_2", "text"),
        ("L_3", "-7"),
        ("L_4", "1m"),
        ("L_5", "[true]"),
        ("L_6", "[-1]"),
        ("L_7", "[1]"),
        ("L_8", "[a, b]"),
        ("L_9", "5"),
        ("L_10", "~"),
    ]);
    let pos = |l: Leaf| Field::positional(Value::Leaf(l));
    let a = Value::Record(vec![
        pos(Leaf::Bool(false)),
        pos(Leaf::Char('a')),
        pos(Leaf::Text(String::new())),
        pos(Leaf::I128(0)),
        pos(Leaf::Span(econf::span::Span { secs: 0, nanos: 0 })),
        pos(Leaf::Bools(Vec::new())),
        pos(Leaf::Signed(Vec::new())),
        pos(Leaf::Unsigned(Vec::new())),
        pos(Leaf::Texts(Vec::new())),
        pos(Leaf::MaybeSigned(None)),
        pos(Leaf::MaybeText(Some("x".to_string()))),
    ]);
    let want = Value::Record(vec![
        pos(Leaf::Bool(true)),
        pos(Leaf::Char('z')),
        pos(Leaf::Text("text".to_string())),
        pos(Leaf::I128(-7)),
        pos(Leaf::Span(econf::span::Span { secs: 60, nanos: 0 })),
        pos(Leaf::Bools(vec![true])),
        pos(Leaf::Signed(vec![-1])),
        pos(Leaf::Unsigned(vec![1])),
        pos(Leaf::Texts(vec!["a".to_string(), "b".to_string()])),
        pos(Leaf::MaybeSigned(Some(5))),
        pos(Leaf::MaybeText(None)),
    ]);
    assert_eq!(load(a, "l", &env), want);
}
