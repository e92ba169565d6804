use econf::diagnostics::{Diagnostic, Event, Severity};
use econf::env::Env;
use econf::{load, load_reporting};
use econf::load_env::LoadEnv;
use econf::loader::{attempt, Loader};
use econf::parse::FromText;
use econf::nonzero::{Integer, NonZero};
use econf::span::{count_digits, read_span, Span, SpanError};
use econf::decode::FromYaml;
use std::collections::{BTreeMap, BTreeSet};

fn store_of(pairs: &[(&str, &str)]) -> Env {
    let mut env = Env::new();
    for (k, v) in pairs {
        env.set(k, v);
    }
    env
}

fn diag(event: Event, key: &str, text: &str) -> Diagnostic {
    Diagnostic { event, key: key.to_string(), text: text.to_string() }
}

#[test]
fn env_set_get_unset() {
    let mut env = Env::new();
    assert_eq!(env.get("A"), None);
    env.set("A", "1");
    env.set("B", "2");
    env.set("A", "3");
    assert_eq!(env.get("A"), Some("3"));
    assert_eq!(env.get("B"), Some("2"));
    assert_eq!(env.get("a"), None);
    env.unset("A");
    assert_eq!(env.get("A"), None);
    assert_eq!(env.get("B"), Some("2"));
}

#[test]
fn is_duplicated_registers_names() {
    let env = Env::new();
    let mut loader = Loader::new(&env);
    assert!(!loader.is_duplicated("PREFIX_X"));
    assert!(!loader.is_duplicated("PREFIX_Y"));
    assert!(loader.is_duplicated("PREFIX_X"));
}

#[test]
fn is_duplicated_ignores_case() {
    let env = Env::new();
    let mut loader = Loader::new(&env);
    assert!(!loader.is_duplicated("prefix_Field"));
    assert!(loader.is_duplicated("PREFIX_FIELD"));
    assert!(loader.is_duplicated("Prefix_field"));
    assert!(loader.diagnostics().is_empty());
}

#[test]
fn tracker_is_scoped_to_one_loader() {
    let env = Env::new();
    let mut first = Loader::new(&env);
    assert!(!first.is_duplicated("A"));
    let mut second = Loader::new(&env);
    assert!(!second.is_duplicated("A"));
}

#[test]
fn load_and_map_falls_back() {
    let env = store_of(&[("BAR", "2"), ("BUZZ", "A")]);
    let mut loader = Loader::new(&env);
    assert_eq!(loader.load_and_map(1, "FOO", |v: &str| v.parse::<i32>()), 1);
    assert_eq!(loader.load_and_map(1, "BAR", |v: &str| v.parse::<i32>()), 2);
    assert_eq!(loader.load_and_map(1, "BUZZ", |v: &str| v.parse::<i32>()), 1);
}

#[test]
fn load_from_yaml_decodes_containers() {
    let env = store_of(&[("FOO", "[2, 2, 3]"), ("BAR", "{1: x, 2: y}"), ("BUZZ", "broken")]);
    let mut loader = Loader::new(&env);
    assert_eq!(loader.load_from_yaml(vec![1u64, 2, 3], "FOO"), vec![2, 2, 3]);
    assert_eq!(loader.load_from_yaml(vec![1u64, 2, 3], "FOO2"), vec![1, 2, 3]);
    let mut before = BTreeMap::new();
    before.insert(1i64, "a".to_string());
    let mut after = BTreeMap::new();
    after.insert(1i64, "x".to_string());
    after.insert(2i64, "y".to_string());
    assert_eq!(loader.load_from_yaml(before.clone(), "BAR"), after);
    assert_eq!(loader.load_from_yaml(before.clone(), "BAR2"), before);
    assert_eq!(loader.load_from_yaml(vec![1u64, 2, 3], "BUZZ"), vec![1, 2, 3]);
}

#[test]
fn load_from_str_parses_scalars() {
    let env = store_of(&[("FOO", "2"), ("BAR", "true"), ("BUZZ", "A")]);
    let mut loader = Loader::new(&env);
    assert_eq!(loader.load_from_str(1i32, "FOO"), 2);
    assert_eq!(loader.load_from_str(1i32, "FOO2"), 1);
    assert_eq!(loader.load_from_str(false, "BAR"), true);
    assert_eq!(loader.load_from_str(false, "BAR2"), false);
    assert_eq!(loader.load_from_str(1i32, "BUZZ"), 1);
}

#[test]
fn attempt_keeps_or_replaces() {
    assert_eq!(attempt::<u8, ()>(1, None), 1);
    assert_eq!(attempt::<u8, ()>(1, Some(Err(()))), 1);
    assert_eq!(attempt::<u8, ()>(1, Some(Ok(7))), 7);
}

#[test]
fn lookup_is_by_upper_case_key() {
    let env = store_of(&[("PREFIX_FIELD", "7"), ("lower", "9")]);
    assert_eq!(load(1u8, "prefix_Field", &env), 7);
    assert_eq!(load(1u8, "PREFIX_FIELD", &env), 7);
    assert_eq!(load(1u8, "prefix_field", &env), 7);
    assert_eq!(load(1u8, "lower", &env), 1);
    assert_eq!(load(1u8, "LOWER", &env), 1);
    let env = store_of(&[("STRASSE", "5")]);
    assert_eq!(load(1u8, "straße", &env), 5);
}

#[test]
fn no_key_no_change() {
    let env = store_of(&[("OTHER", "5")]);
    assert_eq!(load(41u64, "PREFIX", &env), 41);
    assert_eq!(load("text".to_string(), "PREFIX", &env), "text");
    assert_eq!(load(vec![1i64, 2], "PREFIX", &env), vec![1, 2]);
    assert_eq!(load(Span { secs: 3, nanos: 4 }, "PREFIX", &env), Span { secs: 3, nanos: 4 });
}

#[test]
fn diagnostics_follow_the_lookups() {
    let env = store_of(&[("A", "1"), ("B", "x")]);
    let mut loader = Loader::new(&env);
    assert_eq!(5u8.load("a", &mut loader), 1);
    assert_eq!(5u8.load("b", &mut loader), 5);
    assert_eq!(5u8.load("c", &mut loader), 5);
    assert_eq!(6u8.load("A", &mut loader), 1);
    let want = vec![
        diag(Event::Found, "A", "1"),
        diag(Event::ParseFailure, "B", "x"),
        diag(Event::NotFound, "C", ""),
        diag(Event::Ambiguous, "A", ""),
        diag(Event::Found, "A", "1"),
    ];
    assert_eq!(loader.diagnostics(), &want);
}

#[test]
fn messages_and_severities() {
    let found = diag(Event::Found, "K", "v");
    assert_eq!(found.message(), "econf: loading K: found v");
    assert_eq!(found.severity(), Severity::Info);
    let missing = diag(Event::NotFound, "K", "");
    assert_eq!(missing.message(), "econf: loading K: not found");
    assert_eq!(missing.severity(), Severity::Info);
    let twice = diag(Event::Ambiguous, "K", "");
    assert_eq!(twice.message(), "econf: warning: K is ambiguous");
    assert_eq!(twice.severity(), Severity::Warning);
    let bad = diag(Event::ParseFailure, "K", "v");
    assert_eq!(bad.message(), "econf: loading K: error on parsing \"v\"");
    assert_eq!(bad.severity(), Severity::Error);
    let unknown = diag(Event::UnknownVariant, "K", "Bogus");
    assert_eq!(unknown.message(), "econf: couldn't find variant: Bogus");
    assert_eq!(unknown.severity(), Severity::Error);
}

#[test]
fn booleans_from_text() {
    assert_eq!(bool::from_text("true"), Some(true));
    assert_eq!(bool::from_text("false"), Some(false));
    assert_eq!(bool::from_text("True"), None);
    assert_eq!(bool::from_text(""), None);
    assert_eq!(bool::from_text(" true"), None);
}

#[test]
fn characters_from_text() {
    assert_eq!(char::from_text("D"), Some('D'));
    assert_eq!(char::from_text("é"), Some('é'));
    assert_eq!(char::from_text(""), None);
    assert_eq!(char::from_text("ab"), None);
}

#[test]
fn texts_from_text() {
    assert_eq!(String::from_text(""), Some(String::new()));
    assert_eq!(String::from_text("[1,2,3]"), Some("[1,2,3]".to_string()));
}

#[test]
fn integers_from_text() {
    assert_eq!(u8::from_text("42"), Some(42));
    assert_eq!(u8::from_text("+5"), Some(5));
    assert_eq!(u8::from_text("007"), Some(7));
    assert_eq!(u8::from_text("255"), Some(255));
    assert_eq!(u8::from_text("256"), None);
    assert_eq!(u8::from_text("-1"), None);
    assert_eq!(u8::from_text("-0"), None);
    assert_eq!(u8::from_text(""), None);
    assert_eq!(u8::from_text("+"), None);
    assert_eq!(u8::from_text(" 1"), None);
    assert_eq!(u8::from_text("1_0"), None);
    assert_eq!(i8::from_text("-128"), Some(-128));
    assert_eq!(i8::from_text("-129"), None);
    assert_eq!(i8::from_text("-0"), Some(0));
    assert_eq!(i8::from_text("-"), None);
    assert_eq!(i8::from_text("+-1"), None);
    assert_eq!(u16::from_text("65535"), Some(65535));
    assert_eq!(u32::from_text("311900"), Some(311900));
    assert_eq!(u64::from_text("18446744073709551615"), Some(u64::MAX));
    assert_eq!(u64::from_text("18446744073709551616"), None);
    assert_eq!(u128::from_text("340282366920938463463374607431768211455"), Some(u128::MAX));
    assert_eq!(usize::from_text("3247683283"), Some(3247683283));
    assert_eq!(i16::from_text("-100"), Some(-100));
    assert_eq!(i32::from_text("-32393"), Some(-32393));
    assert_eq!(i64::from_text("-9223372036854775808"), Some(i64::MIN));
    assert_eq!(i128::from_text("-1111384279284"), Some(-1111384279284));
    assert_eq!(isize::from_text("122233"), Some(122233));
    assert_eq!(u8::from_text("+0"), Some(0));
    assert_eq!(i8::from_text("+127"), Some(127));
    assert_eq!(i8::from_text("+128"), None);
    assert_eq!(i8::from_text("--1"), None);
    assert_eq!(i8::from_text("-+1"), None);
    assert_eq!(u32::from_text("0x10"), None);
    assert_eq!(u32::from_text("1e3"), None);
    assert_eq!(u32::from_text("12 "), None);
    assert_eq!(u32::from_text("١٢"), None);
    assert_eq!(u8::from_text("0000000000000000000000000000000000000001"), Some(1));
    assert_eq!(i8::from_text("-0000000000000000000000000000000000000128"), Some(-128));
}

#[test]
fn canonical_text_round_trips() {
    let mut env = Env::new();
    env.set("P_A", &u64::MAX.to_string());
    env.set("P_B", &i64::MIN.to_string());
    env.set("P_C", &true.to_string());
    env.set("P_D", &'x'.to_string());
    env.set("P_E", "any text at all");
    assert_eq!(load(0u64, "p_a", &env), u64::MAX);
    assert_eq!(load(0i64, "p_b", &env), i64::MIN);
    assert_eq!(load(false, "p_c", &env), true);
    assert_eq!(load('a', "p_d", &env), 'x');
    assert_eq!(load(String::new(), "p_e", &env), "any text at all");
}

#[test]
fn spans_from_text() {
    assert_eq!(Span::from_text("2h 37min"), Some(Span { secs: 9420, nanos: 0 }));
    assert_eq!(Span::from_text("32ms"), Some(Span { secs: 0, nanos: 32_000_000 }));
    assert_eq!(Span::from_text("4.2s"), Some(Span { secs: 4, nanos: 200_000_000 }));
    assert_eq!(Span::from_text("0"), Some(Span { secs: 0, nanos: 0 }));
    assert_eq!(Span::from_text("soon"), None);
    assert_eq!(Span::from_text(""), None);
}

#[test]
fn span_load_records_failure() {
    let env = store_of(&[("D", "soon")]);
    let mut loader = Loader::new(&env);
    let d = Span { secs: 1, nanos: 2 }.load("d", &mut loader);
    assert_eq!(d, Span { secs: 1, nanos: 2 });
    assert_eq!(loader.diagnostics(), &vec![diag(Event::ParseFailure, "D", "soon")]);
}

#[test]
fn containers_from_yaml() {
    assert_eq!(Vec::<bool>::from_yaml("[true, false]"), Some(vec![true, false]));
    assert_eq!(Vec::<bool>::from_yaml("[1, 2]"), None);
    assert_eq!(Vec::<i64>::from_yaml("[-1, -3, 4]"), Some(vec![-1, -3, 4]));
    assert_eq!(Vec::<i64>::from_yaml("- 1\n- 2\n"), Some(vec![1, 2]));
    assert_eq!(Vec::<u64>::from_yaml("[]"), Some(Vec::new()));
    assert_eq!(Vec::<u64>::from_yaml("[-1]"), None);
    assert_eq!(Vec::<u64>::from_yaml("[1, 2"), None);
    assert_eq!(
        Vec::<String>::from_yaml("[Z, X, Y]"),
        Some(vec!["Z".to_string(), "X".to_string(), "Y".to_string()])
    );
    assert_eq!(Option::<i64>::from_yaml("~"), Some(None));
    assert_eq!(Option::<i64>::from_yaml("12"), Some(Some(12)));
    assert_eq!(Option::<i64>::from_yaml("twelve"), None);
    assert_eq!(Option::<String>::from_yaml("Hage"), Some(Some("Hage".to_string())));
    assert_eq!(Option::<String>::from_yaml("null"), Some(None));
    assert_eq!(
        <(bool, i64, String)>::from_yaml("[false, -11, gaybar]"),
        Some((false, -11, "gaybar".to_string()))
    );
    assert_eq!(<(bool, i64, String)>::from_yaml("[false, -11]"), None);
    let mut map = BTreeMap::new();
    map.insert(-1i64, "gomi".to_string());
    map.insert(9i64, "5".to_string());
    assert_eq!(BTreeMap::<i64, String>::from_yaml("{-1: gomi, 9: 5}"), Some(map));
    assert_eq!(BTreeMap::<i64, String>::from_yaml("[1]"), None);
    let mut set = BTreeSet::new();
    set.insert("PP".to_string());
    set.insert("QQ".to_string());
    assert_eq!(BTreeSet::<String>::from_yaml("[PP, QQ, PP]"), Some(set));
}

#[test]
fn malformed_document_keeps_the_container() {
    let env = store_of(&[("LIST", "[1, two]"), ("MAYBE", "[1]")]);
    let mut loader = Loader::new(&env);
    assert_eq!(vec![7i64].load("list", &mut loader), vec![7]);
    assert_eq!(Some(3i64).load("maybe", &mut loader), Some(3));
    let want = vec![
        diag(Event::ParseFailure, "LIST", "[1, two]"),
        diag(Event::ParseFailure, "MAYBE", "[1]"),
    ];
    assert_eq!(loader.diagnostics(), &want);
}

#[test]
fn span_refuses_long_numbers_unparsed() {
    assert_eq!(count_digits(""), 0);
    assert_eq!(count_digits("1h 12min"), 3);
    assert_eq!(count_digits("٣s"), 0);
    assert_eq!(read_span("12345678901ns"), Ok(Span { secs: 12, nanos: 345_678_901 }));
    assert_eq!(read_span("123456789012ns"), Err(SpanError::TooManyDigits));
    assert_eq!(
        read_span("18446744073709551615s 1000000000ns"),
        Err(SpanError::TooManyDigits)
    );
    assert_eq!(read_span("1 fortnight"), Err(SpanError::Malformed));
    assert_eq!(read_span("1m"), Ok(Span { secs: 60, nanos: 0 }));
    assert_eq!(Span::from_text("123456789012ns"), None);
}

#[test]
fn non_zero_rejects_zero() {
    assert_eq!(NonZero::new(0u8), None);
    assert_eq!(NonZero::new(5u8).map(|n| n.get()), Some(5));
    assert!(0i64.is_zero());
    assert!(!(-1i64).is_zero());
    assert_eq!(NonZero::<u8>::from_text("0"), None);
    assert_eq!(NonZero::<i16>::from_text("-0"), None);
    assert_eq!(NonZero::<i16>::from_text("000"), None);
    assert_eq!(NonZero::<i16>::from_text("-7").map(|n| n.get()), Some(-7));
    assert_eq!(NonZero::<u8>::from_text("256"), None);
    let env = store_of(&[("N", "0"), ("M", "9")]);
    let mut loader = Loader::new(&env);
    assert_eq!(NonZero::new(3u32).unwrap().load("n", &mut loader).get(), 3);
    assert_eq!(NonZero::new(3u32).unwrap().load("m", &mut loader).get(), 9);
    let want = vec![diag(Event::ParseFailure, "N", "0"), diag(Event::Found, "M", "9")];
    assert_eq!(loader.into_diagnostics(), want);
}

#[test]
fn load_reporting_returns_the_log() {
    let env = store_of(&[("A", "1")]);
    let (value, log) = load_reporting(0u8, "a", &env);
    assert_eq!(value, 1);
    assert_eq!(log, vec![diag(Event::Found, "A", "1")]);
    let (value, log) = load_reporting(0u8, "b", &env);
    assert_eq!(value, 0);
    assert_eq!(log, vec![diag(Event::NotFound, "B", "")]);
}
