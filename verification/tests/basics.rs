use econf::env::Env;
use econf::leaf::Leaf;
use econf::load;
use econf::load_env::LoadEnv;
use econf::loader::Loader;
use econf::nonzero::NonZero;
use econf::span::Span;
use econf::text::{child_path, index_segment};
use econf::tree::{Field, Value};
use std::collections::{BTreeMap, BTreeSet, HashMap, HashSet, LinkedList, VecDeque};
use std::path::PathBuf;

fn store(pairs: &[(&str, &str)]) -> Env {
    let mut env = Env::new();
    for (k, v) in pairs {
        env.set(k, v);
    }
    env
}

fn at<T: LoadEnv>(value: T, path: &str, name: &str, loader: &mut Loader) -> T {
    value.load(&child_path(path, name), loader)
}

fn leaf(name: &str, value: Leaf) -> Field {
    Field::named(name, Value::Leaf(value))
}

fn text(s: &str) -> Leaf {
    Leaf::Text(s.to_string())
}

struct Boolean {
    a: bool,
    b: bool,
}

#[test]
fn boolean() {
    let env = store(&[("BOOL_B", "true")]);
    let mut loader = Loader::new(&env);

    let a = Boolean { a: false, b: false };
    let a = Boolean {
        a: at(a.a, "bool", "a", &mut loader),
        b: at(a.b, "bool", "b", &mut loader),
    };
    assert_eq!(a.a, false);
    assert_eq!(a.b, true);
}

#[test]
fn numbers() {
    let env = store(&[
        ("NUMBERS_F2", "32.3"),
        ("NUMBERS_SZ", "122233"),
        ("NUMBERS_I3", "-32393"),
        ("NUMBERS_U4", "1384279284"),
    ]);
    let mut l = Loader::new(&env);
    let p = "numbers";

    let f1 = l.load_and_map(1.2f32, &child_path(p, "f1"), |s: &str| s.parse::<f32>());
    let f2 = l.load_and_map(3.1f64, &child_path(p, "f2"), |s: &str| s.parse::<f64>());
    let sz = at(3267849isize, p, "sz", &mut l);
    let i1 = at(-39i8, p, "i1", &mut l);
    let i2 = at(-100i16, p, "i2", &mut l);
    let i3 = at(322i32, p, "i3", &mut l);
    let i4 = at(32897323i64, p, "i4", &mut l);
    let usz = at(3247683283usize, p, "usz", &mut l);
    let u1 = at(39u8, p, "u1", &mut l);
    let u2 = at(328u16, p, "u2", &mut l);
    let u3 = at(311900u32, p, "u3", &mut l);
    let u4 = at(36718928u64, p, "u4", &mut l);
    assert_eq!(f1, 1.2);
    assert_eq!(f2, 32.3);
    assert_eq!(sz, 122233);
    assert_eq!(i1, -39);
    assert_eq!(i2, -100);
    assert_eq!(i3, -32393);
    assert_eq!(i4, 32897323);
    assert_eq!(usz, 3247683283);
    assert_eq!(u1, 39);
    assert_eq!(u2, 328);
    assert_eq!(u3, 311900);
    assert_eq!(u4, 1384279284);
}

#[test]
fn vectors() {
    let env = store(&[
        ("SEQS_F1", "[1.1, 1.2, 1.3]"),
        ("SEQS_USZ", "[]"),
        ("SEQS_I1", "[-1, -3, 4, 5, 6]"),
        ("SEQS_U2", "[131239, 1930421, 115]"),
        ("SEQS_L1", "[true, true, false, true, false]"),
        ("SEQS_L2", "[3, 9,3, 9]"),
        ("SEQS_L3", "[Z, X, Y]"),
        ("SEQS_S2", "[p, q, r, p]"),
        ("SEQS_S3", "[PP, QQ, RR, QQ, RR]"),
    ]);
    let mut l = Loader::new(&env);
    let p = "seqs";

    let f1 = l.load_and_map(vec![1.2f32, 33.0], &child_path(p, "f1"), |s: &str| {
        serde_yaml::from_str::<Vec<f32>>(s)
    });
    let f2 = l.load_and_map(vec![1.1f64], &child_path(p, "f2"), |s: &str| {
        serde_yaml::from_str::<Vec<f64>>(s)
    });
    let sz: Vec<i64> = at(vec![1, 3, 41, 55], p, "sz", &mut l);
    let i1: Vec<i64> = at(vec![-3, 23], p, "i1", &mut l);
    let i2: Vec<i64> = at(vec![-1, 32, -100], p, "i2", &mut l);
    let usz: Vec<u64> = at(vec![323, 424], p, "usz", &mut l);
    let u1: Vec<u64> = at(vec![1, 1, 1], p, "u1", &mut l);
    let u2: Vec<u64> = at(vec![1, 2, 3], p, "u2", &mut l);
    let l1: Vec<bool> = at(Vec::new(), p, "l1", &mut l);
    let l2 = l.load_and_map(VecDeque::<u32>::default(), &child_path(p, "l2"), |s: &str| {
        serde_yaml::from_str::<VecDeque<u32>>(s)
    });
    let l3: Vec<String> = at(Vec::new(), p, "l3", &mut l);
    let s1: BTreeSet<String> = at(BTreeSet::new(), p, "s1", &mut l);
    let s2 = l.load_and_map(HashSet::<char>::new(), &child_path(p, "s2"), |s: &str| {
        serde_yaml::from_str::<HashSet<char>>(s)
    });
    let s3: BTreeSet<String> = at(BTreeSet::new(), p, "s3", &mut l);

    assert_eq!(f1, vec![1.1, 1.2, 1.3]);
    assert_eq!(f2, vec![1.1]);
    assert_eq!(sz, vec![1, 3, 41, 55]);
    assert_eq!(i1, vec![-1, -3, 4, 5, 6]);
    assert_eq!(i2, vec![-1, 32, -100]);
    assert_eq!(usz, Vec::<u64>::new());
    assert_eq!(u1, vec![1, 1, 1]);
    assert_eq!(u2, vec![131239, 1930421, 115]);
    let mut want_l1 = LinkedList::new();
    want_l1.push_back(true);
    want_l1.push_back(true);
    want_l1.push_back(false);
    want_l1.push_back(true);
    want_l1.push_back(false);
    assert_eq!(l1.into_iter().collect::<LinkedList<bool>>(), want_l1);
    let mut want_l2 = VecDeque::new();
    want_l2.push_back(3);
    want_l2.push_back(9);
    want_l2.push_back(3);
    want_l2.push_back(9);
    assert_eq!(l2, want_l2);
    assert_eq!(l3, vec!["Z".to_string(), "X".to_string(), "Y".to_string()]);
    assert_eq!(s1, BTreeSet::new());
    let mut want_s2 = HashSet::new();
    want_s2.insert('p');
    want_s2.insert('q');
    want_s2.insert('r');
    assert_eq!(s2, want_s2);
    let mut want_s3 = BTreeSet::new();
    want_s3.insert("RR".to_string());
    want_s3.insert("RR".to_string());
    want_s3.insert("PP".to_string());
    want_s3.insert("QQ".to_string());
    want_s3.insert("QQ".to_string());
    assert_eq!(s3, want_s3);
}

#[test]
fn maps() {
    let env = store(&[
        ("MAPS_M1", "{9: 3, 1: 2, 4: 8}"),
        ("MAPS_M2", "{-1: gomi, -3: kami, 9: 5}"),
        ("MAPS_M6", "{-1: gomi, -3: kami, 9: 5}"),
    ]);
    let mut l = Loader::new(&env);

    let a = load_maps(Maps::default(), "maps", &mut l);
    let mut m1 = HashMap::new();
    m1.insert(9, 3);
    m1.insert(1, 2);
    m1.insert(4, 8);
    assert_eq!(a.m1, m1);
    let mut m2 = BTreeMap::new();
    m2.insert(-1, "gomi".to_string());
    m2.insert(-3, "kami".to_string());
    m2.insert(9, "5".to_string());
    assert_eq!(a.m2, m2);
    assert_eq!(a.m3, HashMap::default());
    assert_eq!(a.m4, BTreeMap::default());
    assert_eq!(a.m5, BTreeMap::default());
    let mut m6 = BTreeMap::new();
    m6.insert(-1, "gomi".to_string());
    m6.insert(-3, "kami".to_string());
    m6.insert(9, "5".to_string());
    assert_eq!(a.m6, m6);
}

struct Chars {
    s1: String,
    s2: String,
    s3: String,
    s4: char,
    s5: char,
}

fn load_chars(v: Chars, path: &str, l: &mut Loader) -> Chars {
    Chars {
        s1: at(v.s1, path, "s1", l),
        s2: at(v.s2, path, "s2", l),
        s3: at(v.s3, path, "s3", l),
        s4: at(v.s4, path, "s4", l),
        s5: at(v.s5, path, "s5", l),
    }
}

#[test]
fn chars() {
    let env = store(&[("CHARS_S1", "Hello World"), ("CHARS_S3", "[1,2,3]"), ("CHARS_S5", "D")]);
    let mut l = Loader::new(&env);

    let a = Chars {
        s1: "Gomi".into(),
        s2: "Kami".into(),
        s3: "Semi".into(),
        s4: 'p',
        s5: 'q',
    };
    let a = load_chars(a, "chars", &mut l);
    assert_eq!(a.s1, "Hello World");
    assert_eq!(a.s2, "Kami");
    assert_eq!(a.s3, "[1,2,3]");
    assert_eq!(a.s4, 'p');
    assert_eq!(a.s5, 'D');
}

#[derive(Default)]
struct Maps {
    m1: HashMap<i8, u32>,
    m2: BTreeMap<i64, String>,
    m3: HashMap<u8, u32>,
    m4: BTreeMap<i64, String>,
    m5: BTreeMap<i64, String>,
    m6: BTreeMap<i64, String>,
}

fn load_maps(v: Maps, path: &str, l: &mut Loader) -> Maps {
    Maps {
        m1: l.load_and_map(v.m1, &child_path(path, "m1"), |s: &str| {
            serde_yaml::from_str::<HashMap<i8, u32>>(s)
        }),
        m2: at(v.m2, path, "m2", l),
        m3: l.load_and_map(v.m3, &child_path(path, "m3"), |s: &str| {
            serde_yaml::from_str::<HashMap<u8, u32>>(s)
        }),
        m4: at(v.m4, path, "m4", l),
        m5: at(v.m5, path, "m5", l),
        m6: at(v.m6, path, "m6", l),
    }
}

#[test]
fn nested() {
    let env = store(&[("NESTED_CHS_S2", "__init__"), ("NESTED_MAP_M4", "{1: gay, 2: straight}")]);
    let mut l = Loader::new(&env);

    let chs = Chars {
        s1: "Gomi".into(),
        s2: "Kami".into(),
        s3: "Semi".into(),
        s4: 'p',
        s5: 'q',
    };
    let chs = load_chars(chs, &child_path("nested", "chs"), &mut l);
    let map = load_maps(Maps::default(), &child_path("nested", "map"), &mut l);
    assert_eq!(chs.s1, "Gomi");
    assert_eq!(chs.s2, "__init__");
    assert_eq!(chs.s3, "Semi");
    assert_eq!(chs.s4, 'p');
    assert_eq!(chs.s5, 'q');
    assert_eq!(map.m1, HashMap::default());
    assert_eq!(map.m2, BTreeMap::default());
    assert_eq!(map.m3, HashMap::default());
    let mut m4 = BTreeMap::new();
    m4.insert(1, "gay".to_string());
    m4.insert(2, "straight".to_string());
    assert_eq!(map.m4, m4);
    assert_eq!(map.m5, BTreeMap::default());
    assert_eq!(map.m6, BTreeMap::default());
}

#[test]
fn tuples() {
    let env = store(&[("TUPLES_T2", "[false, -11, gaybar]"), ("TUPLES_T3", "[[9,8,8], -99.9]")]);
    let mut l = Loader::new(&env);
    let p = "tuples";

    let t1 = l.load_and_map(("GB".to_string(), 39u32, 'c'), &child_path(p, "t1"), |s: &str| {
        serde_yaml::from_str::<(String, u32, char)>(s)
    });
    let t2: (bool, i64, String) = at((true, -98, "SB".to_string()), p, "t2", &mut l);
    let t3 = l.load_and_map((vec![1u32, 3, 3], -43.2f32), &child_path(p, "t3"), |s: &str| {
        serde_yaml::from_str::<(Vec<u32>, f32)>(s)
    });
    assert_eq!(t1, ("GB".to_string(), 39, 'c'));
    assert_eq!(t2, (false, -11, "gaybar".to_string()));
    assert_eq!(t3, (vec![9, 8, 8], -99.9));
}

#[derive(PartialEq, Debug)]
struct TS1(String, u32, char);

#[derive(PartialEq, Debug)]
struct TS2(bool, i8, String);

#[derive(PartialEq, Debug)]
struct TS3(Vec<u64>, f32);

fn nth<T: LoadEnv>(value: T, path: &str, index: usize, loader: &mut Loader) -> T {
    value.load(&child_path(path, &index_segment(index)), loader)
}

#[test]
fn tuple_struct() {
    let env = store(&[("TUPLE_STRUCT_T2_2", "gaybar"), ("TUPLE_STRUCT_T3_0", "[11,11,12]")]);
    let mut l = Loader::new(&env);

    let t1 = TS1("GB".into(), 39, 'c');
    let t2 = TS2(true, -98, "SB".into());
    let t3 = TS3(vec![1, 3, 3], -43.2);
    let p1 = child_path("tuple_struct", "t1");
    let p2 = child_path("tuple_struct", "t2");
    let p3 = child_path("tuple_struct", "t3");
    let t1 = TS1(nth(t1.0, &p1, 0, &mut l), nth(t1.1, &p1, 1, &mut l), nth(t1.2, &p1, 2, &mut l));
    let t2 = TS2(nth(t2.0, &p2, 0, &mut l), nth(t2.1, &p2, 1, &mut l), nth(t2.2, &p2, 2, &mut l));
    let t3 = TS3(
        nth(t3.0, &p3, 0, &mut l),
        l.load_and_map(t3.1, &child_path(&p3, &index_segment(1)), |s: &str| s.parse::<f32>()),
    );
    assert_eq!(t1, TS1("GB".into(), 39, 'c'));
    assert_eq!(t2, TS2(true, -98, "gaybar".into()));
    assert_eq!(t3, TS3(vec![11, 11, 12], -43.2));
}

#[test]
fn skipped() {
    let env = store(&[("SKIPPED_V1", "true"), ("SKIPPED_V2", "0"), ("SKIPPED_V3", "skipped")]);

    let a = Value::Record(vec![
        leaf("v1", Leaf::Bool(false)),
        leaf("v2", Leaf::U32(42)).skipped(),
        leaf("v3", text("initial")).skipped(),
    ]);
    let mut loader = Loader::new(&env);
    let a = a.load("skipped", &mut loader);
    assert_eq!(a.get(0), Some(&Value::Leaf(Leaf::Bool(true))));
    assert_eq!(a.get(1), Some(&Value::Leaf(Leaf::U32(42))));
    assert_eq!(a.get(2), Some(&Value::Leaf(text("initial"))));
    assert_eq!(loader.diagnostics().len(), 1);
    assert_eq!(loader.diagnostics()[0].key, "SKIPPED_V1");
}

#[test]
fn options() {
    let env = store(&[("OPTIONS_O1", "~"), ("OPTIONS_O4", "Hage")]);
    let mut l = Loader::new(&env);
    let p = "options";

    let o1: Option<i64> = at(Some(9), p, "o1", &mut l);
    let o2: Option<i64> = at(None, p, "o2", &mut l);
    let o3: Option<String> = at(Some("gomi".to_string()), p, "o3", &mut l);
    let o4: Option<String> = at(None, p, "o4", &mut l);
    assert_eq!(o1, None);
    assert_eq!(o2, None);
    assert_eq!(o3, Some("gomi".to_string()));
    assert_eq!(o4, Some("Hage".to_string()));
}

#[test]
fn capital() {
    let env = store(&[("CAPITAL_VALUE", "10")]);

    let a = Value::Record(vec![leaf("VALUE", Leaf::I32(0))]);
    let a = load(a, "capital", &env);
    assert_eq!(a.get(0), Some(&Value::Leaf(Leaf::I32(10))));
}

#[test]
fn non_zero_numbers() {
    let env = store(&[
        ("NZNUMBERS_SZ", "122233"),
        ("NZNUMBERS_U4", "1384279284"),
        ("NZNUMBERS_I3", "-32393"),
        ("NZNUMBERS_I5", "-1111384279284"),
        ("NZNUMBERS_U1", "0"),
        ("NZNUMBERS_I2", "0"),
    ]);
    let mut l = Loader::new(&env);
    let p = "nznumbers";

    let sz = at(NonZero::new(3267849isize).unwrap(), p, "sz", &mut l);
    let i1 = at(NonZero::new(-39i8).unwrap(), p, "i1", &mut l);
    let i2 = at(NonZero::new(-100i16).unwrap(), p, "i2", &mut l);
    let i3 = at(NonZero::new(322i32).unwrap(), p, "i3", &mut l);
    let i4 = at(NonZero::new(32897323i64).unwrap(), p, "i4", &mut l);
    let i5 = at(NonZero::new(32897323i128).unwrap(), p, "i5", &mut l);
    let usz = at(NonZero::new(3247683283usize).unwrap(), p, "usz", &mut l);
    let u1 = at(NonZero::new(39u8).unwrap(), p, "u1", &mut l);
    let u2 = at(NonZero::new(328u16).unwrap(), p, "u2", &mut l);
    let u3 = at(NonZero::new(311900u32).unwrap(), p, "u3", &mut l);
    let u4 = at(NonZero::new(36718928u64).unwrap(), p, "u4", &mut l);
    let u5 = at(NonZero::new(111132897323u128).unwrap(), p, "u5", &mut l);

    assert_eq!(sz.get(), 122233);
    assert_eq!(i1.get(), -39);
    assert_eq!(i2.get(), -100);
    assert_eq!(i3.get(), -32393);
    assert_eq!(i4.get(), 32897323);
    assert_eq!(i5.get(), -1111384279284);
    assert_eq!(usz.get(), 3247683283);
    assert_eq!(u1.get(), 39);
    assert_eq!(u2.get(), 328);
    assert_eq!(u3.get(), 311900);
    assert_eq!(u4.get(), 1384279284);
    assert_eq!(u5.get(), 111132897323);
}

#[test]
fn duration() {
    let env = store(&[("DURATIONS_D2", "1m"), ("DURATIONS_D3", "1h")]);
    let mut l = Loader::new(&env);
    let p = "durations";

    let d1 = at(Span { secs: 100, nanos: 0 }, p, "d1", &mut l);
    let d2 = at(Span { secs: 1000, nanos: 0 }, p, "d2", &mut l);
    let d3 = at(Span { secs: 1, nanos: 0 }, p, "d3", &mut l);
    assert_eq!(d1, Span { secs: 100, nanos: 0 });
    assert_eq!(d2, Span { secs: 60, nanos: 0 });
    assert_eq!(d3, Span { secs: 3600, nanos: 0 });
}

#[test]
fn path_buf() {
    let env = store(&[("PATHS_P2", "other/path/to/file.toml"), ("PATHS_P3", "data.db")]);
    let mut l = Loader::new(&env);
    let p = "paths";

    let p1: PathBuf = "path/to/dir/".parse().unwrap();
    let p2: PathBuf = "path/to/file.toml".parse().unwrap();
    let p3: PathBuf = "file.rs".parse().unwrap();
    let p1 = l.load_and_map(p1, &child_path(p, "p1"), |s: &str| s.parse::<PathBuf>());
    let p2 = l.load_and_map(p2, &child_path(p, "p2"), |s: &str| s.parse::<PathBuf>());
    let p3 = l.load_and_map(p3, &child_path(p, "p3"), |s: &str| s.parse::<PathBuf>());
    assert_eq!(p1, "path/to/dir/".parse::<PathBuf>().unwrap());
    assert_eq!(p2, "other/path/to/file.toml".parse::<PathBuf>().unwrap());
    assert_eq!(p3, "data.db".parse::<PathBuf>().unwrap());
}

struct G<T: LoadEnv> {
    a: T,
    b: String,
}

#[test]
fn generics() {
    let env = store(&[("GENERICS_A", "33")]);
    let mut l = Loader::new(&env);

    let g = G { a: 3u32, b: "akeome".to_string() };
    let g = G { a: at(g.a, "generics", "a", &mut l), b: at(g.b, "generics", "b", &mut l) };
    assert_eq!(g.a, 33);
    assert_eq!(g.b, "akeome".to_string());
}
