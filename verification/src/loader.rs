//! The loader: the set of keys consulted so far, the store that is read, and
//! the diagnostics of one load pass.

use crate::diagnostics::{notices, Diagnostic, Event, Notice};
use crate::decode::FromYaml;
use crate::env::Env;
use crate::parse::FromText;
use crate::text::{key_of, to_upper};
use vstd::hash_set::StringHashSet;
use vstd::prelude::*;
use vstd::string::StringExecFns;

verus! {

/// The mathematical state of a [`Loader`].
pub struct State {
    /// The store that is read.
    pub env: Map<Seq<char>, Seq<char>>,
    /// The keys consulted so far.
    pub names: Set<Seq<char>>,
    /// The diagnostics so far, oldest first.
    pub log: Seq<Notice>,
}

/// The text that the store holds for a value at `path`: the one under the
/// upper-case form of the path.
pub open spec fn found(env: Map<Seq<char>, Seq<char>>, path: Seq<char>) -> Option<Seq<char>> {
    if env.contains_key(key_of(path)) {
        Some(env[key_of(path)])
    } else {
        None
    }
}

/// The diagnostic of one lookup.
pub open spec fn lookup_notice(key: Seq<char>, text: Option<Seq<char>>, converts: bool) -> Notice {
    match text {
        None => Notice { event: Event::NotFound, key, text: Seq::empty() },
        Some(t) => if converts {
            Notice { event: Event::Found, key, text: t }
        } else {
            Notice { event: Event::ParseFailure, key, text: t }
        },
    }
}

/// What an override attempt yields: the converted value where a text was found
/// and converted, the previous value in every other case.
pub open spec fn spec_attempt<T, E>(fallback: T, outcome: Option<Result<T, E>>) -> T {
    match outcome {
        Some(Ok(v)) => v,
        _ => fallback,
    }
}

impl State {
    /// The state at the start of a pass over `env`.
    pub open spec fn fresh(env: Map<Seq<char>, Seq<char>>) -> State {
        State { env, names: Set::empty(), log: Seq::empty() }
    }

    /// Whether the key of `path` was consulted before.
    pub open spec fn seen(self, path: Seq<char>) -> bool {
        self.names.contains(key_of(path))
    }

    /// The state after the key of `path` was registered.
    pub open spec fn registered(self, path: Seq<char>) -> State {
        State { names: self.names.insert(key_of(path)), ..self }
    }

    /// The state after the key of `path` was registered and, where it had been
    /// consulted before, the warning was recorded.
    pub open spec fn warned(self, path: Seq<char>) -> State {
        State {
            log: if self.seen(path) {
                self.log.push(
                    Notice { event: Event::Ambiguous, key: key_of(path), text: Seq::empty() },
                )
            } else {
                self.log
            },
            ..self.registered(path)
        }
    }

    /// The state after a complete lookup at `path`: registration, the warning
    /// if the key is ambiguous, and the diagnostic of the lookup itself.
    pub open spec fn consulted(self, path: Seq<char>, converts: bool) -> State {
        State {
            log: self.warned(path).log.push(
                lookup_notice(key_of(path), found(self.env, path), converts),
            ),
            ..self.warned(path)
        }
    }

    /// The state after one more diagnostic.
    pub open spec fn noted(self, notice: Notice) -> State {
        State { log: self.log.push(notice), ..self }
    }
}

/// Loads and converts texts of the store, and keeps track of the keys it has
/// been asked for.
pub struct Loader<'a> {
    env: &'a Env,
    names: StringHashSet,
    log: Vec<Diagnostic>,
}

impl<'a> View for Loader<'a> {
    type V = State;

    closed spec fn view(&self) -> State {
        State { env: self.env@, names: self.names@, log: notices(self.log@) }
    }
}

/// The value of a leaf after an override attempt with the scalar strategy.
pub open spec fn scalar_value<T: FromText>(fallback: T::V, text: Option<Seq<char>>) -> T::V {
    match text {
        Some(t) => match T::parsed(t) {
            Some(v) => v,
            None => fallback,
        },
        None => fallback,
    }
}

/// Whether a text was found and converts with the scalar strategy.
pub open spec fn scalar_converts<T: FromText>(text: Option<Seq<char>>) -> bool {
    match text {
        Some(t) => T::parsed(t) is Some,
        None => false,
    }
}

/// The value of a container after an override attempt with the structured
/// strategy: the whole container is replaced, or kept.
pub open spec fn structured_value<T: FromYaml>(fallback: T::V, text: Option<Seq<char>>) -> T::V {
    match text {
        Some(t) => match T::decoded(t) {
            Some(v) => v,
            None => fallback,
        },
        None => fallback,
    }
}

/// Whether a text was found and decodes with the structured strategy.
pub open spec fn structured_converts<T: FromYaml>(text: Option<Seq<char>>) -> bool {
    match text {
        Some(t) => T::decoded(t) is Some,
        None => false,
    }
}

/// Decides an override attempt: `outcome` is `None` where the key was absent,
/// else the result of converting the text found.
pub fn attempt<T, E>(fallback: T, outcome: Option<Result<T, E>>) -> (r: T)
    ensures
        r == spec_attempt(fallback, outcome),
{
    match outcome {
        Some(Ok(v)) => v,
        _ => fallback,
    }
}

impl<'a> Loader<'a> {
    /// A loader for one pass over `env`: no key consulted, no diagnostic.
    pub fn new(env: &'a Env) -> (r: Self)
        ensures
            r@ == State::fresh(env@),
    {
        let r = Loader { env, names: StringHashSet::new(), log: Vec::new() };
        assert(r@.log =~= Seq::<Notice>::empty());
        r
    }

    /// The diagnostics recorded so far, oldest first.
    pub fn diagnostics(&self) -> (r: &Vec<Diagnostic>)
        ensures
            notices(r@) == self@.log,
    {
        &self.log
    }

    /// Ends the pass and hands over its diagnostics, oldest first.
    pub fn into_diagnostics(self) -> (r: Vec<Diagnostic>)
        ensures
            notices(r@) == self@.log,
    {
        self.log
    }

    /// The store that this loader reads.
    pub fn env(&self) -> (r: &'a Env)
        ensures
            r@ == self@.env,
    {
        self.env
    }

    fn note(&mut self, event: Event, key: String, text: String)
        ensures
            final(self)@ == old(self)@.noted(Notice { event, key: key@, text: text@ }),
    {
        let d = Diagnostic { event, key, text };
        self.log.push(d);
        assert(self@.log =~= old(self)@.log.push(d@));
    }

    fn register(&mut self, key: String) -> (r: bool)
        ensures
            r == old(self)@.names.contains(key@),
            final(self)@ == (State { names: old(self)@.names.insert(key@), ..old(self)@ }),
    {
        !self.names.insert(key)
    }

    /// Records that `text`, found for the enumeration at `path`, names none
    /// of its variants.
    pub fn report_unknown_variant(&mut self, path: &str, text: String)
        ensures
            final(self)@ == old(self)@.noted(
                Notice { event: Event::UnknownVariant, key: key_of(path@), text: text@ },
            ),
    {
        self.note(Event::UnknownVariant, to_upper(path), text);
    }

    /// Registers the upper-case form of `name` and tells whether it had been
    /// registered before. A repeated name does not stop anything: it is the
    /// caller's to report, and the lookup goes on.
    pub fn is_duplicated(&mut self, name: &str) -> (r: bool)
        ensures
            r == old(self)@.seen(name@),
            final(self)@ == old(self)@.registered(name@),
            r ==> final(self)@ == old(self)@,
    {
        let r = self.register(to_upper(name));
        proof {
            if r {
                assert(old(self)@.names.insert(key_of(name@)) =~= old(self)@.names);
            }
        }
        r
    }

    /// Looks `name` up in upper case and converts the text found with `map`.
    ///
    /// The key is registered first, with a warning where it is ambiguous.
    /// Where the key is absent or `map` fails, the result is `fallback`.
    pub fn load_and_map<T, E, F: FnOnce(&str) -> Result<T, E>>(
        &mut self,
        fallback: T,
        name: &str,
        map: F,
    ) -> (r: T)
        requires
            forall|text: &str| found(old(self)@.env, name@) == Some(text@) ==> map.requires((text,)),
        ensures
            final(self)@.env == old(self)@.env,
            final(self)@.names == old(self)@.names.insert(key_of(name@)),
            match found(old(self)@.env, name@) {
                None => r == fallback && final(self)@ == old(self)@.consulted(name@, false),
                Some(t) => exists|text: &str, out: Result<T, E>|
                    text@ == t && map.ensures((text,), out) && r == spec_attempt(fallback, Some(out))
                        && final(self)@ == old(self)@.consulted(name@, out is Ok),
            },
    {
        let key = to_upper(name);
        if self.register(key.clone()) {
            self.note(Event::Ambiguous, key.clone(), String::new());
        }
        assert(self@ == old(self)@.warned(name@));
        let outcome = match self.env.get(key.as_str()) {
            Some(text) => {
                let out = map(text);
                Some((String::from_str(text), out))
            },
            None => None,
        };
        match outcome {
            Some((raw, out)) => {
                match out {
                    Ok(_) => self.note(Event::Found, key, raw),
                    Err(_) => self.note(Event::ParseFailure, key, raw),
                }
                attempt(fallback, Some(out))
            },
            None => {
                self.note(Event::NotFound, key, String::new());
                fallback
            },
        }
    }

    /// Looks `name` up in upper case and converts the text found as a scalar.
    /// Where the key is absent or the text does not convert, the result is
    /// `fallback`.
    pub fn load_from_str<T: FromText>(&mut self, fallback: T, name: &str) -> (r: T)
        ensures
            r.deep_view() == scalar_value::<T>(
                fallback.deep_view(),
                found(old(self)@.env, name@),
            ),
            final(self)@ == old(self)@.consulted(
                name@,
                scalar_converts::<T>(found(old(self)@.env, name@)),
            ),
    {
        let convert = |text: &str| -> (out: Result<T, ()>)
            ensures
                (match out {
                    Ok(v) => Some(v),
                    Err(_) => None,
                }).deep_view() == T::parsed(text@),
            {
                match T::from_text(text) {
                    Some(v) => Ok(v),
                    None => Err(()),
                }
            };
        self.load_and_map(fallback, name, convert)
    }

    /// Looks `name` up in upper case and decodes the text found as one YAML
    /// document. Where the key is absent or the text does not decode, the
    /// result is `fallback`.
    pub fn load_from_yaml<T: FromYaml>(&mut self, fallback: T, name: &str) -> (r: T)
        ensures
            r.deep_view() == structured_value::<T>(
                fallback.deep_view(),
                found(old(self)@.env, name@),
            ),
            final(self)@ == old(self)@.consulted(
                name@,
                structured_converts::<T>(found(old(self)@.env, name@)),
            ),
    {
        let convert = |text: &str| -> (out: Result<T, ()>)
            ensures
                (match out {
                    Ok(v) => Some(v),
                    Err(_) => None,
                }).deep_view() == T::decoded(text@),
            {
                match T::from_yaml(text) {
                    Some(v) => Ok(v),
                    None => Err(()),
                }
            };
        self.load_and_map(fallback, name, convert)
    }
}

} // verus!
