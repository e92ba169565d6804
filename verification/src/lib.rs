//! Overlays values from an ambient key/value store (conventionally the process
//! environment) onto an already constructed configuration value.
//!
//! Every value that takes part has a path; the path of a field is the path of
//! its record, an underscore and the field's name. The key consulted for a
//! value is its path in upper case. A key that is absent, or whose text does
//! not convert, leaves the value as it was.

pub mod canonical;
pub mod decode;
pub mod diagnostics;
pub mod env;
pub mod laws;
pub mod leaf;
pub mod load_env;
pub mod loader;
pub mod nonzero;
pub mod parse;
pub mod span;
pub mod text;
pub mod tree;

use crate::diagnostics::{notices, Diagnostic};
pub use crate::env::Env;
pub use crate::load_env::LoadEnv;
pub use crate::loader::Loader;
use crate::loader::State;
use vstd::prelude::*;

verus! {

/// Overrides `data` from `env`, with `prefix` as the path of the root.
///
/// One loader serves the whole descent and is dropped at the end, so no key
/// is remembered from one call to the next.
pub fn load<T: LoadEnv>(data: T, prefix: &str, env: &Env) -> (r: T)
    ensures
        r.deep_view() == T::overridden(data.deep_view(), prefix@, env@),
        T::key_set(data.deep_view(), prefix@).disjoint(env@.dom()) ==> r.deep_view()
            == data.deep_view(),
{
    proof {
        if T::key_set(data.deep_view(), prefix@).disjoint(env@.dom()) {
            T::lemma_unset_keeps(data.deep_view(), prefix@, env@);
        }
    }
    let mut loader = Loader::new(env);
    data.load(prefix, &mut loader)
}

/// As [`load`], and hands back what the pass reported, oldest first.
pub fn load_reporting<T: LoadEnv>(data: T, prefix: &str, env: &Env) -> (r: (T, Vec<Diagnostic>))
    ensures
        r.0.deep_view() == T::overridden(data.deep_view(), prefix@, env@),
        notices(r.1@) == T::visited(data.deep_view(), prefix@, State::fresh(env@)).log,
{
    let mut loader = Loader::new(env);
    let data = data.load(prefix, &mut loader);
    (data, loader.into_diagnostics())
}

} // verus!
