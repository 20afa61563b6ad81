//! Loads typed configuration values out of a snapshot of environment variables.
//!
//! A configuration type describes its shape through [`Desenv`]; [`load`] walks that shape,
//! derives one variable name per leaf field, looks the variable up in an [`Env`], applies
//! the field's default policy and parses the text into the field's type.
use vstd::prelude::*;

pub mod attr;
pub mod configs;
pub mod env;
pub mod error;
pub mod parse;
pub mod resolve;
pub mod schema;
pub mod ty;

pub use attr::{DeriveAttributeFilter, Field, SchemaError, Struct};
pub use env::{Env, EnvValue, Lookup};
pub use error::{Error, ErrorKind};
pub use parse::FromEnvStr;
pub use ty::Type;

use attr::field::opt_text;
use env::EnvV;
use error::ErrorV;
use resolve::outcome;

verus! {

/// A configuration type that can be loaded from environment variables.
///
/// `loaded` states what loading yields when the type is entered with the prefix of its
/// enclosing structure (none for the root); `_load` computes it.
pub trait Desenv: Sized + DeepView {
    spec fn loaded(parent_prefix: Option<Seq<char>>, env: EnvV) -> Result<Self::V, ErrorV>;

    /// Loads the configuration under the given `parent_prefix`; [`load`] is the entry
    /// point for a root configuration.
    fn _load(parent_prefix: Option<String>, env: &Env) -> (r: Result<Self, Error>)
        ensures
            outcome(r) == Self::loaded(opt_text(parent_prefix), env@),
    ;
}

/// Loads all the environment variables of `env` into a configuration of type `T`.
///
/// Fails with the first error met, in declaration order: a variable that is missing with
/// no default to fall back on, a value that is not unicode text, or a text that does not
/// parse into the field's type.
pub fn load<T: Desenv>(env: &Env) -> (r: Result<T, Error>)
    ensures
        outcome(r) == T::loaded(None, env@),
{
    T::_load(None, env)
}

/// Loading reads the environment and nothing else: two loads over environments with the same
/// contents, such as one environment left unchanged between the loads, yield equal results.
pub proof fn load_is_idempotent<T: Desenv>(first: Env, second: Env)
    requires
        first@ == second@,
    ensures
        T::loaded(None, first@) == T::loaded(None, second@),
{
}

} // verus!
