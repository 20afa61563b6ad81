use vstd::prelude::*;

use crate::attr::field::{Field, FieldV};
use crate::attr::structure::Struct;
use crate::env::{Env, EnvV};
use crate::error::{Error, ErrorV};
use crate::resolve::{current_prefix, effective_prefix, scalar_of, var, var_name, var_name_of};
use crate::Desenv;

verus! {

/// A nested structure that carries its own prefix.
#[derive(Debug)]
pub struct CustomNestedPrefixedField {
    pub field: NestedPrefixed,
}

impl DeepView for CustomNestedPrefixedField {
    type V = <NestedPrefixed as DeepView>::V;

    open spec fn deep_view(&self) -> <NestedPrefixed as DeepView>::V {
        self.field.deep_view()
    }
}

impl Desenv for CustomNestedPrefixedField {
    open spec fn loaded(
        parent_prefix: Option<Seq<char>>,
        env: EnvV,
    ) -> Result<<NestedPrefixed as DeepView>::V, ErrorV> {
        NestedPrefixed::loaded(Some(effective_prefix(parent_prefix, None)), env)
    }

    fn _load(
        parent_prefix: Option<String>,
        env: &Env,
    ) -> (r: Result<CustomNestedPrefixedField, Error>) {
        let s = Struct { prefix: None };
        let prefix = current_prefix(&parent_prefix, &s);
        match NestedPrefixed::_load(Some(prefix), env) {
            Ok(v) => Ok(CustomNestedPrefixedField { field: v }),
            Err(e) => Err(e),
        }
    }
}

/// An integer field under the prefix `PREFIX_`.
#[derive(Debug)]
pub struct NestedPrefixed {
    pub field: i32,
}

impl DeepView for NestedPrefixed {
    type V = i32;

    open spec fn deep_view(&self) -> i32 {
        self.field.deep_view()
    }
}

impl Desenv for NestedPrefixed {
    open spec fn loaded(
        parent_prefix: Option<Seq<char>>,
        env: EnvV,
    ) -> Result<i32, ErrorV> {
        let f = FieldV {
            rename: None,
            default: None,
            separator: None,
            nested: false,
        };
        let name = var_name_of("field"@, effective_prefix(parent_prefix, Some("PREFIX_"@)), f);
        scalar_of::<i32>(env, name, f.default)
    }

    fn _load(
        parent_prefix: Option<String>,
        env: &Env,
    ) -> (r: Result<NestedPrefixed, Error>) {
        let s = Struct { prefix: Some("PREFIX_".to_owned()) };
        let prefix = current_prefix(&parent_prefix, &s);
        let field = Field {
            rename: None,
            default: None,
            separator: None,
            nested: false,
        };
        let name = var_name("field", prefix.as_str(), &field);
        match var::<i32>(env, name.as_str(), &field) {
            Ok(v) => Ok(NestedPrefixed { field: v }),
            Err(e) => Err(e),
        }
    }
}

/// A structure under the prefix `PARENT_` holding a prefixed nested structure.
#[derive(Debug)]
pub struct PrefixedConfigWithNestedPrefixedField {
    pub field: NestedPrefixed,
}

impl DeepView for PrefixedConfigWithNestedPrefixedField {
    type V = <NestedPrefixed as DeepView>::V;

    open spec fn deep_view(&self) -> <NestedPrefixed as DeepView>::V {
        self.field.deep_view()
    }
}

impl Desenv for PrefixedConfigWithNestedPrefixedField {
    open spec fn loaded(
        parent_prefix: Option<Seq<char>>,
        env: EnvV,
    ) -> Result<<NestedPrefixed as DeepView>::V, ErrorV> {
        NestedPrefixed::loaded(Some(effective_prefix(parent_prefix, Some("PARENT_"@))), env)
    }

    fn _load(
        parent_prefix: Option<String>,
        env: &Env,
    ) -> (r: Result<PrefixedConfigWithNestedPrefixedField, Error>) {
        let s = Struct { prefix: Some("PARENT_".to_owned()) };
        let prefix = current_prefix(&parent_prefix, &s);
        match NestedPrefixed::_load(Some(prefix), env) {
            Ok(v) => Ok(PrefixedConfigWithNestedPrefixedField { field: v }),
            Err(e) => Err(e),
        }
    }
}

} // verus!
