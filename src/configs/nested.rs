use vstd::prelude::*;

use crate::attr::field::{Field, FieldV};
use crate::attr::structure::Struct;
use crate::env::{Env, EnvV};
use crate::error::{Error, ErrorV};
use crate::resolve::{current_prefix, effective_prefix, scalar_of, var, var_name, var_name_of};
use crate::Desenv;

verus! {

/// A nested structure with no prefix.
#[derive(Debug)]
pub struct CustomNestedField {
    pub field: Nested,
}

impl DeepView for CustomNestedField {
    type V = <Nested as DeepView>::V;

    open spec fn deep_view(&self) -> <Nested as DeepView>::V {
        self.field.deep_view()
    }
}

impl Desenv for CustomNestedField {
    open spec fn loaded(
        parent_prefix: Option<Seq<char>>,
        env: EnvV,
    ) -> Result<<Nested as DeepView>::V, ErrorV> {
        Nested::loaded(Some(effective_prefix(parent_prefix, None)), env)
    }

    fn _load(
        parent_prefix: Option<String>,
        env: &Env,
    ) -> (r: Result<CustomNestedField, Error>) {
        let s = Struct { prefix: None };
        let prefix = current_prefix(&parent_prefix, &s);
        match Nested::_load(Some(prefix), env) {
            Ok(v) => Ok(CustomNestedField { field: v }),
            Err(e) => Err(e),
        }
    }
}

/// An integer field, nested in [`CustomNestedField`].
#[derive(Debug)]
pub struct Nested {
    pub field: i32,
}

impl DeepView for Nested {
    type V = i32;

    open spec fn deep_view(&self) -> i32 {
        self.field.deep_view()
    }
}

impl Desenv for Nested {
    open spec fn loaded(
        parent_prefix: Option<Seq<char>>,
        env: EnvV,
    ) -> Result<i32, ErrorV> {
        let f = FieldV {
            rename: None,
            default: None,
            separator: None,
            nested: false,
        };
        let name = var_name_of("field"@, effective_prefix(parent_prefix, None), f);
        scalar_of::<i32>(env, name, f.default)
    }

    fn _load(
        parent_prefix: Option<String>,
        env: &Env,
    ) -> (r: Result<Nested, Error>) {
        let s = Struct { prefix: None };
        let prefix = current_prefix(&parent_prefix, &s);
        let field = Field {
            rename: None,
            default: None,
            separator: None,
            nested: false,
        };
        let name = var_name("field", prefix.as_str(), &field);
        match var::<i32>(env, name.as_str(), &field) {
            Ok(v) => Ok(Nested { field: v }),
            Err(e) => Err(e),
        }
    }
}

} // verus!
