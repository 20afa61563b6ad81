use vstd::prelude::*;

use crate::attr::field::{Field, FieldV};
use crate::attr::structure::Struct;
use crate::env::{Env, EnvV};
use crate::error::{Error, ErrorV};
use crate::resolve::{
    collection_of, current_prefix, effective_prefix, separator_of, var_name, var_name_of, var_vec,
};
use crate::Desenv;

verus! {

/// A list of flags separated by `|`.
#[derive(Debug)]
pub struct VecField {
    pub field: Vec<bool>,
}

impl DeepView for VecField {
    type V = Seq<bool>;

    open spec fn deep_view(&self) -> Seq<bool> {
        self.field.deep_view()
    }
}

impl Desenv for VecField {
    open spec fn loaded(
        parent_prefix: Option<Seq<char>>,
        env: EnvV,
    ) -> Result<Seq<bool>, ErrorV> {
        let f = FieldV {
            rename: None,
            default: None,
            separator: Some('|'),
            nested: false,
        };
        let name = var_name_of("field"@, effective_prefix(parent_prefix, None), f);
        collection_of::<bool>(env, name, f.default, separator_of(f))
    }

    fn _load(
        parent_prefix: Option<String>,
        env: &Env,
    ) -> (r: Result<VecField, Error>) {
        let s = Struct { prefix: None };
        let prefix = current_prefix(&parent_prefix, &s);
        let field = Field {
            rename: None,
            default: None,
            separator: Some('|'),
            nested: false,
        };
        let name = var_name("field", prefix.as_str(), &field);
        match var_vec::<bool>(env, name.as_str(), &field) {
            Ok(v) => Ok(VecField { field: v }),
            Err(e) => Err(e),
        }
    }
}

} // verus!
