use vstd::prelude::*;

use crate::attr::field::{Field, FieldV};
use crate::attr::structure::Struct;
use crate::env::{Env, EnvV};
use crate::error::{Error, ErrorV};
use crate::resolve::{current_prefix, effective_prefix, scalar_of, var, var_name, var_name_of};
use crate::Desenv;

verus! {

/// A text field read from the variable `rename_field`.
#[derive(Debug)]
pub struct Simple {
    pub field: String,
}

impl DeepView for Simple {
    type V = Seq<char>;

    open spec fn deep_view(&self) -> Seq<char> {
        self.field.deep_view()
    }
}

impl Desenv for Simple {
    open spec fn loaded(
        parent_prefix: Option<Seq<char>>,
        env: EnvV,
    ) -> Result<Seq<char>, ErrorV> {
        let f = FieldV {
            rename: Some("rename_field"@),
            default: None,
            separator: None,
            nested: false,
        };
        let name = var_name_of("field"@, effective_prefix(parent_prefix, None), f);
        scalar_of::<String>(env, name, f.default)
    }

    fn _load(
        parent_prefix: Option<String>,
        env: &Env,
    ) -> (r: Result<Simple, Error>) {
        let s = Struct { prefix: None };
        let prefix = current_prefix(&parent_prefix, &s);
        let field = Field {
            rename: Some("rename_field".to_owned()),
            default: None,
            separator: None,
            nested: false,
        };
        let name = var_name("field", prefix.as_str(), &field);
        match var::<String>(env, name.as_str(), &field) {
            Ok(v) => Ok(Simple { field: v }),
            Err(e) => Err(e),
        }
    }
}

} // verus!
