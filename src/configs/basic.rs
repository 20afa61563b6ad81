use vstd::prelude::*;

use crate::attr::field::{Field, FieldV};
use crate::attr::structure::Struct;
use crate::env::{Env, EnvV};
use crate::error::{Error, ErrorV};
use crate::resolve::{
    collection_of, current_prefix, effective_prefix, optional_of, scalar_of, separator_of, var,
    var_name, var_name_of, var_opt, var_vec,
};
use crate::Desenv;

verus! {

/// A text field read from `FIELD`.
#[derive(Debug)]
pub struct Config {
    pub field: String,
}

impl DeepView for Config {
    type V = Seq<char>;

    open spec fn deep_view(&self) -> Seq<char> {
        self.field.deep_view()
    }
}

impl Desenv for Config {
    open spec fn loaded(
        parent_prefix: Option<Seq<char>>,
        env: EnvV,
    ) -> Result<Seq<char>, ErrorV> {
        let f = FieldV {
            rename: None,
            default: None,
            separator: None,
            nested: false,
        };
        let name = var_name_of("field"@, effective_prefix(parent_prefix, None), f);
        scalar_of::<String>(env, name, f.default)
    }

    fn _load(
        parent_prefix: Option<String>,
        env: &Env,
    ) -> (r: Result<Config, Error>) {
        let s = Struct { prefix: None };
        let prefix = current_prefix(&parent_prefix, &s);
        let field = Field {
            rename: None,
            default: None,
            separator: None,
            nested: false,
        };
        let name = var_name("field", prefix.as_str(), &field);
        match var::<String>(env, name.as_str(), &field) {
            Ok(v) => Ok(Config { field: v }),
            Err(e) => Err(e),
        }
    }
}

/// An integer field read from `FIELD`.
#[derive(Debug)]
pub struct Config2 {
    pub field: i32,
}

impl DeepView for Config2 {
    type V = i32;

    open spec fn deep_view(&self) -> i32 {
        self.field.deep_view()
    }
}

impl Desenv for Config2 {
    open spec fn loaded(
        parent_prefix: Option<Seq<char>>,
        env: EnvV,
    ) -> Result<i32, ErrorV> {
        let f = FieldV {
            rename: None,
            default: None,
            separator: None,
            nested: false,
        };
        let name = var_name_of("field"@, effective_prefix(parent_prefix, None), f);
        scalar_of::<i32>(env, name, f.default)
    }

    fn _load(
        parent_prefix: Option<String>,
        env: &Env,
    ) -> (r: Result<Config2, Error>) {
        let s = Struct { prefix: None };
        let prefix = current_prefix(&parent_prefix, &s);
        let field = Field {
            rename: None,
            default: None,
            separator: None,
            nested: false,
        };
        let name = var_name("field", prefix.as_str(), &field);
        match var::<i32>(env, name.as_str(), &field) {
            Ok(v) => Ok(Config2 { field: v }),
            Err(e) => Err(e),
        }
    }
}

/// An integer field under the prefix `PREFIX_`.
#[derive(Debug)]
pub struct Config3 {
    pub field: i32,
}

impl DeepView for Config3 {
    type V = i32;

    open spec fn deep_view(&self) -> i32 {
        self.field.deep_view()
    }
}

impl Desenv for Config3 {
    open spec fn loaded(
        parent_prefix: Option<Seq<char>>,
        env: EnvV,
    ) -> Result<i32, ErrorV> {
        let f = FieldV {
            rename: None,
            default: None,
            separator: None,
            nested: false,
        };
        let name = var_name_of("field"@, effective_prefix(parent_prefix, Some("PREFIX_"@)), f);
        scalar_of::<i32>(env, name, f.default)
    }

    fn _load(
        parent_prefix: Option<String>,
        env: &Env,
    ) -> (r: Result<Config3, Error>) {
        let s = Struct { prefix: Some("PREFIX_".to_owned()) };
        let prefix = current_prefix(&parent_prefix, &s);
        let field = Field {
            rename: None,
            default: None,
            separator: None,
            nested: false,
        };
        let name = var_name("field", prefix.as_str(), &field);
        match var::<i32>(env, name.as_str(), &field) {
            Ok(v) => Ok(Config3 { field: v }),
            Err(e) => Err(e),
        }
    }
}

/// A nested structure under the prefix `PREFIX_`.
#[derive(Debug)]
pub struct Config4 {
    pub field: Nested4,
}

impl DeepView for Config4 {
    type V = <Nested4 as DeepView>::V;

    open spec fn deep_view(&self) -> <Nested4 as DeepView>::V {
        self.field.deep_view()
    }
}

impl Desenv for Config4 {
    open spec fn loaded(
        parent_prefix: Option<Seq<char>>,
        env: EnvV,
    ) -> Result<<Nested4 as DeepView>::V, ErrorV> {
        Nested4::loaded(Some(effective_prefix(parent_prefix, Some("PREFIX_"@))), env)
    }

    fn _load(
        parent_prefix: Option<String>,
        env: &Env,
    ) -> (r: Result<Config4, Error>) {
        let s = Struct { prefix: Some("PREFIX_".to_owned()) };
        let prefix = current_prefix(&parent_prefix, &s);
        match Nested4::_load(Some(prefix), env) {
            Ok(v) => Ok(Config4 { field: v }),
            Err(e) => Err(e),
        }
    }
}

/// A text field, nested in [`Config4`].
#[derive(Debug)]
pub struct Nested4 {
    pub field: String,
}

impl DeepView for Nested4 {
    type V = Seq<char>;

    open spec fn deep_view(&self) -> Seq<char> {
        self.field.deep_view()
    }
}

impl Desenv for Nested4 {
    open spec fn loaded(
        parent_prefix: Option<Seq<char>>,
        env: EnvV,
    ) -> Result<Seq<char>, ErrorV> {
        let f = FieldV {
            rename: None,
            default: None,
            separator: None,
            nested: false,
        };
        let name = var_name_of("field"@, effective_prefix(parent_prefix, None), f);
        scalar_of::<String>(env, name, f.default)
    }

    fn _load(
        parent_prefix: Option<String>,
        env: &Env,
    ) -> (r: Result<Nested4, Error>) {
        let s = Struct { prefix: None };
        let prefix = current_prefix(&parent_prefix, &s);
        let field = Field {
            rename: None,
            default: None,
            separator: None,
            nested: false,
        };
        let name = var_name("field", prefix.as_str(), &field);
        match var::<String>(env, name.as_str(), &field) {
            Ok(v) => Ok(Nested4 { field: v }),
            Err(e) => Err(e),
        }
    }
}

/// An optional text field.
#[derive(Debug)]
pub struct Config5 {
    pub field: Option<String>,
}

impl DeepView for Config5 {
    type V = Option<Seq<char>>;

    open spec fn deep_view(&self) -> Option<Seq<char>> {
        self.field.deep_view()
    }
}

impl Desenv for Config5 {
    open spec fn loaded(
        parent_prefix: Option<Seq<char>>,
        env: EnvV,
    ) -> Result<Option<Seq<char>>, ErrorV> {
        let f = FieldV {
            rename: None,
            default: None,
            separator: None,
            nested: false,
        };
        let name = var_name_of("field"@, effective_prefix(parent_prefix, None), f);
        optional_of::<String>(env, name, f.default)
    }

    fn _load(
        parent_prefix: Option<String>,
        env: &Env,
    ) -> (r: Result<Config5, Error>) {
        let s = Struct { prefix: None };
        let prefix = current_prefix(&parent_prefix, &s);
        let field = Field {
            rename: None,
            default: None,
            separator: None,
            nested: false,
        };
        let name = var_name("field", prefix.as_str(), &field);
        match var_opt::<String>(env, name.as_str(), &field) {
            Ok(v) => Ok(Config5 { field: v }),
            Err(e) => Err(e),
        }
    }
}

/// A list of texts.
#[derive(Debug)]
pub struct Config6 {
    pub field: Vec<String>,
}

impl DeepView for Config6 {
    type V = Seq<Seq<char>>;

    open spec fn deep_view(&self) -> Seq<Seq<char>> {
        self.field.deep_view()
    }
}

impl Desenv for Config6 {
    open spec fn loaded(
        parent_prefix: Option<Seq<char>>,
        env: EnvV,
    ) -> Result<Seq<Seq<char>>, ErrorV> {
        let f = FieldV {
            rename: None,
            default: None,
            separator: None,
            nested: false,
        };
        let name = var_name_of("field"@, effective_prefix(parent_prefix, None), f);
        collection_of::<String>(env, name, f.default, separator_of(f))
    }

    fn _load(
        parent_prefix: Option<String>,
        env: &Env,
    ) -> (r: Result<Config6, Error>) {
        let s = Struct { prefix: None };
        let prefix = current_prefix(&parent_prefix, &s);
        let field = Field {
            rename: None,
            default: None,
            separator: None,
            nested: false,
        };
        let name = var_name("field", prefix.as_str(), &field);
        match var_vec::<String>(env, name.as_str(), &field) {
            Ok(v) => Ok(Config6 { field: v }),
            Err(e) => Err(e),
        }
    }
}

} // verus!
