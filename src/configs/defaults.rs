use vstd::prelude::*;

use crate::attr::field::{DefaultV, Field, FieldV};
use crate::attr::structure::Struct;
use crate::env::{Env, EnvV};
use crate::error::{Error, ErrorV};
use crate::resolve::{
    collection_of, current_prefix, effective_prefix, optional_of, scalar_of, separator_of, var,
    var_name, var_name_of, var_opt, var_vec,
};
use crate::Desenv;

verus! {

/// A text field that falls back on the empty text.
#[derive(Debug)]
pub struct AttrAsPath {
    pub field: String,
}

impl DeepView for AttrAsPath {
    type V = Seq<char>;

    open spec fn deep_view(&self) -> Seq<char> {
        self.field.deep_view()
    }
}

impl Desenv for AttrAsPath {
    open spec fn loaded(
        parent_prefix: Option<Seq<char>>,
        env: EnvV,
    ) -> Result<Seq<char>, ErrorV> {
        let f = FieldV {
            rename: None,
            default: Some(DefaultV::Std),
            separator: None,
            nested: false,
        };
        let name = var_name_of("field"@, effective_prefix(parent_prefix, None), f);
        scalar_of::<String>(env, name, f.default)
    }

    fn _load(
        parent_prefix: Option<String>,
        env: &Env,
    ) -> (r: Result<AttrAsPath, Error>) {
        let s = Struct { prefix: None };
        let prefix = current_prefix(&parent_prefix, &s);
        let field = Field {
            rename: None,
            default: Some(crate::attr::field::Default::Std),
            separator: None,
            nested: false,
        };
        let name = var_name("field", prefix.as_str(), &field);
        match var::<String>(env, name.as_str(), &field) {
            Ok(v) => Ok(AttrAsPath { field: v }),
            Err(e) => Err(e),
        }
    }
}

/// A text field that falls back on `default_value`.
#[derive(Debug)]
pub struct AttrWithValue {
    pub field: String,
}

impl DeepView for AttrWithValue {
    type V = Seq<char>;

    open spec fn deep_view(&self) -> Seq<char> {
        self.field.deep_view()
    }
}

impl Desenv for AttrWithValue {
    open spec fn loaded(
        parent_prefix: Option<Seq<char>>,
        env: EnvV,
    ) -> Result<Seq<char>, ErrorV> {
        let f = FieldV {
            rename: None,
            default: Some(DefaultV::Value("default_value"@)),
            separator: None,
            nested: false,
        };
        let name = var_name_of("field"@, effective_prefix(parent_prefix, None), f);
        scalar_of::<String>(env, name, f.default)
    }

    fn _load(
        parent_prefix: Option<String>,
        env: &Env,
    ) -> (r: Result<AttrWithValue, Error>) {
        let s = Struct { prefix: None };
        let prefix = current_prefix(&parent_prefix, &s);
        let field = Field {
            rename: None,
            default: Some(crate::attr::field::Default::Value("default_value".to_owned())),
            separator: None,
            nested: false,
        };
        let name = var_name("field", prefix.as_str(), &field);
        match var::<String>(env, name.as_str(), &field) {
            Ok(v) => Ok(AttrWithValue { field: v }),
            Err(e) => Err(e),
        }
    }
}

/// An integer field that falls back on `7`.
#[derive(Debug)]
pub struct AttrWithI32_2 {
    pub field: i32,
}

impl DeepView for AttrWithI32_2 {
    type V = i32;

    open spec fn deep_view(&self) -> i32 {
        self.field.deep_view()
    }
}

impl Desenv for AttrWithI32_2 {
    open spec fn loaded(
        parent_prefix: Option<Seq<char>>,
        env: EnvV,
    ) -> Result<i32, ErrorV> {
        let f = FieldV {
            rename: None,
            default: Some(DefaultV::Value("7"@)),
            separator: None,
            nested: false,
        };
        let name = var_name_of("field"@, effective_prefix(parent_prefix, None), f);
        scalar_of::<i32>(env, name, f.default)
    }

    fn _load(
        parent_prefix: Option<String>,
        env: &Env,
    ) -> (r: Result<AttrWithI32_2, Error>) {
        let s = Struct { prefix: None };
        let prefix = current_prefix(&parent_prefix, &s);
        let field = Field {
            rename: None,
            default: Some(crate::attr::field::Default::Value("7".to_owned())),
            separator: None,
            nested: false,
        };
        let name = var_name("field", prefix.as_str(), &field);
        match var::<i32>(env, name.as_str(), &field) {
            Ok(v) => Ok(AttrWithI32_2 { field: v }),
            Err(e) => Err(e),
        }
    }
}

/// An integer field whose fallback text `default_value` is no integer.
#[derive(Debug)]
pub struct AttrWithI32AndWrongValue {
    pub field: i32,
}

impl DeepView for AttrWithI32AndWrongValue {
    type V = i32;

    open spec fn deep_view(&self) -> i32 {
        self.field.deep_view()
    }
}

impl Desenv for AttrWithI32AndWrongValue {
    open spec fn loaded(
        parent_prefix: Option<Seq<char>>,
        env: EnvV,
    ) -> Result<i32, ErrorV> {
        let f = FieldV {
            rename: None,
            default: Some(DefaultV::Value("default_value"@)),
            separator: None,
            nested: false,
        };
        let name = var_name_of("field"@, effective_prefix(parent_prefix, None), f);
        scalar_of::<i32>(env, name, f.default)
    }

    fn _load(
        parent_prefix: Option<String>,
        env: &Env,
    ) -> (r: Result<AttrWithI32AndWrongValue, Error>) {
        let s = Struct { prefix: None };
        let prefix = current_prefix(&parent_prefix, &s);
        let field = Field {
            rename: None,
            default: Some(crate::attr::field::Default::Value("default_value".to_owned())),
            separator: None,
            nested: false,
        };
        let name = var_name("field", prefix.as_str(), &field);
        match var::<i32>(env, name.as_str(), &field) {
            Ok(v) => Ok(AttrWithI32AndWrongValue { field: v }),
            Err(e) => Err(e),
        }
    }
}

/// A text field that falls back on the variable `DEFAULT_ENV`.
#[derive(Debug)]
pub struct AttrWithEnvVar {
    pub field: String,
}

impl DeepView for AttrWithEnvVar {
    type V = Seq<char>;

    open spec fn deep_view(&self) -> Seq<char> {
        self.field.deep_view()
    }
}

impl Desenv for AttrWithEnvVar {
    open spec fn loaded(
        parent_prefix: Option<Seq<char>>,
        env: EnvV,
    ) -> Result<Seq<char>, ErrorV> {
        let f = FieldV {
            rename: None,
            default: Some(DefaultV::Env("DEFAULT_ENV"@)),
            separator: None,
            nested: false,
        };
        let name = var_name_of("field"@, effective_prefix(parent_prefix, None), f);
        scalar_of::<String>(env, name, f.default)
    }

    fn _load(
        parent_prefix: Option<String>,
        env: &Env,
    ) -> (r: Result<AttrWithEnvVar, Error>) {
        let s = Struct { prefix: None };
        let prefix = current_prefix(&parent_prefix, &s);
        let field = Field {
            rename: None,
            default: Some(crate::attr::field::Default::Env("DEFAULT_ENV".to_owned())),
            separator: None,
            nested: false,
        };
        let name = var_name("field", prefix.as_str(), &field);
        match var::<String>(env, name.as_str(), &field) {
            Ok(v) => Ok(AttrWithEnvVar { field: v }),
            Err(e) => Err(e),
        }
    }
}

/// An optional text field that falls back on `default_value`.
#[derive(Debug)]
pub struct AttrWithValueAndOptionalField {
    pub field: Option<String>,
}

impl DeepView for AttrWithValueAndOptionalField {
    type V = Option<Seq<char>>;

    open spec fn deep_view(&self) -> Option<Seq<char>> {
        self.field.deep_view()
    }
}

impl Desenv for AttrWithValueAndOptionalField {
    open spec fn loaded(
        parent_prefix: Option<Seq<char>>,
        env: EnvV,
    ) -> Result<Option<Seq<char>>, ErrorV> {
        let f = FieldV {
            rename: None,
            default: Some(DefaultV::Value("default_value"@)),
            separator: None,
            nested: false,
        };
        let name = var_name_of("field"@, effective_prefix(parent_prefix, None), f);
        optional_of::<String>(env, name, f.default)
    }

    fn _load(
        parent_prefix: Option<String>,
        env: &Env,
    ) -> (r: Result<AttrWithValueAndOptionalField, Error>) {
        let s = Struct { prefix: None };
        let prefix = current_prefix(&parent_prefix, &s);
        let field = Field {
            rename: None,
            default: Some(crate::attr::field::Default::Value("default_value".to_owned())),
            separator: None,
            nested: false,
        };
        let name = var_name("field", prefix.as_str(), &field);
        match var_opt::<String>(env, name.as_str(), &field) {
            Ok(v) => Ok(AttrWithValueAndOptionalField { field: v }),
            Err(e) => Err(e),
        }
    }
}

/// An optional text field that falls back on the variable `DEFAULT_ENV`.
#[derive(Debug)]
pub struct AttrWithEnvVarAndOptionalField {
    pub field: Option<String>,
}

impl DeepView for AttrWithEnvVarAndOptionalField {
    type V = Option<Seq<char>>;

    open spec fn deep_view(&self) -> Option<Seq<char>> {
        self.field.deep_view()
    }
}

impl Desenv for AttrWithEnvVarAndOptionalField {
    open spec fn loaded(
        parent_prefix: Option<Seq<char>>,
        env: EnvV,
    ) -> Result<Option<Seq<char>>, ErrorV> {
        let f = FieldV {
            rename: None,
            default: Some(DefaultV::Env("DEFAULT_ENV"@)),
            separator: None,
            nested: false,
        };
        let name = var_name_of("field"@, effective_prefix(parent_prefix, None), f);
        optional_of::<String>(env, name, f.default)
    }

    fn _load(
        parent_prefix: Option<String>,
        env: &Env,
    ) -> (r: Result<AttrWithEnvVarAndOptionalField, Error>) {
        let s = Struct { prefix: None };
        let prefix = current_prefix(&parent_prefix, &s);
        let field = Field {
            rename: None,
            default: Some(crate::attr::field::Default::Env("DEFAULT_ENV".to_owned())),
            separator: None,
            nested: false,
        };
        let name = var_name("field", prefix.as_str(), &field);
        match var_opt::<String>(env, name.as_str(), &field) {
            Ok(v) => Ok(AttrWithEnvVarAndOptionalField { field: v }),
            Err(e) => Err(e),
        }
    }
}

/// A list of flags that falls back on the variable `DEFAULT_ENV`.
#[derive(Debug)]
pub struct AttrWithEnvVarAndVectorField {
    pub field: Vec<bool>,
}

impl DeepView for AttrWithEnvVarAndVectorField {
    type V = Seq<bool>;

    open spec fn deep_view(&self) -> Seq<bool> {
        self.field.deep_view()
    }
}

impl Desenv for AttrWithEnvVarAndVectorField {
    open spec fn loaded(
        parent_prefix: Option<Seq<char>>,
        env: EnvV,
    ) -> Result<Seq<bool>, ErrorV> {
        let f = FieldV {
            rename: None,
            default: Some(DefaultV::Env("DEFAULT_ENV"@)),
            separator: None,
            nested: false,
        };
        let name = var_name_of("field"@, effective_prefix(parent_prefix, None), f);
        collection_of::<bool>(env, name, f.default, separator_of(f))
    }

    fn _load(
        parent_prefix: Option<String>,
        env: &Env,
    ) -> (r: Result<AttrWithEnvVarAndVectorField, Error>) {
        let s = Struct { prefix: None };
        let prefix = current_prefix(&parent_prefix, &s);
        let field = Field {
            rename: None,
            default: Some(crate::attr::field::Default::Env("DEFAULT_ENV".to_owned())),
            separator: None,
            nested: false,
        };
        let name = var_name("field", prefix.as_str(), &field);
        match var_vec::<bool>(env, name.as_str(), &field) {
            Ok(v) => Ok(AttrWithEnvVarAndVectorField { field: v }),
            Err(e) => Err(e),
        }
    }
}

/// A list of flags that falls back on `true, false`.
#[derive(Debug)]
pub struct VecField {
    pub field: Vec<bool>,
}

impl DeepView for VecField {
    type V = Seq<bool>;

    open spec fn deep_view(&self) -> Seq<bool> {
        self.field.deep_view()
    }
}

impl Desenv for VecField {
    open spec fn loaded(
        parent_prefix: Option<Seq<char>>,
        env: EnvV,
    ) -> Result<Seq<bool>, ErrorV> {
        let f = FieldV {
            rename: None,
            default: Some(DefaultV::Value("true, false"@)),
            separator: None,
            nested: false,
        };
        let name = var_name_of("field"@, effective_prefix(parent_prefix, None), f);
        collection_of::<bool>(env, name, f.default, separator_of(f))
    }

    fn _load(
        parent_prefix: Option<String>,
        env: &Env,
    ) -> (r: Result<VecField, Error>) {
        let s = Struct { prefix: None };
        let prefix = current_prefix(&parent_prefix, &s);
        let field = Field {
            rename: None,
            default: Some(crate::attr::field::Default::Value("true, false".to_owned())),
            separator: None,
            nested: false,
        };
        let name = var_name("field", prefix.as_str(), &field);
        match var_vec::<bool>(env, name.as_str(), &field) {
            Ok(v) => Ok(VecField { field: v }),
            Err(e) => Err(e),
        }
    }
}

} // verus!
