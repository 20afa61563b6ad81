use vstd::prelude::*;

use crate::attr::field::{Field, FieldV};
use crate::attr::structure::Struct;
use crate::env::{Env, EnvV};
use crate::error::{Error, ErrorV};
use crate::resolve::{
    collection_of, current_prefix, effective_prefix, optional_of, raw_of, scalar_of, separator_of,
    var, var_name, var_name_of, var_opt, var_os, var_vec,
};
use crate::parse::FromEnvStr;
use crate::Desenv;

verus! {

/// A text field with no modifier.
#[derive(Debug)]
pub struct SimpleString {
    pub field: String,
}

impl DeepView for SimpleString {
    type V = Seq<char>;

    open spec fn deep_view(&self) -> Seq<char> {
        self.field.deep_view()
    }
}

impl Desenv for SimpleString {
    open spec fn loaded(
        parent_prefix: Option<Seq<char>>,
        env: EnvV,
    ) -> Result<Seq<char>, ErrorV> {
        let f = FieldV {
            rename: None,
            default: None,
            separator: None,
            nested: false,
        };
        let name = var_name_of("field"@, effective_prefix(parent_prefix, None), f);
        scalar_of::<String>(env, name, f.default)
    }

    fn _load(
        parent_prefix: Option<String>,
        env: &Env,
    ) -> (r: Result<SimpleString, Error>) {
        let s = Struct { prefix: None };
        let prefix = current_prefix(&parent_prefix, &s);
        let field = Field {
            rename: None,
            default: None,
            separator: None,
            nested: false,
        };
        let name = var_name("field", prefix.as_str(), &field);
        match var::<String>(env, name.as_str(), &field) {
            Ok(v) => Ok(SimpleString { field: v }),
            Err(e) => Err(e),
        }
    }
}

/// A field that takes the raw bytes of its variable.
#[derive(Debug)]
pub struct SimpleOsString {
    pub field: Vec<u8>,
}

impl DeepView for SimpleOsString {
    type V = Seq<u8>;

    open spec fn deep_view(&self) -> Seq<u8> {
        self.field@
    }
}

impl Desenv for SimpleOsString {
    open spec fn loaded(
        parent_prefix: Option<Seq<char>>,
        env: EnvV,
    ) -> Result<Seq<u8>, ErrorV> {
        let f = FieldV {
            rename: None,
            default: None,
            separator: None,
            nested: false,
        };
        let name = var_name_of("field"@, effective_prefix(parent_prefix, None), f);
        raw_of(env, name)
    }

    fn _load(
        parent_prefix: Option<String>,
        env: &Env,
    ) -> (r: Result<SimpleOsString, Error>) {
        let s = Struct { prefix: None };
        let prefix = current_prefix(&parent_prefix, &s);
        let field = Field {
            rename: None,
            default: None,
            separator: None,
            nested: false,
        };
        let name = var_name("field", prefix.as_str(), &field);
        match var_os(env, name.as_str()) {
            Ok(v) => Ok(SimpleOsString { field: v }),
            Err(e) => Err(e),
        }
    }
}

/// A flag.
#[derive(Debug)]
pub struct ConfigWithBool {
    pub field: bool,
}

impl DeepView for ConfigWithBool {
    type V = bool;

    open spec fn deep_view(&self) -> bool {
        self.field.deep_view()
    }
}

impl Desenv for ConfigWithBool {
    open spec fn loaded(
        parent_prefix: Option<Seq<char>>,
        env: EnvV,
    ) -> Result<bool, ErrorV> {
        let f = FieldV {
            rename: None,
            default: None,
            separator: None,
            nested: false,
        };
        let name = var_name_of("field"@, effective_prefix(parent_prefix, None), f);
        scalar_of::<bool>(env, name, f.default)
    }

    fn _load(
        parent_prefix: Option<String>,
        env: &Env,
    ) -> (r: Result<ConfigWithBool, Error>) {
        let s = Struct { prefix: None };
        let prefix = current_prefix(&parent_prefix, &s);
        let field = Field {
            rename: None,
            default: None,
            separator: None,
            nested: false,
        };
        let name = var_name("field", prefix.as_str(), &field);
        match var::<bool>(env, name.as_str(), &field) {
            Ok(v) => Ok(ConfigWithBool { field: v }),
            Err(e) => Err(e),
        }
    }
}

/// An optional flag.
#[derive(Debug)]
pub struct OptionalField {
    pub field: Option<bool>,
}

impl DeepView for OptionalField {
    type V = Option<bool>;

    open spec fn deep_view(&self) -> Option<bool> {
        self.field.deep_view()
    }
}

impl Desenv for OptionalField {
    open spec fn loaded(
        parent_prefix: Option<Seq<char>>,
        env: EnvV,
    ) -> Result<Option<bool>, ErrorV> {
        let f = FieldV {
            rename: None,
            default: None,
            separator: None,
            nested: false,
        };
        let name = var_name_of("field"@, effective_prefix(parent_prefix, None), f);
        optional_of::<bool>(env, name, f.default)
    }

    fn _load(
        parent_prefix: Option<String>,
        env: &Env,
    ) -> (r: Result<OptionalField, Error>) {
        let s = Struct { prefix: None };
        let prefix = current_prefix(&parent_prefix, &s);
        let field = Field {
            rename: None,
            default: None,
            separator: None,
            nested: false,
        };
        let name = var_name("field", prefix.as_str(), &field);
        match var_opt::<bool>(env, name.as_str(), &field) {
            Ok(v) => Ok(OptionalField { field: v }),
            Err(e) => Err(e),
        }
    }
}

/// A list of flags separated by commas.
#[derive(Debug)]
pub struct VecField {
    pub field: Vec<bool>,
}

impl DeepView for VecField {
    type V = Seq<bool>;

    open spec fn deep_view(&self) -> Seq<bool> {
        self.field.deep_view()
    }
}

impl Desenv for VecField {
    open spec fn loaded(
        parent_prefix: Option<Seq<char>>,
        env: EnvV,
    ) -> Result<Seq<bool>, ErrorV> {
        let f = FieldV {
            rename: None,
            default: None,
            separator: None,
            nested: false,
        };
        let name = var_name_of("field"@, effective_prefix(parent_prefix, None), f);
        collection_of::<bool>(env, name, f.default, separator_of(f))
    }

    fn _load(
        parent_prefix: Option<String>,
        env: &Env,
    ) -> (r: Result<VecField, Error>) {
        let s = Struct { prefix: None };
        let prefix = current_prefix(&parent_prefix, &s);
        let field = Field {
            rename: None,
            default: None,
            separator: None,
            nested: false,
        };
        let name = var_name("field", prefix.as_str(), &field);
        match var_vec::<bool>(env, name.as_str(), &field) {
            Ok(v) => Ok(VecField { field: v }),
            Err(e) => Err(e),
        }
    }
}

/// A user type with its own parser.
#[derive(Clone, Copy, Debug, PartialEq, Eq, Structural)]
pub enum TestEnum {
    Val1,
    Val2,
}

impl DeepView for TestEnum {
    type V = TestEnum;

    open spec fn deep_view(&self) -> TestEnum {
        *self
    }
}

impl TestEnum {
    /// Reads `val_1` or `val_2`; any other text is refused with a custom error.
    pub fn from_str(s: &str) -> (r: Result<TestEnum, Error>)
        ensures
            match <TestEnum as FromEnvStr>::parse_spec(s@) {
                Ok(v) => r == Ok::<TestEnum, Error>(v),
                Err(m) => r matches Err(e) && e@ == ErrorV::Custom(m),
            },
    {
        let t = s.to_owned();
        if t == "val_1".to_owned() {
            Ok(TestEnum::Val1)
        } else if t == "val_2".to_owned() {
            Ok(TestEnum::Val2)
        } else {
            let mut m = "invalid value ".to_owned();
            m.append(s);
            Err(Error::Custom(m))
        }
    }
}

impl FromEnvStr for TestEnum {
    open spec fn parse_spec(s: Seq<char>) -> Result<TestEnum, Seq<char>> {
        if s == "val_1"@ {
            Ok(TestEnum::Val1)
        } else if s == "val_2"@ {
            Ok(TestEnum::Val2)
        } else {
            Err("invalid value "@ + s)
        }
    }

    open spec fn zero_spec() -> TestEnum {
        TestEnum::Val1
    }

    fn parse_env(s: &str) -> (r: Result<TestEnum, String>) {
        match TestEnum::from_str(s) {
            Ok(v) => Ok(v),
            Err(e) => Err(e.message()),
        }
    }

    fn zero() -> (r: TestEnum) {
        TestEnum::Val1
    }
}



/// A field of a user type.
#[derive(Debug)]
pub struct CustomEnumField {
    pub field: TestEnum,
}

impl DeepView for CustomEnumField {
    type V = TestEnum;

    open spec fn deep_view(&self) -> TestEnum {
        self.field.deep_view()
    }
}

impl Desenv for CustomEnumField {
    open spec fn loaded(
        parent_prefix: Option<Seq<char>>,
        env: EnvV,
    ) -> Result<TestEnum, ErrorV> {
        let f = FieldV {
            rename: None,
            default: None,
            separator: None,
            nested: false,
        };
        let name = var_name_of("field"@, effective_prefix(parent_prefix, None), f);
        scalar_of::<TestEnum>(env, name, f.default)
    }

    fn _load(
        parent_prefix: Option<String>,
        env: &Env,
    ) -> (r: Result<CustomEnumField, Error>) {
        let s = Struct { prefix: None };
        let prefix = current_prefix(&parent_prefix, &s);
        let field = Field {
            rename: None,
            default: None,
            separator: None,
            nested: false,
        };
        let name = var_name("field", prefix.as_str(), &field);
        match var::<TestEnum>(env, name.as_str(), &field) {
            Ok(v) => Ok(CustomEnumField { field: v }),
            Err(e) => Err(e),
        }
    }
}

} // verus!
