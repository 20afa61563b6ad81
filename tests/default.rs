use desenv::configs::defaults::{
    AttrAsPath, AttrWithEnvVar, AttrWithEnvVarAndOptionalField, AttrWithEnvVarAndVectorField,
    AttrWithI32AndWrongValue, AttrWithI32_2, AttrWithValue, AttrWithValueAndOptionalField, VecField,
};
use desenv::{Env, Error};

#[test]
fn deserialize_field_with_std_default_using_env_var_value() {
    let field_value: &str = "value";
    let mut env = Env::new();
    env.set("FIELD", field_value);

    let config: AttrAsPath = desenv::load(&env).unwrap();
    assert_eq!(config.field, field_value);
}

#[test]
fn deserialize_field_with_std_default_using_std_default() {
    let env = Env::new();
    let config: AttrAsPath = desenv::load(&env).unwrap();
    assert_eq!(config.field, "");
}

#[test]
fn deserialize_field_with_value_default_as_array_using_env_var_value() {
    let field_value: &str = "value";
    let mut env = Env::new();
    env.set("FIELD", field_value);

    let config: AttrWithValue = desenv::load(&env).unwrap();
    assert_eq!(config.field, field_value);
}

#[test]
fn deserialize_field_with_value_default_as_array_using_value_default() {
    let env = Env::new();
    let config: AttrWithValue = desenv::load(&env).unwrap();
    assert_eq!(config.field, "default_value");
}

#[test]
fn deserialize_i32_field_with_default_field_attr_using_default() {
    let env = Env::new();
    let config: AttrWithI32_2 = desenv::load(&env).unwrap();
    assert_eq!(config.field, 7);
}

#[test]
fn deserialize_i32_field_with_default_field_attr() {
    let field_value: i32 = 10;
    let mut env = Env::new();
    env.set("FIELD", &field_value.to_string());

    let config: AttrWithI32AndWrongValue = desenv::load(&env).unwrap();
    assert_eq!(config.field, field_value);
}

#[test]
fn deserialize_i32_field_with_default_field_attr_fail_for_wrong_default() {
    let env = Env::new();
    let config: Result<AttrWithI32AndWrongValue, Error> = desenv::load(&env);
    assert!(config.is_err());
    assert_eq!(
        config.unwrap_err().message(),
        Error::Custom("Cannot parse env var: ParseIntError { kind: InvalidDigit }".to_string()).message()
    );
}

#[test]
fn deserialize_field_with_env_default_using_env_var_value() {
    let field_value: &str = "value";
    let mut env = Env::new();
    env.set("FIELD", field_value);

    let config: AttrWithEnvVar = desenv::load(&env).unwrap();
    assert_eq!(config.field, field_value);
}

#[test]
fn deserialize_field_with_env_default_using_env_var_default() {
    let field_value: &str = "value";
    let mut env = Env::new();
    env.set("DEFAULT_ENV", field_value);

    let config: AttrWithEnvVar = desenv::load(&env).unwrap();
    assert_eq!(config.field, "value");
}

// When both the variable and its fallback are absent, the error names the fallback.
#[test]
fn deserialize_field_with_env_default_fail_using_missing_env_var_default() {
    let env = Env::new();
    let config: Result<AttrWithEnvVar, Error> = desenv::load(&env);
    assert!(config.is_err());
    assert_eq!(
        config.unwrap_err().message(),
        Error::MissingVar("DEFAULT_ENV".to_string()).message()
    );
}

#[test]
fn deserialize_optional_field_with_value_default_using_env_var_default() {
    let env = Env::new();
    let config: AttrWithValueAndOptionalField = desenv::load(&env).unwrap();
    assert_eq!(config.field, Some("default_value".to_string()));
}

#[test]
fn deserialize_optional_field_with_env_default_using_env_var_default() {
    let field_value: &str = "value";
    let mut env = Env::new();
    env.set("DEFAULT_ENV", field_value);

    let config: AttrWithEnvVarAndOptionalField = desenv::load(&env).unwrap();
    assert_eq!(config.field, Some("value".to_string()));
}

#[test]
fn deserialize_vector_field_with_env_default_using_env_var_default() {
    let field_value: &str = "true, false,true, false";
    let mut env = Env::new();
    env.set("DEFAULT_ENV", field_value);

    let config: AttrWithEnvVarAndVectorField = desenv::load(&env).unwrap();
    assert_eq!(config.field.len(), 4);
    assert_eq!(config.field, vec![true, false, true, false]);
}

#[test]
fn deserialize_without_env_var_set_default_values() {
    let env = Env::new();
    let config: VecField = desenv::load(&env).unwrap();
    assert_eq!(config.field, vec![true, false]);
}
