use desenv::configs::prefix::{CustomNestedPrefixedField, PrefixedConfigWithNestedPrefixedField};
use desenv::{Env, Error};

#[test]
fn deserialize_nested_prefixed_struct_field() {
    let field_value: i32 = 32;
    let mut env = Env::new();
    env.set("PREFIX_FIELD", &field_value.to_string());

    let config: CustomNestedPrefixedField = desenv::load(&env).unwrap();
    assert_eq!(config.field.field, field_value);
}

#[test]
fn deserialize_nested_prefixed_struct_field_fail() {
    let field_value: &str = "value";
    let mut env = Env::new();
    env.set("FIELD", field_value);

    let config: Result<CustomNestedPrefixedField, Error> = desenv::load(&env);
    assert!(config.is_err());
    assert_eq!(
        config.unwrap_err().message(),
        Error::MissingVar("PREFIX_FIELD".to_string()).message()
    );
}

#[test]
fn deserialize_prefixed_config_with_nested_prefixed_struct_field() {
    let field_value: i32 = 32;
    let mut env = Env::new();
    env.set("PARENT_PREFIX_FIELD", &field_value.to_string());

    let config: PrefixedConfigWithNestedPrefixedField = desenv::load(&env).unwrap();
    assert_eq!(config.field.field, field_value);
}

#[test]
fn deserialize_prefixed_config_with_nested_prefixed_struct_field_fail() {
    let field_value: &str = "value";
    let mut env = Env::new();
    env.set("FIELD", field_value);

    let config: Result<PrefixedConfigWithNestedPrefixedField, Error> = desenv::load(&env);
    assert!(config.is_err());
    assert_eq!(
        config.unwrap_err().message(),
        Error::MissingVar("PARENT_PREFIX_FIELD".to_string()).message()
    );
}
