use desenv::configs::rename::Simple;
use desenv::{Env, Error};

#[test]
fn deserialize_simple_string_field_with_rename_field_attr() {
    let field_value: &str = "value";
    let mut env = Env::new();
    env.set("rename_field", field_value);

    let config: Simple = desenv::load(&env).unwrap();
    assert_eq!(config.field, field_value);
}

#[test]
fn deserialize_simple_string_field_with_rename_field_attr_fail() {
    let field_value: &str = "value";
    let mut env = Env::new();
    env.set("FIELD", field_value);

    let config: Result<Simple, Error> = desenv::load(&env);
    assert!(config.is_err());
    assert_eq!(
        config.unwrap_err().message(),
        Error::MissingVar("rename_field".to_string()).message()
    );
}
