use desenv::configs::separator::VecField;
use desenv::{Env, Error};

#[test]
fn deserialize_vec_with_custom_separator() {
    let mut env = Env::new();
    env.set("FIELD", "true| false|true| false");

    let config: VecField = desenv::load(&env).unwrap();
    assert_eq!(config.field, vec![true, false, true, false]);
}

#[test]
fn deserialize_vec_with_custom_separator_fail() {
    let mut env = Env::new();
    env.set("FIELD", "true| false|true, false");

    let config: Result<VecField, Error> = desenv::load(&env);
    assert!(config.is_err());
    assert_eq!(
        config.unwrap_err().message(),
        Error::ParseFromStr("FIELD".to_string(), "ParseBoolError".to_string()).message()
    );
}
