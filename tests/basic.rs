use desenv::configs::basic::{Config, Config2, Config3, Config4, Config5, Config6};
use desenv::Env;

#[test]
fn works() {
    let mut env = Env::new();
    env.set("FIELD", &"value".to_string());
    let c: Config = desenv::load(&env).unwrap();
    assert_eq!(c.field, "value");
}

#[test]
fn works_with_i32() {
    let mut env = Env::new();
    env.set("FIELD", &10.to_string());
    let c: Config2 = desenv::load(&env).unwrap();
    assert_eq!(c.field, 10);
}

#[test]
fn works_with_i32_and_prefix() {
    let mut env = Env::new();
    env.set("PREFIX_FIELD", &10.to_string());
    let c: Config3 = desenv::load(&env).unwrap();
    assert_eq!(c.field, 10);
}

#[test]
fn works_with_nested() {
    let mut env = Env::new();
    env.set("PREFIX_FIELD", &"value".to_string());
    let c: Config4 = desenv::load(&env).unwrap();
    assert_eq!(c.field.field, "value");
}

#[test]
fn works_with_optional() {
    let mut env = Env::new();
    env.set("FIELD", &"value".to_string());
    let c: Config5 = desenv::load(&env).unwrap();
    assert!(c.field.is_some());
    assert_eq!(c.field.unwrap(), "value");
}

#[test]
fn works_with_vector() {
    let mut env = Env::new();
    env.set("FIELD", &"value1,value2".to_string());
    let c: Config6 = desenv::load(&env).unwrap();
    assert_eq!(c.field, vec!["value1", "value2"]);
}

// The variable is set, to the empty text.
#[test]
fn could_compile() {
    let mut env = Env::new();
    env.set("FIELD", "");
    let c: Config = desenv::load(&env).unwrap();
    assert!(c.field.is_empty());
}
