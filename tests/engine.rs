use desenv::attr::field::parse_nested_meta_for_default;
use desenv::attr::meta::{lit_error, usage_error, Attribute, Lit, Meta, NestedMeta, Path};
use desenv::configs::basic::{Config, Config2, Config4};
use desenv::configs::defaults::{AttrAsPath, AttrWithEnvVarAndOptionalField, AttrWithEnvVarAndVectorField};
use desenv::configs::plain::{ConfigWithBool, OptionalField, SimpleString, VecField};
use desenv::configs::prefix::PrefixedConfigWithNestedPrefixedField;
use desenv::resolve::{current_prefix, split_text, var, var_name, var_opt, var_vec};
use desenv::{DeriveAttributeFilter, Env, Error, ErrorKind, Field, Lookup, Struct, Type};

fn field_with(default: Option<desenv::attr::field::Default>, separator: Option<char>) -> Field {
    Field { rename: None, default, separator, nested: false }
}

#[test]
fn var_name_upper_cases_the_identifier() {
    let field = Field::plain();
    assert_eq!(var_name("my_field", "", &field), "MY_FIELD");
    assert_eq!(var_name("field", "APP_", &field), "APP_FIELD");
}

#[test]
fn var_name_takes_the_rename_exactly() {
    let field = Field { rename: Some("lower_name".to_string()), default: None, separator: None, nested: false };
    assert_eq!(var_name("field", "", &field), "lower_name");
    assert_eq!(var_name("field", "P_", &field), "P_lower_name");
}

#[test]
fn prefixes_concatenate_through_nesting() {
    let outer = Struct { prefix: Some("PARENT_".to_string()) };
    let inner = Struct { prefix: Some("CHILD_".to_string()) };
    let first = current_prefix(&None, &outer);
    assert_eq!(first, "PARENT_");
    let second = current_prefix(&Some(first), &inner);
    assert_eq!(second, "PARENT_CHILD_");
    let bare = Struct { prefix: None };
    assert_eq!(current_prefix(&None, &bare), "");
    assert_eq!(bare.get_prefix(), "");
}

#[test]
fn nested_prefixed_scenario() {
    let mut env = Env::new();
    env.set("PARENT_PREFIX_FIELD", "32");
    let config: PrefixedConfigWithNestedPrefixedField = desenv::load(&env).unwrap();
    assert_eq!(config.field.field, 32);
}

#[test]
fn later_setting_shadows_earlier() {
    let mut env = Env::new();
    env.set("FIELD", "one");
    env.set("FIELD", "two");
    assert!(matches!(env.lookup("FIELD"), Lookup::Present(ref s) if s == "two"));
    assert!(matches!(env.lookup("OTHER"), Lookup::Absent));
}

#[test]
fn not_unicode_variable_is_refused() {
    let mut env = Env::new();
    env.set_not_unicode("FIELD", vec![255]);
    let config: Result<SimpleString, Error> = desenv::load(&env);
    let err = config.unwrap_err();
    assert_eq!(err.kind(), ErrorKind::NotUnicodeVar);
    assert_eq!(err.var_name(), "FIELD");
    assert_eq!(err.message(), "Env var is not unicode `FIELD`");
}

#[test]
fn not_unicode_variable_with_standard_default_gives_zero() {
    let mut env = Env::new();
    env.set_not_unicode("FIELD", vec![255]);
    let config: AttrAsPath = desenv::load(&env).unwrap();
    assert_eq!(config.field, "");
}

#[test]
fn error_messages() {
    assert_eq!(Error::MissingVar("A".to_string()).message(), "Missing env var `A`");
    assert_eq!(Error::NotUnicodeVar("A".to_string()).message(), "Env var is not unicode `A`");
    assert_eq!(
        Error::ParseFromStr("A".to_string(), "bad".to_string()).message(),
        "Cannot parse env var: bad"
    );
    assert_eq!(Error::Custom("free text".to_string()).message(), "free text");
    assert_eq!(Error::Custom("x".to_string()).kind(), ErrorKind::Custom);
    assert_eq!(Error::Custom("x".to_string()).var_name(), "");
}

#[test]
fn parse_error_names_the_variable() {
    let mut env = Env::new();
    env.set("FIELD", "yes");
    let config: Result<ConfigWithBool, Error> = desenv::load(&env);
    let err = config.unwrap_err();
    assert_eq!(err.kind(), ErrorKind::ParseFromStr);
    assert_eq!(err.var_name(), "FIELD");
    assert_eq!(err.message(), "Cannot parse env var: ParseBoolError");
}

#[test]
fn integer_parsing() {
    let mut env = Env::new();
    env.set("FIELD", "-2147483648");
    let config: Config2 = desenv::load(&env).unwrap();
    assert_eq!(config.field, i32::MIN);

    let mut env = Env::new();
    env.set("FIELD", "+17");
    let config: Config2 = desenv::load(&env).unwrap();
    assert_eq!(config.field, 17);

    let mut env = Env::new();
    env.set("FIELD", "2147483648");
    let err = desenv::load::<Config2>(&env).unwrap_err();
    assert_eq!(err.message(), "Cannot parse env var: ParseIntError { kind: PosOverflow }");

    let mut env = Env::new();
    env.set("FIELD", "");
    let err = desenv::load::<Config2>(&env).unwrap_err();
    assert_eq!(err.message(), "Cannot parse env var: ParseIntError { kind: Empty }");
}

#[test]
fn standard_default_scalar_is_zero_without_parsing() {
    let env = Env::new();
    let field = field_with(Some(desenv::attr::field::Default::Std), None);
    let v: i32 = var(&env, "FIELD", &field).unwrap();
    assert_eq!(v, 0);
    let b: bool = var(&env, "FIELD", &field).unwrap();
    assert!(!b);
}

#[test]
fn standard_default_optional_is_some_zero() {
    let env = Env::new();
    let field = field_with(Some(desenv::attr::field::Default::Std), None);
    let v: Option<i32> = var_opt(&env, "FIELD", &field).unwrap();
    assert_eq!(v, Some(0));
}

#[test]
fn standard_default_collection_is_empty() {
    let env = Env::new();
    let field = field_with(Some(desenv::attr::field::Default::Std), Some(';'));
    let v: Vec<bool> = var_vec(&env, "FIELD", &field).unwrap();
    assert!(v.is_empty());
}

#[test]
fn literal_default_is_parsed_like_a_set_value() {
    let env = Env::new();
    let field = field_with(Some(desenv::attr::field::Default::Value("12".to_string())), None);
    let v: i32 = var(&env, "FIELD", &field).unwrap();
    assert_eq!(v, 12);
    let mut set = Env::new();
    set.set("FIELD", "12");
    let w: i32 = var(&set, "FIELD", &Field::plain()).unwrap();
    assert_eq!(v, w);
}

#[test]
fn fallback_variable_missing_names_the_fallback() {
    let env = Env::new();
    let config: Result<AttrWithEnvVarAndOptionalField, Error> = desenv::load(&env);
    assert_eq!(config.unwrap_err().message(), "Missing env var `DEFAULT_ENV`");
    let config: Result<AttrWithEnvVarAndVectorField, Error> = desenv::load(&env);
    assert_eq!(config.unwrap_err().var_name(), "DEFAULT_ENV");
}

#[test]
fn fallback_variable_not_unicode_names_the_fallback() {
    let mut env = Env::new();
    env.set_not_unicode("DEFAULT_ENV", vec![0xff, 0xfe]);
    let config: Result<AttrWithEnvVarAndVectorField, Error> = desenv::load(&env);
    let err = config.unwrap_err();
    assert_eq!(err.kind(), ErrorKind::NotUnicodeVar);
    assert_eq!(err.var_name(), "DEFAULT_ENV");
}

#[test]
fn optional_parse_failure_is_an_error() {
    let mut env = Env::new();
    env.set("FIELD", "maybe");
    let config: Result<OptionalField, Error> = desenv::load(&env);
    assert_eq!(config.unwrap_err().kind(), ErrorKind::ParseFromStr);
}

#[test]
fn collection_keeps_order_and_ignores_white_space() {
    let mut env = Env::new();
    env.set("FIELD", "true, false,true , false");
    let config: VecField = desenv::load(&env).unwrap();
    assert_eq!(config.field, vec![true, false, true, false]);

    let mut env = Env::new();
    env.set("FIELD", " ,\ttrue,, false ,\n");
    let config: VecField = desenv::load(&env).unwrap();
    assert_eq!(config.field, vec![true, false]);
}

#[test]
fn collection_first_bad_element_decides() {
    let mut env = Env::new();
    env.set("FIELD", "true,x,y");
    let err = desenv::load::<VecField>(&env).unwrap_err();
    assert_eq!(err.kind(), ErrorKind::ParseFromStr);
    assert_eq!(err.var_name(), "FIELD");
}

#[test]
fn split_keeps_empty_pieces() {
    assert_eq!(split_text("a,,b", ','), vec!["a", "", "b"]);
    assert_eq!(split_text("", ','), vec![""]);
    assert_eq!(split_text("é|ü", '|'), vec!["é", "ü"]);
}

#[test]
fn load_twice_gives_equal_results() {
    let mut env = Env::new();
    env.set("PREFIX_FIELD", "value");
    let a: Config4 = desenv::load(&env).unwrap();
    let b: Config4 = desenv::load(&env).unwrap();
    assert_eq!(a.field.field, b.field.field);
    let e = Env::new();
    let x = desenv::load::<Config>(&e).unwrap_err();
    let y = desenv::load::<Config>(&e).unwrap_err();
    assert_eq!(x.message(), y.message());
}

#[test]
fn type_kinds() {
    assert_eq!(Type::from_field("OsString"), Type::OsString);
    assert_eq!(Type::from_field("Option < bool >"), Type::Option);
    assert_eq!(Type::from_field("Vec < i32 >"), Type::Vector);
    assert_eq!(Type::from_field("String"), Type::Other);
    assert_eq!(Type::from_field("Vec<i32>"), Type::Other);
}

fn ident(name: &str) -> Path {
    Path::from_ident(name)
}

fn list(entries: Vec<NestedMeta>) -> Vec<Attribute> {
    vec![Attribute { path: ident("desenv"), meta: Meta::List(ident("desenv"), entries) }]
}

fn modifier(m: Meta) -> NestedMeta {
    NestedMeta::Meta(m)
}

#[test]
fn field_attrs_are_read() {
    let attrs = list(vec![
        modifier(Meta::NameValue(ident("rename"), Lit::Str("NAME".to_string()))),
        modifier(Meta::NameValue(ident("separator"), Lit::Char(';'))),
        modifier(Meta::List(
            ident("default"),
            vec![modifier(Meta::NameValue(ident("env"), Lit::Str("ALT".to_string())))],
        )),
    ]);
    let f = Field::from_attrs(&attrs).unwrap();
    assert_eq!(f.rename, Some("NAME".to_string()));
    assert_eq!(f.separator, Some(';'));
    assert!(matches!(f.default, Some(desenv::attr::field::Default::Env(ref e)) if e == "ALT"));
    assert!(!f.nested);

    let f = Field::from_attrs(&list(vec![modifier(Meta::Path(ident("nested"))), modifier(Meta::Path(ident("default")))])).unwrap();
    assert!(f.nested);
    assert!(matches!(f.default, Some(desenv::attr::field::Default::Std)));

    let f = Field::from_attrs(&[]).unwrap();
    assert!(f.rename.is_none() && f.default.is_none() && f.separator.is_none() && !f.nested);
}

#[test]
fn field_attrs_are_refused() {
    let err = Field::from_attrs(&list(vec![
        modifier(Meta::Path(ident("nested"))),
        modifier(Meta::NameValue(ident("rename"), Lit::Str("X".to_string()))),
    ]))
    .err()
    .unwrap();
    assert_eq!(err.message, "cannot set `rename` or `separator` modifiers on a field marked as `nested`");

    let err = Field::from_attrs(&list(vec![modifier(Meta::NameValue(ident("rename"), Lit::Str(String::new())))]))
        .err()
        .unwrap();
    assert_eq!(err.message, "`rename` modifiers must not be empty");

    let err = Field::from_attrs(&list(vec![modifier(Meta::Path(ident("rename")))])).err().unwrap();
    assert_eq!(err.message, "`rename` modifier cannot be used as path. Usage: `#[desenv(rename = \"value\")]`");

    let err = Field::from_attrs(&list(vec![modifier(Meta::NameValue(ident("separator"), Lit::Other))]))
        .err()
        .unwrap();
    assert_eq!(err.message, "`separator` modifier must contain a char literal. Usage: `#[desenv(separator = ',')]`");

    let err = Field::from_attrs(&list(vec![modifier(Meta::Path(ident("bogus")))])).err().unwrap();
    assert_eq!(err.message, "unknown field attribute modifier `bogus`");

    let err = Field::from_attrs(&list(vec![modifier(Meta::Path(Path { ident: None }))])).err().unwrap();
    assert_eq!(err.message, "unknown field attribute modifier");

    let two = vec![list(vec![]).pop().unwrap(), list(vec![]).pop().unwrap()];
    let err = Field::from_attrs(&two).err().unwrap();
    assert_eq!(err.message, "cannot have more than one `desenv` attribute per field");

    let bare = vec![Attribute { path: ident("desenv"), meta: Meta::Path(ident("desenv")) }];
    let err = Field::from_attrs(&bare).err().unwrap();
    assert_eq!(err.message, "`desenv` field attribute must be used as list of modifiers");

    let err = Field::from_attrs(&list(vec![
        modifier(Meta::Path(ident("nested"))),
        modifier(Meta::NameValue(ident("default"), Lit::Str("v".to_string()))),
    ]))
    .err()
    .unwrap();
    assert_eq!(err.message, "cannot set `default` with value modifier on a field marked as `nested`");
}

#[test]
fn default_entries() {
    let both = vec![
        modifier(Meta::NameValue(ident("value"), Lit::Str("value".to_string()))),
        modifier(Meta::NameValue(ident("env"), Lit::Str("ENV".to_string()))),
    ];
    let err = parse_nested_meta_for_default(&both).err().unwrap();
    assert_eq!(err.message, "`default` modifier cannot contain more than one modifier");
    let err = parse_nested_meta_for_default(&vec![]).err().unwrap();
    assert_eq!(err.message, "`default` modifier must contain exactly one entry");
    let err = parse_nested_meta_for_default(&vec![NestedMeta::Lit(Lit::Other)]).err().unwrap();
    assert_eq!(err.message, "`default` modifier must contain exactly one non literal entry");
    let err = parse_nested_meta_for_default(&vec![modifier(Meta::Path(ident("env")))]).err().unwrap();
    assert_eq!(err.message, "`default` modifier cannot contain a path modifier");
    let err = parse_nested_meta_for_default(&vec![modifier(Meta::NameValue(ident("value"), Lit::Char('c')))])
        .err()
        .unwrap();
    assert_eq!(err.message, "`default.value` modifier must contain a string literal");
    let d = parse_nested_meta_for_default(&vec![modifier(Meta::NameValue(ident("value"), Lit::Str("7".to_string())))])
        .unwrap();
    assert!(matches!(d, desenv::attr::field::Default::Value(ref v) if v == "7"));
}

#[test]
fn struct_attrs() {
    let s = Struct::from_attrs(&list(vec![modifier(Meta::NameValue(ident("prefix"), Lit::Str("APP_".to_string())))]))
        .unwrap();
    assert_eq!(s.get_prefix(), "APP_");
    let err = Struct::from_attrs(&list(vec![modifier(Meta::NameValue(ident("prefix"), Lit::Str(String::new())))]))
        .err()
        .unwrap();
    assert_eq!(err.message, "`prefix` modifiers must not be empty");
    let err = Struct::from_attrs(&list(vec![modifier(Meta::Path(ident("prefix")))])).err().unwrap();
    assert_eq!(err.message, "`prefix` modifier cannot be used as path. Usage: `#[desenv(prefix = \"value\")]`");
    let err = Struct::from_attrs(&list(vec![modifier(Meta::NameValue(ident("prefix"), Lit::Other))])).err().unwrap();
    assert_eq!(err.message, "`prefix` modifier must contain a string literal");
    let err = Struct::from_attrs(&list(vec![modifier(Meta::List(ident("other"), vec![]))])).err().unwrap();
    assert_eq!(err.message, "unknown struct attribute modifier `other`");
}

#[test]
fn separator_only_on_collections() {
    let field = field_with(None, Some('|'));
    assert!(field.check_kind(Type::Vector).is_ok());
    assert_eq!(
        field.check_kind(Type::Other).err().unwrap().message,
        "`separator` modifier can be used on vector only"
    );
    assert!(Field::plain().check_kind(Type::Option).is_ok());
}

#[test]
fn messages_for_modifiers() {
    assert_eq!(usage_error("list", "nested", "#[desenv(nested)]"), "`nested` modifier cannot be used as list. Usage: `#[desenv(nested)]`");
    assert_eq!(lit_error("string", "rename", "U"), "`rename` modifier must contain a string literal. Usage: `U`");
}

#[test]
fn foreign_attributes_are_dropped() {
    let mut attrs = vec![
        Attribute { path: ident("serde"), meta: Meta::Path(ident("serde")) },
        Attribute { path: ident("desenv"), meta: Meta::Path(ident("first")) },
        Attribute { path: Path { ident: None }, meta: Meta::Path(ident("x")) },
        Attribute { path: ident("desenv"), meta: Meta::Path(ident("second")) },
    ];
    attrs.retain_attrs();
    assert_eq!(attrs.len(), 2);
    assert!(matches!(&attrs[0].meta, Meta::Path(p) if p.ident.as_deref() == Some("first")));
    assert!(matches!(&attrs[1].meta, Meta::Path(p) if p.ident.as_deref() == Some("second")));
}
