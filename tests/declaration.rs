use desenv::attr::meta::{Attribute, Lit, Meta, NestedMeta, Path};
use desenv::schema::{desenv, expand_field, Data, DeriveInput, FieldDecl, Fields};
use desenv::{DeriveAttributeFilter, Type};

fn ident(name: &str) -> Path {
    Path::from_ident(name)
}

fn desenv_attr(entries: Vec<NestedMeta>) -> Attribute {
    Attribute { path: ident("desenv"), meta: Meta::List(ident("desenv"), entries) }
}

fn decl(name: &str, ty: &str, attrs: Vec<Attribute>) -> FieldDecl {
    FieldDecl { ident: Some(name.to_string()), ty: ty.to_string(), attrs }
}

#[test]
fn declaration_with_prefix_and_fields() {
    let input = DeriveInput {
        attrs: vec![desenv_attr(vec![NestedMeta::Meta(Meta::NameValue(ident("prefix"), Lit::Str("APP_".to_string())))])],
        data: Data::Struct(Fields::Named(vec![
            decl("port", "u16", vec![]),
            decl(
                "hosts",
                "Vec < String >",
                vec![desenv_attr(vec![NestedMeta::Meta(Meta::NameValue(ident("separator"), Lit::Char(';')))])],
            ),
            decl("inner", "Inner", vec![desenv_attr(vec![NestedMeta::Meta(Meta::Path(ident("nested")))])]),
        ])),
    };
    let schema = desenv(&input).unwrap();
    assert_eq!(schema.attrs.get_prefix(), "APP_");
    assert_eq!(schema.fields.len(), 3);
    assert_eq!(schema.fields[0].ident.as_deref(), Some("port"));
    assert_eq!(schema.fields[0].ty, Type::Other);
    assert_eq!(schema.fields[1].ty, Type::Vector);
    assert_eq!(schema.fields[1].field.separator, Some(';'));
    assert!(schema.fields[2].field.nested);
}

#[test]
fn declaration_refusals() {
    let not_struct = DeriveInput { attrs: vec![], data: Data::Enum };
    assert_eq!(
        desenv(&not_struct).err().unwrap().message,
        "desenv could be derived only on non-tuple struct types"
    );
    let tuple = DeriveInput { attrs: vec![], data: Data::Struct(Fields::Unnamed(vec![])) };
    assert_eq!(
        desenv(&tuple).err().unwrap().message,
        "desenv could be derived only on structs with named fields"
    );
    let bad_separator = DeriveInput {
        attrs: vec![],
        data: Data::Struct(Fields::Named(vec![
            decl("ok", "bool", vec![]),
            decl("flag", "bool", vec![desenv_attr(vec![NestedMeta::Meta(Meta::NameValue(ident("separator"), Lit::Char('|')))])]),
            decl("later", "bool", vec![desenv_attr(vec![NestedMeta::Meta(Meta::Path(ident("bogus")))])]),
        ])),
    };
    assert_eq!(
        desenv(&bad_separator).err().unwrap().message,
        "`separator` modifier can be used on vector only"
    );
}

#[test]
fn unnamed_leaf_field_is_refused() {
    let d = FieldDecl { ident: None, ty: "bool".to_string(), attrs: vec![] };
    assert_eq!(expand_field(&d).err().unwrap().message, "failed to stringify identity");
}

#[test]
fn declaration_attributes_are_filtered() {
    let mut input = DeriveInput {
        attrs: vec![
            Attribute { path: ident("doc"), meta: Meta::Path(ident("doc")) },
            desenv_attr(vec![]),
        ],
        data: Data::Struct(Fields::Named(vec![decl(
            "field",
            "String",
            vec![Attribute { path: ident("serde"), meta: Meta::Path(ident("serde")) }, desenv_attr(vec![])],
        )])),
    };
    input.retain_attrs();
    assert_eq!(input.attrs.len(), 1);
    match &input.data {
        Data::Struct(Fields::Named(ds)) => {
            assert_eq!(ds.len(), 1);
            assert_eq!(ds[0].attrs.len(), 1);
            assert_eq!(ds[0].ident.as_deref(), Some("field"));
        }
        _ => panic!("the shape of the declaration changed"),
    }
}
