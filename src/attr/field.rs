//! The modifiers of a field: what they are, how they are read from a `desenv` attribute,
//! and which combinations are refused.
use vstd::prelude::*;

use crate::attr::meta::{
    is_ident, lit_error, lit_text, schema_error, schema_error_from, unknown_modifier, unknown_text,
    usage_error, usage_text, Attribute, Lit, Meta, NestedMeta, Path, SchemaError,
};
use crate::ty::Type;

verus! {

pub const RENAME: &'static str = "rename";

pub const RENAME_USAGE: &'static str = "#[desenv(rename = \"value\")]";

pub const SEPARATOR: &'static str = "separator";

pub const SEPARATOR_USAGE: &'static str = "#[desenv(separator = ',')]";

pub const NESTED: &'static str = "nested";

pub const NESTED_USAGE: &'static str = "#[desenv(nested)]";

pub const DEFAULT: &'static str = "default";

pub const DEFAULT_USAGE: &'static str = "#[desenv(default)], #[desenv(default = \"value\")], #[desenv(default(value = \"value\"))] or #[desenv(default(env = \"ENV\"))]";

/// The fallback used when a field's variable is absent.
pub enum Default {
    /// The zero value of the field's type.
    Std,
    /// A fixed text, parsed as if the variable held it.
    Value(String),
    /// A second variable, read in place of the first.
    Env(String),
}

pub enum DefaultV {
    Std,
    Value(Seq<char>),
    Env(Seq<char>),
}

impl View for Default {
    type V = DefaultV;

    open spec fn view(&self) -> DefaultV {
        match self {
            Default::Std => DefaultV::Std,
            Default::Value(v) => DefaultV::Value(v@),
            Default::Env(e) => DefaultV::Env(e@),
        }
    }
}

/// The modifiers of one field.
pub struct Field {
    pub rename: Option<String>,
    pub default: Option<Default>,
    pub separator: Option<char>,
    pub nested: bool,
}

pub struct FieldV {
    pub rename: Option<Seq<char>>,
    pub default: Option<DefaultV>,
    pub separator: Option<char>,
    pub nested: bool,
}

pub open spec fn opt_text(o: Option<String>) -> Option<Seq<char>> {
    match o {
        Some(s) => Some(s@),
        None => None,
    }
}

pub open spec fn opt_default(o: Option<Default>) -> Option<DefaultV> {
    match o {
        Some(d) => Some(d@),
        None => None,
    }
}

impl View for Field {
    type V = FieldV;

    open spec fn view(&self) -> FieldV {
        FieldV {
            rename: opt_text(self.rename),
            default: opt_default(self.default),
            separator: self.separator,
            nested: self.nested,
        }
    }
}

/// The rule that a field's modifiers break, if any.
pub open spec fn field_fault(f: FieldV) -> Option<Seq<char>> {
    if f.nested && (f.rename is Some || f.separator is Some) {
        Some("cannot set `rename` or `separator` modifiers on a field marked as `nested`"@)
    } else if f.nested && f.default matches Some(DefaultV::Env(_)) {
        Some("cannot set `default` with env modifier on a field marked as `nested`"@)
    } else if f.nested && f.default matches Some(DefaultV::Value(_)) {
        Some("cannot set `default` with value modifier on a field marked as `nested`"@)
    } else if f.rename matches Some(r) && r.len() == 0 {
        Some("`rename` modifiers must not be empty"@)
    } else {
        None
    }
}

impl Field {
    /// A field with no modifier.
    pub fn plain() -> (r: Field)
        ensures
            r@ == (FieldV { rename: None, default: None, separator: None, nested: false }),
    {
        Field { rename: None, default: None, separator: None, nested: false }
    }

    /// Checks the rules that tie a field's modifiers together.
    pub fn validate(self) -> (r: Result<Field, SchemaError>)
        ensures
            match field_fault(self@) {
                None => r matches Ok(f) && f@ == self@,
                Some(m) => r matches Err(e) && e@ == m,
            },
    {
        if self.nested && (self.rename.is_some() || self.separator.is_some()) {
            Err(schema_error("cannot set `rename` or `separator` modifiers on a field marked as `nested`"))
        } else if self.nested && matches!(self.default, Some(Default::Env(_))) {
            Err(schema_error("cannot set `default` with env modifier on a field marked as `nested`"))
        } else if self.nested && matches!(self.default, Some(Default::Value(_))) {
            Err(schema_error("cannot set `default` with value modifier on a field marked as `nested`"))
        } else if self.rename.is_some() && self.rename.as_ref().unwrap().as_str().is_empty() {
            Err(schema_error("`rename` modifiers must not be empty"))
        } else {
            Ok(self)
        }
    }
}


/// A field result as a mathematical value.
pub open spec fn field_result(r: Result<Field, SchemaError>) -> Result<FieldV, Seq<char>> {
    match r {
        Ok(f) => Ok(f@),
        Err(e) => Err(e@),
    }
}

pub open spec fn with_default(f: FieldV, d: DefaultV) -> FieldV {
    FieldV { rename: f.rename, default: Some(d), separator: f.separator, nested: f.nested }
}

/// The effect of a modifier written as a bare path (`default`, `nested`).
pub open spec fn path_modifier(f: FieldV, p: Path) -> Result<FieldV, Seq<char>> {
    if is_ident(p, DEFAULT@) {
        Ok(with_default(f, DefaultV::Std))
    } else if is_ident(p, NESTED@) {
        Ok(FieldV { rename: f.rename, default: f.default, separator: f.separator, nested: true })
    } else if is_ident(p, RENAME@) {
        Err(usage_text("path"@, RENAME@, RENAME_USAGE@))
    } else if is_ident(p, SEPARATOR@) {
        Err(usage_text("path"@, SEPARATOR@, SEPARATOR_USAGE@))
    } else {
        Err(unknown_text("field"@, p))
    }
}

/// The effect of a modifier written as `name = literal`.
pub open spec fn name_value_modifier(f: FieldV, p: Path, lit: Lit) -> Result<FieldV, Seq<char>> {
    if is_ident(p, RENAME@) {
        match lit {
            Lit::Str(s) => Ok(FieldV { rename: Some(s@), default: f.default, separator: f.separator, nested: f.nested }),
            _ => Err(lit_text("string"@, RENAME@, RENAME_USAGE@)),
        }
    } else if is_ident(p, SEPARATOR@) {
        match lit {
            Lit::Char(c) => Ok(FieldV { rename: f.rename, default: f.default, separator: Some(c), nested: f.nested }),
            _ => Err(lit_text("char"@, SEPARATOR@, SEPARATOR_USAGE@)),
        }
    } else if is_ident(p, DEFAULT@) {
        match lit {
            Lit::Str(s) => Ok(with_default(f, DefaultV::Value(s@))),
            _ => Err(lit_text("string"@, DEFAULT@, DEFAULT_USAGE@)),
        }
    } else if is_ident(p, NESTED@) {
        Err(usage_text("named value"@, NESTED@, NESTED_USAGE@))
    } else {
        Err(unknown_text("field"@, p))
    }
}

/// The default policy that the entries of `default(...)` describe.
pub open spec fn default_of_entries(entries: Seq<NestedMeta>) -> Result<DefaultV, Seq<char>> {
    if entries.len() > 1 {
        Err("`default` modifier cannot contain more than one modifier"@)
    } else if entries.len() == 0 {
        Err("`default` modifier must contain exactly one entry"@)
    } else {
        match entries[0] {
            NestedMeta::Lit(_) => Err("`default` modifier must contain exactly one non literal entry"@),
            NestedMeta::Meta(Meta::Path(_)) => Err("`default` modifier cannot contain a path modifier"@),
            NestedMeta::Meta(Meta::List(_, _)) => Err("`default` modifier cannot contain a list modifier"@),
            NestedMeta::Meta(Meta::NameValue(p, lit)) => if is_ident(p, "env"@) {
                match lit {
                    Lit::Str(s) => Ok(DefaultV::Env(s@)),
                    _ => Err("`default.env` modifier must contain a string literal"@),
                }
            } else if is_ident(p, "value"@) {
                match lit {
                    Lit::Str(s) => Ok(DefaultV::Value(s@)),
                    _ => Err("`default.value` modifier must contain a string literal"@),
                }
            } else {
                Err(unknown_text("field"@, p))
            },
        }
    }
}

/// The effect of a modifier written as `name(entries)`.
pub open spec fn list_modifier(f: FieldV, p: Path, entries: Seq<NestedMeta>) -> Result<FieldV, Seq<char>> {
    if is_ident(p, DEFAULT@) {
        match default_of_entries(entries) {
            Ok(d) => Ok(with_default(f, d)),
            Err(e) => Err(e),
        }
    } else if is_ident(p, RENAME@) {
        Err(usage_text("list"@, RENAME@, RENAME_USAGE@))
    } else if is_ident(p, SEPARATOR@) {
        Err(usage_text("list"@, SEPARATOR@, SEPARATOR_USAGE@))
    } else if is_ident(p, NESTED@) {
        Err(usage_text("list"@, NESTED@, NESTED_USAGE@))
    } else {
        Err(unknown_text("field"@, p))
    }
}

pub open spec fn field_modifier(f: FieldV, m: Meta) -> Result<FieldV, Seq<char>> {
    match m {
        Meta::Path(p) => path_modifier(f, p),
        Meta::NameValue(p, lit) => name_value_modifier(f, p, lit),
        Meta::List(p, entries) => list_modifier(f, p, entries@),
    }
}

/// Applies the modifiers among `entries` in order, skipping bare literals; the first
/// one that is refused decides the error.
pub open spec fn field_modifiers(f: FieldV, entries: Seq<NestedMeta>) -> Result<FieldV, Seq<char>>
    decreases entries.len(),
{
    if entries.len() == 0 {
        Ok(f)
    } else {
        match field_modifiers(f, entries.drop_last()) {
            Err(e) => Err(e),
            Ok(g) => match entries.last() {
                NestedMeta::Lit(_) => Ok(g),
                NestedMeta::Meta(m) => field_modifier(g, m),
            },
        }
    }
}

pub open spec fn no_modifier() -> FieldV {
    FieldV { rename: None, default: None, separator: None, nested: false }
}

/// The field descriptor that the `desenv` attributes of a field describe.
pub open spec fn field_of_attrs(attrs: Seq<Attribute>) -> Result<FieldV, Seq<char>> {
    if attrs.len() > 1 {
        Err("cannot have more than one `desenv` attribute per field"@)
    } else if attrs.len() == 0 {
        Ok(no_modifier())
    } else {
        match attrs[0].meta {
            Meta::List(_, entries) => match field_modifiers(no_modifier(), entries@) {
                Err(e) => Err(e),
                Ok(f) => match field_fault(f) {
                    Some(m) => Err(m),
                    None => Ok(f),
                },
            },
            _ => Err("`desenv` field attribute must be used as list of modifiers"@),
        }
    }
}

fn parse_path(this: Field, path: &Path) -> (r: Result<Field, SchemaError>)
    ensures
        field_result(r) == path_modifier(this@, *path),
{
    let mut this = this;
    let ty = "path";
    if path.is_ident(DEFAULT) {
        this.default = Some(Default::Std);
    } else if path.is_ident(NESTED) {
        this.nested = true;
    } else if path.is_ident(RENAME) {
        return Err(schema_error_from(usage_error(ty, RENAME, RENAME_USAGE)));
    } else if path.is_ident(SEPARATOR) {
        return Err(schema_error_from(usage_error(ty, SEPARATOR, SEPARATOR_USAGE)));
    } else {
        return Err(unknown_modifier("field", path));
    }
    Ok(this)
}

fn parse_name_value(this: Field, path: &Path, lit: &Lit) -> (r: Result<Field, SchemaError>)
    ensures
        field_result(r) == name_value_modifier(this@, *path, *lit),
{
    let mut this = this;
    if path.is_ident(RENAME) {
        match lit {
            Lit::Str(s) => this.rename = Some(s.clone()),
            _ => return Err(schema_error_from(lit_error("string", RENAME, RENAME_USAGE))),
        }
    } else if path.is_ident(SEPARATOR) {
        match lit {
            Lit::Char(c) => this.separator = Some(*c),
            _ => return Err(schema_error_from(lit_error("char", SEPARATOR, SEPARATOR_USAGE))),
        }
    } else if path.is_ident(DEFAULT) {
        match lit {
            Lit::Str(s) => this.default = Some(Default::Value(s.clone())),
            _ => return Err(schema_error_from(lit_error("string", DEFAULT, DEFAULT_USAGE))),
        }
    } else if path.is_ident(NESTED) {
        return Err(schema_error_from(usage_error("named value", NESTED, NESTED_USAGE)));
    } else {
        return Err(unknown_modifier("field", path));
    }
    Ok(this)
}

/// Reads the entries of `default(...)`: exactly one `env = "..."` or `value = "..."`.
pub fn parse_nested_meta_for_default(entries: &Vec<NestedMeta>) -> (r: Result<Default, SchemaError>)
    ensures
        match default_of_entries(entries@) {
            Ok(d) => r matches Ok(x) && x@ == d,
            Err(m) => r matches Err(e) && e@ == m,
        },
{
    if entries.len() > 1 {
        return Err(schema_error("`default` modifier cannot contain more than one modifier"));
    }
    if entries.len() == 0 {
        return Err(schema_error("`default` modifier must contain exactly one entry"));
    }
    match &entries[0] {
        NestedMeta::Lit(_) => Err(schema_error("`default` modifier must contain exactly one non literal entry")),
        NestedMeta::Meta(Meta::Path(_)) => Err(schema_error("`default` modifier cannot contain a path modifier")),
        NestedMeta::Meta(Meta::List(_, _)) => Err(schema_error("`default` modifier cannot contain a list modifier")),
        NestedMeta::Meta(Meta::NameValue(path, lit)) => {
            if path.is_ident("env") {
                match lit {
                    Lit::Str(s) => Ok(Default::Env(s.clone())),
                    _ => Err(schema_error("`default.env` modifier must contain a string literal")),
                }
            } else if path.is_ident("value") {
                match lit {
                    Lit::Str(s) => Ok(Default::Value(s.clone())),
                    _ => Err(schema_error("`default.value` modifier must contain a string literal")),
                }
            } else {
                Err(unknown_modifier("field", path))
            }
        },
    }
}

fn parse_list(this: Field, path: &Path, entries: &Vec<NestedMeta>) -> (r: Result<Field, SchemaError>)
    ensures
        field_result(r) == list_modifier(this@, *path, entries@),
{
    let mut this = this;
    let ty = "list";
    if path.is_ident(DEFAULT) {
        match parse_nested_meta_for_default(entries) {
            Ok(d) => this.default = Some(d),
            Err(e) => return Err(e),
        }
    } else if path.is_ident(RENAME) {
        return Err(schema_error_from(usage_error(ty, RENAME, RENAME_USAGE)));
    } else if path.is_ident(SEPARATOR) {
        return Err(schema_error_from(usage_error(ty, SEPARATOR, SEPARATOR_USAGE)));
    } else if path.is_ident(NESTED) {
        return Err(schema_error_from(usage_error(ty, NESTED, NESTED_USAGE)));
    } else {
        return Err(unknown_modifier("field", path));
    }
    Ok(this)
}

/// Once a prefix of the entries is refused, every longer prefix is refused the same way.
proof fn lemma_field_modifiers_error(f: FieldV, entries: Seq<NestedMeta>, i: int)
    requires
        0 <= i < entries.len(),
        field_modifiers(f, entries.take(i + 1)) is Err,
    ensures
        field_modifiers(f, entries) == field_modifiers(f, entries.take(i + 1)),
    decreases entries.len() - i,
{
    if i + 1 < entries.len() {
        assert(entries.take(i + 2).drop_last() =~= entries.take(i + 1));
        lemma_field_modifiers_error(f, entries, i + 1);
    } else {
        assert(entries.take(i + 1) =~= entries);
    }
}

impl Field {
    /// Reads the `desenv` attributes of a field into a checked field descriptor.
    pub fn from_attrs(attrs: &[Attribute]) -> (r: Result<Field, SchemaError>)
        ensures
            field_result(r) == field_of_attrs(attrs@),
    {
        if attrs.len() > 1 {
            return Err(schema_error("cannot have more than one `desenv` attribute per field"));
        }
        if attrs.len() == 0 {
            return Ok(Field::plain());
        }
        let entries = match &attrs[0].meta {
            Meta::List(_, entries) => entries,
            _ => return Err(schema_error("`desenv` field attribute must be used as list of modifiers")),
        };
        let ghost es = entries@;
        let mut this = Field::plain();
        let mut i: usize = 0;
        assert(es.take(0) =~= Seq::<NestedMeta>::empty());
        while i < entries.len()
            invariant
                i <= entries.len(),
                es == entries@,
                attrs@.len() == 1,
                attrs@[0].meta matches Meta::List(_, x) && x@ == es,
                field_modifiers(no_modifier(), es.take(i as int)) == Ok::<FieldV, Seq<char>>(this@),
            decreases entries.len() - i,
        {
            assert(es.take(i + 1).drop_last() =~= es.take(i as int));
            assert(es.take(i + 1).last() == es[i as int]);
            match &entries[i] {
                NestedMeta::Lit(_) => {},
                NestedMeta::Meta(meta) => {
                    let ghost before = this@;
                    let next = match meta {
                        Meta::Path(path) => parse_path(this, path),
                        Meta::NameValue(path, lit) => parse_name_value(this, path, lit),
                        Meta::List(path, list) => parse_list(this, path, list),
                    };
                    match next {
                        Ok(f) => this = f,
                        Err(e) => {
                            proof {
                                assert(field_modifiers(no_modifier(), es.take(i + 1))
                                    == field_modifier(before, *meta));
                                lemma_field_modifiers_error(no_modifier(), es, i as int);
                            }
                            return Err(e);
                        },
                    }
                },
            }
            i = i + 1;
        }
        assert(es.take(i as int) =~= es);
        this.validate()
    }
}


/// The rule that a field's modifiers break given the kind of its value, if any: only a
/// collection can set a separator. A nested field is exempt, as it holds no leaf value.
pub open spec fn kind_fault(f: FieldV, ty: Type) -> Option<Seq<char>> {
    if !f.nested && f.separator is Some && ty != Type::Vector {
        Some("`separator` modifier can be used on vector only"@)
    } else {
        None
    }
}

impl Field {
    /// Checks that the modifiers suit a field whose value is of kind `ty`.
    pub fn check_kind(&self, ty: Type) -> (r: Result<(), SchemaError>)
        ensures
            match kind_fault(self@, ty) {
                None => r is Ok,
                Some(m) => r matches Err(e) && e@ == m,
            },
    {
        if !self.nested && self.separator.is_some() && ty != Type::Vector {
            Err(schema_error("`separator` modifier can be used on vector only"))
        } else {
            Ok(())
        }
    }
}

} // verus!
