//! The modifiers of a structure: an optional prefix for the variables below it.
use vstd::prelude::*;

use crate::attr::field::opt_text;
use crate::attr::meta::{
    is_ident, schema_error, schema_error_from, unknown_modifier, unknown_text, usage_error,
    usage_text, Attribute, Lit, Meta, NestedMeta, Path, SchemaError,
};

verus! {

pub const PREFIX: &'static str = "prefix";

pub const PREFIX_USAGE: &'static str = "#[desenv(prefix = \"value\")]";

/// The modifiers of a structure.
pub struct Struct {
    pub prefix: Option<String>,
}

impl View for Struct {
    type V = Option<Seq<char>>;

    open spec fn view(&self) -> Option<Seq<char>> {
        opt_text(self.prefix)
    }
}

/// The prefix that a structure adds to the names below it.
pub open spec fn own_prefix(s: Option<Seq<char>>) -> Seq<char> {
    match s {
        Some(p) => p,
        None => Seq::empty(),
    }
}

/// The rule that a structure's modifiers break, if any.
pub open spec fn struct_fault(s: Option<Seq<char>>) -> Option<Seq<char>> {
    if s matches Some(p) && p.len() == 0 {
        Some("`prefix` modifiers must not be empty"@)
    } else {
        None
    }
}


/// A structure result as a mathematical value.
pub open spec fn struct_result(r: Result<Struct, SchemaError>) -> Result<Option<Seq<char>>, Seq<char>> {
    match r {
        Ok(s) => Ok(s@),
        Err(e) => Err(e@),
    }
}

/// The effect of one structure modifier; `prefix = "..."` is the only one there is.
pub open spec fn struct_modifier(s: Option<Seq<char>>, m: Meta) -> Result<Option<Seq<char>>, Seq<char>> {
    match m {
        Meta::Path(p) => if is_ident(p, PREFIX@) {
            Err(usage_text("path"@, PREFIX@, PREFIX_USAGE@))
        } else {
            Err(unknown_text("struct"@, p))
        },
        Meta::NameValue(p, lit) => if is_ident(p, PREFIX@) {
            match lit {
                Lit::Str(v) => Ok(Some(v@)),
                _ => Err("`prefix` modifier must contain a string literal"@),
            }
        } else {
            Err(unknown_text("struct"@, p))
        },
        Meta::List(p, _) => if is_ident(p, PREFIX@) {
            Err(usage_text("list"@, PREFIX@, PREFIX_USAGE@))
        } else {
            Err(unknown_text("struct"@, p))
        },
    }
}

/// Applies the modifiers among `entries` in order, skipping bare literals.
pub open spec fn struct_modifiers(s: Option<Seq<char>>, entries: Seq<NestedMeta>) -> Result<Option<Seq<char>>, Seq<char>>
    decreases entries.len(),
{
    if entries.len() == 0 {
        Ok(s)
    } else {
        match struct_modifiers(s, entries.drop_last()) {
            Err(e) => Err(e),
            Ok(g) => match entries.last() {
                NestedMeta::Lit(_) => Ok(g),
                NestedMeta::Meta(m) => struct_modifier(g, m),
            },
        }
    }
}

/// The structure descriptor that the `desenv` attributes of a structure describe.
pub open spec fn struct_of_attrs(attrs: Seq<Attribute>) -> Result<Option<Seq<char>>, Seq<char>> {
    if attrs.len() > 1 {
        Err("cannot have more than one `desenv` attribute per struct"@)
    } else if attrs.len() == 0 {
        Ok(None)
    } else {
        match attrs[0].meta {
            Meta::List(_, entries) => match struct_modifiers(None, entries@) {
                Err(e) => Err(e),
                Ok(s) => match struct_fault(s) {
                    Some(m) => Err(m),
                    None => Ok(s),
                },
            },
            _ => Err("`desenv` struct attribute must be used as list of modifiers"@),
        }
    }
}

fn parse_path(this: &Struct, path: &Path) -> (r: SchemaError)
    ensures
        struct_modifier(this@, Meta::Path(*path)) == Err::<Option<Seq<char>>, Seq<char>>(r@),
{
    if path.is_ident(PREFIX) {
        schema_error_from(usage_error("path", PREFIX, PREFIX_USAGE))
    } else {
        unknown_modifier("struct", path)
    }
}

fn parse_name_value(this: Struct, path: &Path, lit: &Lit) -> (r: Result<Struct, SchemaError>)
    ensures
        struct_result(r) == struct_modifier(this@, Meta::NameValue(*path, *lit)),
{
    let mut this = this;
    if path.is_ident(PREFIX) {
        match lit {
            Lit::Str(v) => this.prefix = Some(v.clone()),
            _ => return Err(schema_error("`prefix` modifier must contain a string literal")),
        }
    } else {
        return Err(unknown_modifier("struct", path));
    }
    Ok(this)
}

fn parse_list(this: &Struct, path: &Path, entries: &Vec<NestedMeta>) -> (r: SchemaError)
    ensures
        struct_modifier(this@, Meta::List(*path, *entries)) == Err::<Option<Seq<char>>, Seq<char>>(r@),
{
    if path.is_ident(PREFIX) {
        schema_error_from(usage_error("list", PREFIX, PREFIX_USAGE))
    } else {
        unknown_modifier("struct", path)
    }
}

/// Once a prefix of the entries is refused, every longer prefix is refused the same way.
proof fn lemma_struct_modifiers_error(s: Option<Seq<char>>, entries: Seq<NestedMeta>, i: int)
    requires
        0 <= i < entries.len(),
        struct_modifiers(s, entries.take(i + 1)) is Err,
    ensures
        struct_modifiers(s, entries) == struct_modifiers(s, entries.take(i + 1)),
    decreases entries.len() - i,
{
    if i + 1 < entries.len() {
        assert(entries.take(i + 2).drop_last() =~= entries.take(i + 1));
        lemma_struct_modifiers_error(s, entries, i + 1);
    } else {
        assert(entries.take(i + 1) =~= entries);
    }
}

impl Struct {
    /// Reads the `desenv` attributes of a structure into a checked structure descriptor.
    pub fn from_attrs(attrs: &[Attribute]) -> (r: Result<Struct, SchemaError>)
        ensures
            struct_result(r) == struct_of_attrs(attrs@),
    {
        if attrs.len() > 1 {
            return Err(schema_error("cannot have more than one `desenv` attribute per struct"));
        }
        if attrs.len() == 0 {
            return Ok(Struct { prefix: None });
        }
        let entries = match &attrs[0].meta {
            Meta::List(_, entries) => entries,
            _ => return Err(schema_error("`desenv` struct attribute must be used as list of modifiers")),
        };
        let ghost es = entries@;
        let mut this = Struct { prefix: None };
        let mut i: usize = 0;
        assert(es.take(0) =~= Seq::<NestedMeta>::empty());
        while i < entries.len()
            invariant
                i <= entries.len(),
                es == entries@,
                attrs@.len() == 1,
                attrs@[0].meta matches Meta::List(_, x) && x@ == es,
                struct_modifiers(None, es.take(i as int)) == Ok::<Option<Seq<char>>, Seq<char>>(this@),
            decreases entries.len() - i,
        {
            assert(es.take(i + 1).drop_last() =~= es.take(i as int));
            assert(es.take(i + 1).last() == es[i as int]);
            match &entries[i] {
                NestedMeta::Lit(_) => {},
                NestedMeta::Meta(meta) => {
                    let ghost before = this@;
                    let next = match meta {
                        Meta::Path(path) => Err(parse_path(&this, path)),
                        Meta::NameValue(path, lit) => parse_name_value(this, path, lit),
                        Meta::List(path, list) => Err(parse_list(&this, path, list)),
                    };
                    match next {
                        Ok(s) => this = s,
                        Err(e) => {
                            proof {
                                assert(struct_modifiers(None, es.take(i + 1))
                                    == struct_modifier(before, *meta));
                                lemma_struct_modifiers_error(None, es, i as int);
                            }
                            return Err(e);
                        },
                    }
                },
            }
            i = i + 1;
        }
        assert(es.take(i as int) =~= es);
        this.validate()
    }

    /// Checks that an explicit prefix is not empty.
    pub fn validate(self) -> (r: Result<Struct, SchemaError>)
        ensures
            match struct_fault(self@) {
                None => r matches Ok(s) && s@ == self@,
                Some(m) => r matches Err(e) && e@ == m,
            },
    {
        if self.prefix.is_some() && self.prefix.as_ref().unwrap().as_str().is_empty() {
            Err(schema_error("`prefix` modifiers must not be empty"))
        } else {
            Ok(self)
        }
    }

    /// The prefix of this structure; empty when none is set.
    pub fn get_prefix(&self) -> (r: String)
        ensures
            r@ == own_prefix(self@),
    {
        match &self.prefix {
            Some(p) => p.clone(),
            None => String::new(),
        }
    }
}

} // verus!
