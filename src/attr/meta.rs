//! The raw form of `desenv` attributes, as a parser of Rust syntax hands them over.
use vstd::prelude::*;

verus! {

/// A path in an attribute; `ident` is set when the path is a single identifier.
pub struct Path {
    pub ident: Option<String>,
}

/// Whether `p` is the single identifier `name`.
pub open spec fn is_ident(p: Path, name: Seq<char>) -> bool {
    p.ident matches Some(i) && i@ == name
}

impl Path {
    /// A path made of one identifier.
    pub fn from_ident(name: &str) -> (r: Path)
        ensures
            r.ident matches Some(i) && i@ == name@,
    {
        Path { ident: Some(name.to_owned()) }
    }

    /// Whether this path is the single identifier `name`.
    pub fn is_ident(&self, name: &str) -> (r: bool)
        ensures
            r == is_ident(*self, name@),
    {
        match &self.ident {
            Some(i) => {
                let n = name.to_owned();
                *i == n
            },
            None => false,
        }
    }
}

/// A literal in an attribute.
pub enum Lit {
    Str(String),
    Char(char),
    /// Any other literal: a number, a boolean, a byte string.
    Other,
}

/// One item of an attribute: `name`, `name = literal` or `name(items)`.
pub enum Meta {
    Path(Path),
    NameValue(Path, Lit),
    List(Path, Vec<NestedMeta>),
}

/// An entry of a list: an item or a bare literal.
pub enum NestedMeta {
    Meta(Meta),
    Lit(Lit),
}

/// An attribute whose contents have been read as a [`Meta`].
pub struct Attribute {
    pub path: Path,
    pub meta: Meta,
}

/// A violated schema rule, found before any variable is read.
#[derive(Debug)]
pub struct SchemaError {
    pub message: String,
}

impl View for SchemaError {
    type V = Seq<char>;

    open spec fn view(&self) -> Seq<char> {
        self.message@
    }
}

pub fn schema_error(message: &str) -> (r: SchemaError)
    ensures
        r@ == message@,
{
    SchemaError { message: message.to_owned() }
}

pub fn schema_error_from(message: String) -> (r: SchemaError)
    ensures
        r@ == message@,
{
    SchemaError { message }
}

/// The message for a modifier written in a form it does not take.
pub open spec fn usage_text(ty: Seq<char>, modifier: Seq<char>, usage: Seq<char>) -> Seq<char> {
    "`"@ + modifier + "` modifier cannot be used as "@ + ty + ". Usage: `"@ + usage + "`"@
}

/// The message for a modifier given a literal of the wrong kind.
pub open spec fn lit_text(ty: Seq<char>, modifier: Seq<char>, usage: Seq<char>) -> Seq<char> {
    "`"@ + modifier + "` modifier must contain a "@ + ty + " literal. Usage: `"@ + usage + "`"@
}

/// Builds the message for a modifier written in a form it does not take.
pub fn usage_error(ty: &str, modifier: &str, usage: &str) -> (r: String)
    ensures
        r@ == usage_text(ty@, modifier@, usage@),
{
    let mut r = "`".to_owned();
    r.append(modifier);
    r.append("` modifier cannot be used as ");
    r.append(ty);
    r.append(". Usage: `");
    r.append(usage);
    r.append("`");
    r
}

/// Builds the message for a modifier given a literal of the wrong kind.
pub fn lit_error(ty: &str, modifier: &str, usage: &str) -> (r: String)
    ensures
        r@ == lit_text(ty@, modifier@, usage@),
{
    let mut r = "`".to_owned();
    r.append(modifier);
    r.append("` modifier must contain a ");
    r.append(ty);
    r.append(" literal. Usage: `");
    r.append(usage);
    r.append("`");
    r
}

/// The message for a modifier that `owner` ("field" or "struct") does not know.
pub open spec fn unknown_text(owner: Seq<char>, p: Path) -> Seq<char> {
    match p.ident {
        Some(name) => "unknown "@ + owner + " attribute modifier `"@ + name@ + "`"@,
        None => "unknown "@ + owner + " attribute modifier"@,
    }
}

/// Builds the error for a modifier that `owner` ("field" or "struct") does not know.
pub fn unknown_modifier(owner: &str, p: &Path) -> (r: SchemaError)
    ensures
        r@ == unknown_text(owner@, *p),
{
    let mut r = "unknown ".to_owned();
    r.append(owner);
    match &p.ident {
        Some(name) => {
            r.append(" attribute modifier `");
            r.append(name.as_str());
            r.append("`");
        },
        None => {
            r.append(" attribute modifier");
        },
    }
    SchemaError { message: r }
}


/// The attributes of `attrs` that belong to this library, in order.
pub open spec fn own_attrs(attrs: Seq<Attribute>) -> Seq<Attribute>
    decreases attrs.len(),
{
    if attrs.len() == 0 {
        attrs
    } else if is_ident(attrs.last().path, "desenv"@) {
        own_attrs(attrs.drop_last()).push(attrs.last())
    } else {
        own_attrs(attrs.drop_last())
    }
}

/// Drops the attributes that belong to other derives, so that they cannot be mistaken for
/// this library's modifiers.
pub trait DeriveAttributeFilter: Sized {
    /// Whether `after` is what filtering leaves of `before`.
    spec fn filtered(before: Self, after: Self) -> bool;

    /// Removes any attribute that is not a `desenv` attribute.
    fn retain_attrs(&mut self)
        ensures
            Self::filtered(*old(self), *final(self)),
    ;
}

impl DeriveAttributeFilter for Vec<Attribute> {
    open spec fn filtered(before: Vec<Attribute>, after: Vec<Attribute>) -> bool {
        after@ == own_attrs(before@)
    }

    fn retain_attrs(&mut self) {
        let ghost start = self@;
        let mut kept: Vec<Attribute> = Vec::new();
        let mut rest: Vec<Attribute> = Vec::new();
        std::mem::swap(self, &mut rest);
        assert(start.take(0) =~= Seq::<Attribute>::empty());
        let mut i: usize = 0;
        let n = rest.len();
        assert(start.len() == n);
        assert(start.skip(0) =~= start);
        while rest.len() > 0
            invariant
                rest@ == start.skip(i as int),
                i <= start.len(),
                rest.len() + i == start.len(),
                start.len() <= usize::MAX,
                kept@ == own_attrs(start.take(i as int)),
            decreases rest.len(),
        {
            let a = rest.remove(0);
            assert(start.take(i + 1).drop_last() =~= start.take(i as int));
            assert(start.take(i + 1).last() == start[i as int]);
            assert(rest@ =~= start.skip(i + 1));
            let keep = a.path.is_ident("desenv");
            if keep {
                kept.push(a);
            }
            i = i + 1;
        }
        assert(start.take(i as int) =~= start);
        *self = kept;
    }
}

} // verus!
