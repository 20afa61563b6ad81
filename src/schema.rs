//! Checks a whole configuration declaration before anything is loaded: the declaration must
//! be a structure with named fields, and the modifiers of the structure and of every field
//! must be valid for the field's kind of value.
use vstd::prelude::*;

use crate::attr::field::{field_of_attrs, kind_fault, opt_text, Field, FieldV};
use crate::attr::meta::{own_attrs, schema_error, Attribute, SchemaError};
use crate::attr::structure::{struct_of_attrs, Struct};
use crate::attr::DeriveAttributeFilter;
use crate::ty::{type_of, Type};

verus! {

/// One field as declared: its identifier (none in a tuple structure), its type written
/// out, and its attributes.
pub struct FieldDecl {
    pub ident: Option<String>,
    pub ty: String,
    pub attrs: Vec<Attribute>,
}

/// The fields of a structure.
pub enum Fields {
    Named(Vec<FieldDecl>),
    Unnamed(Vec<FieldDecl>),
    Unit,
}

/// What a declaration is.
pub enum Data {
    Struct(Fields),
    Enum,
    Union,
}

/// A declaration that a configuration type is derived from.
pub struct DeriveInput {
    pub attrs: Vec<Attribute>,
    pub data: Data,
}

/// How one field is to be loaded.
pub struct FieldPlan {
    pub ident: Option<String>,
    pub field: Field,
    pub ty: Type,
}

pub struct FieldPlanV {
    pub ident: Option<Seq<char>>,
    pub field: FieldV,
    pub ty: Type,
}

impl View for FieldPlan {
    type V = FieldPlanV;

    open spec fn view(&self) -> FieldPlanV {
        FieldPlanV { ident: opt_text(self.ident), field: self.field@, ty: self.ty }
    }
}

/// A checked declaration: the structure's modifiers and one plan per field, in order.
pub struct Schema {
    pub attrs: Struct,
    pub fields: Vec<FieldPlan>,
}

pub open spec fn plans_view(ps: Seq<FieldPlan>) -> Seq<FieldPlanV> {
    ps.map_values(|p: FieldPlan| p@)
}

/// The plan for one declared field. A nested field only needs valid modifiers; a leaf
/// field also needs modifiers that suit its kind of value, and an identifier to name
/// its variable after.
pub open spec fn plan_of(d: FieldDecl) -> Result<FieldPlanV, Seq<char>> {
    match field_of_attrs(d.attrs@) {
        Err(e) => Err(e),
        Ok(f) => if !f.nested && kind_fault(f, type_of(d.ty@)) is Some {
            Err(kind_fault(f, type_of(d.ty@))->Some_0)
        } else if !f.nested && d.ident is None {
            Err("failed to stringify identity"@)
        } else {
            Ok(FieldPlanV { ident: opt_text(d.ident), field: f, ty: type_of(d.ty@) })
        },
    }
}

/// The plans for the declared fields, in order; the first refused field decides the error.
pub open spec fn plans_of(ds: Seq<FieldDecl>) -> Result<Seq<FieldPlanV>, Seq<char>>
    decreases ds.len(),
{
    if ds.len() == 0 {
        Ok(Seq::empty())
    } else {
        match plans_of(ds.drop_last()) {
            Err(e) => Err(e),
            Ok(ps) => match plan_of(ds.last()) {
                Err(e) => Err(e),
                Ok(p) => Ok(ps.push(p)),
            },
        }
    }
}

/// What checking a declaration yields: the structure's prefix and the field plans.
pub open spec fn schema_of(input: DeriveInput) -> Result<(Option<Seq<char>>, Seq<FieldPlanV>), Seq<char>> {
    match input.data {
        Data::Struct(Fields::Named(ds)) => match struct_of_attrs(input.attrs@) {
            Err(e) => Err(e),
            Ok(s) => match plans_of(ds@) {
                Err(e) => Err(e),
                Ok(ps) => Ok((s, ps)),
            },
        },
        Data::Struct(_) => Err("desenv could be derived only on structs with named fields"@),
        _ => Err("desenv could be derived only on non-tuple struct types"@),
    }
}

pub open spec fn schema_result(r: Result<Schema, SchemaError>) -> Result<(Option<Seq<char>>, Seq<FieldPlanV>), Seq<char>> {
    match r {
        Ok(s) => Ok((s.attrs@, plans_view(s.fields@))),
        Err(e) => Err(e@),
    }
}

/// Checks one declared field.
pub fn expand_field(d: &FieldDecl) -> (r: Result<FieldPlan, SchemaError>)
    ensures
        match plan_of(*d) {
            Ok(p) => r matches Ok(x) && x@ == p,
            Err(m) => r matches Err(e) && e@ == m,
        },
{
    let field = match Field::from_attrs(d.attrs.as_slice()) {
        Ok(f) => f,
        Err(e) => return Err(e),
    };
    let ty = Type::from_field(d.ty.as_str());
    if !field.nested {
        match field.check_kind(ty) {
            Ok(()) => {},
            Err(e) => return Err(e),
        }
        if d.ident.is_none() {
            return Err(schema_error("failed to stringify identity"));
        }
    }
    let ident = match &d.ident {
        Some(i) => Some(i.clone()),
        None => None,
    };
    Ok(FieldPlan { ident, field, ty })
}

/// Once a prefix of the fields is refused, every longer prefix is refused the same way.
proof fn lemma_plans_error(ds: Seq<FieldDecl>, i: int)
    requires
        0 <= i < ds.len(),
        plans_of(ds.take(i + 1)) is Err,
    ensures
        plans_of(ds) == plans_of(ds.take(i + 1)),
    decreases ds.len() - i,
{
    if i + 1 < ds.len() {
        assert(ds.take(i + 2).drop_last() =~= ds.take(i + 1));
        lemma_plans_error(ds, i + 1);
    } else {
        assert(ds.take(i + 1) =~= ds);
    }
}

/// Checks every declared field, in order.
pub fn expand_fields(ds: &Vec<FieldDecl>) -> (r: Result<Vec<FieldPlan>, SchemaError>)
    ensures
        match plans_of(ds@) {
            Ok(ps) => r matches Ok(x) && plans_view(x@) == ps,
            Err(m) => r matches Err(e) && e@ == m,
        },
{
    let mut out: Vec<FieldPlan> = Vec::new();
    let mut i: usize = 0;
    assert(ds@.take(0) =~= Seq::<FieldDecl>::empty());
    assert(plans_view(out@) =~= Seq::<FieldPlanV>::empty());
    while i < ds.len()
        invariant
            i <= ds.len(),
            plans_of(ds@.take(i as int)) == Ok::<Seq<FieldPlanV>, Seq<char>>(plans_view(out@)),
        decreases ds.len() - i,
    {
        assert(ds@.take(i + 1).drop_last() =~= ds@.take(i as int));
        assert(ds@.take(i + 1).last() == ds@[i as int]);
        match expand_field(&ds[i]) {
            Ok(p) => {
                let ghost before = plans_view(out@);
                out.push(p);
                assert(plans_view(out@) =~= before.push(p@));
            },
            Err(e) => {
                proof {
                    lemma_plans_error(ds@, i as int);
                }
                return Err(e);
            },
        }
        i = i + 1;
    }
    assert(ds@.take(i as int) =~= ds@);
    Ok(out)
}

/// Checks a whole declaration: what it is, the structure's modifiers, then each field.
pub fn desenv(input: &DeriveInput) -> (r: Result<Schema, SchemaError>)
    ensures
        schema_result(r) == schema_of(*input),
{
    match &input.data {
        Data::Struct(Fields::Named(ds)) => {
            let attrs = match Struct::from_attrs(input.attrs.as_slice()) {
                Ok(s) => s,
                Err(e) => return Err(e),
            };
            match expand_fields(ds) {
                Ok(fields) => Ok(Schema { attrs, fields }),
                Err(e) => Err(e),
            }
        },
        Data::Struct(_) => Err(schema_error("desenv could be derived only on structs with named fields")),
        _ => Err(schema_error("desenv could be derived only on non-tuple struct types")),
    }
}


/// Whether the fields `after` are the fields `before` with only their own attributes kept.
pub open spec fn decls_filtered(before: Seq<FieldDecl>, after: Seq<FieldDecl>) -> bool {
    &&& after.len() == before.len()
    &&& forall|i: int| #![trigger after[i]] 0 <= i < before.len() ==> {
        &&& after[i].ident == before[i].ident
        &&& after[i].ty == before[i].ty
        &&& after[i].attrs@ == own_attrs(before[i].attrs@)
    }
}

/// Keeps only the library's own attributes on each field.
fn retain_field_attrs(ds: &mut Vec<FieldDecl>)
    ensures
        decls_filtered(old(ds)@, final(ds)@),
{
    let ghost start = ds@;
    let mut rest: Vec<FieldDecl> = Vec::new();
    std::mem::swap(ds, &mut rest);
    let mut out: Vec<FieldDecl> = Vec::new();
    let n = rest.len();
    assert(start.len() == n);
    assert(start.skip(0) =~= start);
    let mut i: usize = 0;
    while rest.len() > 0
        invariant
            rest@ == start.skip(i as int),
            rest.len() + i == start.len(),
            start.len() <= usize::MAX,
            decls_filtered(start.take(i as int), out@),
        decreases rest.len(),
    {
        let mut d = rest.remove(0);
        assert(rest@ =~= start.skip(i + 1));
        d.attrs.retain_attrs();
        let ghost before = out@;
        out.push(d);
        assert forall|k: int| 0 <= k < i + 1 implies {
            &&& #[trigger] out@[k].ident == start.take(i + 1)[k].ident
            &&& out@[k].ty == start.take(i + 1)[k].ty
            &&& out@[k].attrs@ == own_attrs(start.take(i + 1)[k].attrs@)
        } by {
            if k < i {
                assert(out@[k] == before[k]);
                assert(start.take(i + 1)[k] == start.take(i as int)[k]);
            }
        }
        i = i + 1;
    }
    assert(start.take(i as int) =~= start);
    *ds = out;
}

impl DeriveAttributeFilter for DeriveInput {
    open spec fn filtered(before: DeriveInput, after: DeriveInput) -> bool {
        &&& after.attrs@ == own_attrs(before.attrs@)
        &&& match (before.data, after.data) {
            (Data::Struct(Fields::Named(b)), Data::Struct(Fields::Named(a))) => decls_filtered(b@, a@),
            (Data::Struct(Fields::Unnamed(b)), Data::Struct(Fields::Unnamed(a))) => decls_filtered(b@, a@),
            (Data::Struct(Fields::Unit), Data::Struct(Fields::Unit)) => true,
            (Data::Enum, Data::Enum) => true,
            (Data::Union, Data::Union) => true,
            _ => false,
        }
    }

    fn retain_attrs(&mut self) {
        self.attrs.retain_attrs();
        let mut data = Data::Enum;
        std::mem::swap(&mut self.data, &mut data);
        let data = match data {
            Data::Struct(Fields::Named(mut ds)) => {
                retain_field_attrs(&mut ds);
                Data::Struct(Fields::Named(ds))
            },
            Data::Struct(Fields::Unnamed(mut ds)) => {
                retain_field_attrs(&mut ds);
                Data::Struct(Fields::Unnamed(ds))
            },
            other => other,
        };
        self.data = data;
    }
}

} // verus!
