//! Variable names and the leaf resolution protocol: where a field's text comes from and
//! how it becomes a value.
use vstd::prelude::*;
use vstd::string::StrSliceExecFns;

use crate::attr::field::{opt_default, opt_text, DefaultV, Field, FieldV};
use crate::attr::structure::{own_prefix, Struct};
use crate::env::{bytes_of, entry_of, lookup_of, Env, EnvV, EnvValueV, Lookup, LookupV};
use crate::error::{Error, ErrorV};
use crate::parse::FromEnvStr;

verus! {

/// The separator of a collection field that sets none.
pub const DEFAULT_SEPARATOR: char = ',';

/// A result as a mathematical value.
pub open spec fn outcome<T: DeepView>(r: Result<T, Error>) -> Result<T::V, ErrorV> {
    match r {
        Ok(v) => Ok(v.deep_view()),
        Err(e) => Err(e@),
    }
}

/// The upper-case form of a text, as std's `str::to_uppercase` computes it.
pub uninterp spec fn upper_of(s: Seq<char>) -> Seq<char>;

/// Relies on `str::to_uppercase`: the result depends on the characters alone.
#[verifier::external_body]
fn to_uppercase(s: &str) -> (r: String)
    ensures
        r@ == upper_of(s@),
{
    s.to_uppercase()
}

/// The prefix in force inside a structure: the one inherited from the enclosing
/// structure (none for the root) followed by the structure's own.
pub open spec fn effective_prefix(parent: Option<Seq<char>>, own: Option<Seq<char>>) -> Seq<char> {
    match parent {
        Some(p) => p + own_prefix(own),
        None => own_prefix(own),
    }
}

/// The name a leaf field contributes after the prefixes: its rename, else its identifier
/// in upper case.
pub open spec fn leaf_name(field_name: Seq<char>, f: FieldV) -> Seq<char> {
    match f.rename {
        Some(r) => r,
        None => upper_of(field_name),
    }
}

/// The variable that a leaf field reads: the effective prefix, then the rename if one is
/// set, else the field's identifier in upper case.
pub open spec fn var_name_of(field_name: Seq<char>, prefix: Seq<char>, f: FieldV) -> Seq<char> {
    prefix + leaf_name(field_name, f)
}

/// Computes the prefix in force inside a structure with modifiers `s`, entered with the
/// prefix `parent_prefix`.
pub fn current_prefix(parent_prefix: &Option<String>, s: &Struct) -> (r: String)
    ensures
        r@ == effective_prefix(opt_text(*parent_prefix), s@),
{
    let own = s.get_prefix();
    match parent_prefix {
        Some(p) => {
            let mut r = p.clone();
            r.append(own.as_str());
            r
        },
        None => own,
    }
}

/// Computes the variable that a leaf field named `field_name` reads under `prefix`.
pub fn var_name(field_name: &str, prefix: &str, field: &Field) -> (r: String)
    ensures
        r@ == var_name_of(field_name@, prefix@, field@),
{
    let mut r = prefix.to_owned();
    match &field.rename {
        Some(rename) => r.append(rename.as_str()),
        None => {
            let upper = to_uppercase(field_name);
            r.append(upper.as_str());
        },
    }
    r
}

/// Where the text of a field comes from, once its default policy has been applied.
pub enum SourceV {
    /// This text is to be parsed.
    Text(Seq<char>),
    /// The zero value of the field's type is used, with no parsing.
    Zero,
}

/// Applies the default policy `default` to the lookup of `name`.
pub open spec fn source_of(env: EnvV, name: Seq<char>, default: Option<DefaultV>) -> Result<SourceV, ErrorV> {
    match lookup_of(env, name) {
        LookupV::Present(t) => Ok(SourceV::Text(t)),
        LookupV::NotUnicode => match default {
            Some(DefaultV::Std) => Ok(SourceV::Zero),
            _ => Err(ErrorV::NotUnicodeVar(name)),
        },
        LookupV::Absent => match default {
            None => Err(ErrorV::MissingVar(name)),
            Some(DefaultV::Std) => Ok(SourceV::Zero),
            Some(DefaultV::Value(v)) => Ok(SourceV::Text(v)),
            Some(DefaultV::Env(alt)) => match lookup_of(env, alt) {
                LookupV::Present(t) => Ok(SourceV::Text(t)),
                LookupV::Absent => Err(ErrorV::MissingVar(alt)),
                LookupV::NotUnicode => Err(ErrorV::NotUnicodeVar(alt)),
            },
        },
    }
}

/// Parses `text`, read for the variable `name`, as a `T`.
pub open spec fn parse_outcome<T: FromEnvStr>(name: Seq<char>, text: Seq<char>) -> Result<T::V, ErrorV> {
    match T::parse_spec(text) {
        Ok(v) => Ok(v),
        Err(d) => Err(ErrorV::ParseFromStr(name, d)),
    }
}

/// What a scalar field of type `T` reading `name` resolves to.
pub open spec fn scalar_of<T: FromEnvStr>(env: EnvV, name: Seq<char>, default: Option<DefaultV>) -> Result<T::V, ErrorV> {
    match source_of(env, name, default) {
        Err(e) => Err(e),
        Ok(SourceV::Zero) => Ok(T::zero_spec()),
        Ok(SourceV::Text(t)) => parse_outcome::<T>(name, t),
    }
}

/// What an optional field of type `Option<T>` reading `name` resolves to: nothing when
/// the variable is absent and no default is set, else the scalar rule wrapped in `Some`.
pub open spec fn optional_of<T: FromEnvStr>(env: EnvV, name: Seq<char>, default: Option<DefaultV>) -> Result<Option<T::V>, ErrorV> {
    if lookup_of(env, name) is Absent && default is None {
        Ok(None)
    } else {
        match scalar_of::<T>(env, name, default) {
            Ok(v) => Ok(Some(v)),
            Err(e) => Err(e),
        }
    }
}

pub open spec fn separator_of(f: FieldV) -> char {
    match f.separator {
        Some(c) => c,
        None => DEFAULT_SEPARATOR,
    }
}

/// What a collection field of type `Vec<T>` reading `name` resolves to.
pub open spec fn collection_of<T: FromEnvStr>(env: EnvV, name: Seq<char>, default: Option<DefaultV>, sep: char) -> Result<Seq<T::V>, ErrorV> {
    match source_of(env, name, default) {
        Err(e) => Err(e),
        Ok(SourceV::Zero) => Ok(Seq::empty()),
        Ok(SourceV::Text(t)) => parse_pieces::<T>(split_on(t, sep), name),
    }
}

/// What a raw-bytes field reading `name` resolves to.
pub open spec fn raw_of(env: EnvV, name: Seq<char>) -> Result<Seq<u8>, ErrorV> {
    match entry_of(env, name) {
        Some(v) => Ok(bytes_of(v)),
        None => Err(ErrorV::MissingVar(name)),
    }
}

/// The pieces of `s` between occurrences of `sep`, in order; one piece when `sep` does
/// not occur.
pub open spec fn split_on(s: Seq<char>, sep: char) -> Seq<Seq<char>>
    decreases s.len(),
{
    if s.len() == 0 {
        seq![Seq::empty()]
    } else {
        let prev = split_on(s.drop_last(), sep);
        if s.last() == sep {
            prev.push(Seq::empty())
        } else {
            prev.update(prev.len() - 1, prev.last().push(s.last()))
        }
    }
}

/// Whether `c` has the Unicode `White_Space` property.
pub open spec fn is_white_space(c: char) -> bool {
    ('\u{9}' <= c && c <= '\u{d}') || c == ' ' || c == '\u{85}' || c == '\u{a0}'
        || c == '\u{1680}' || ('\u{2000}' <= c && c <= '\u{200a}') || c == '\u{2028}'
        || c == '\u{2029}' || c == '\u{202f}' || c == '\u{205f}' || c == '\u{3000}'
}

pub open spec fn trim_start_spec(s: Seq<char>) -> Seq<char>
    decreases s.len(),
{
    if s.len() > 0 && is_white_space(s[0]) {
        trim_start_spec(s.skip(1))
    } else {
        s
    }
}

pub open spec fn trim_end_spec(s: Seq<char>) -> Seq<char>
    decreases s.len(),
{
    if s.len() > 0 && is_white_space(s.last()) {
        trim_end_spec(s.drop_last())
    } else {
        s
    }
}

/// `s` without its leading and trailing white space.
pub open spec fn trim_spec(s: Seq<char>) -> Seq<char> {
    trim_end_spec(trim_start_spec(s))
}

/// Relies on `str::trim`: removes leading and trailing `White_Space` characters.
#[verifier::external_body]
fn trim(s: &str) -> (r: &str)
    ensures
        r@ == trim_spec(s@),
{
    s.trim()
}

/// Trims each piece, drops the empty ones and parses the rest as `T`, in order; the first
/// piece that does not parse decides the error.
pub open spec fn parse_pieces<T: FromEnvStr>(ps: Seq<Seq<char>>, name: Seq<char>) -> Result<Seq<T::V>, ErrorV>
    decreases ps.len(),
{
    if ps.len() == 0 {
        Ok(Seq::empty())
    } else {
        match parse_pieces::<T>(ps.drop_last(), name) {
            Err(e) => Err(e),
            Ok(vs) => {
                let t = trim_spec(ps.last());
                if t.len() == 0 {
                    Ok(vs)
                } else {
                    match parse_outcome::<T>(name, t) {
                        Ok(v) => Ok(vs.push(v)),
                        Err(e) => Err(e),
                    }
                }
            },
        }
    }
}


/// Reads the text of `name` under the default policy `default`: `None` stands for the
/// zero value.
fn fetch(env: &Env, name: &str, default: &Option<crate::attr::field::Default>) -> (r: Result<Option<String>, Error>)
    ensures
        match source_of(env@, name@, opt_default(*default)) {
            Ok(SourceV::Zero) => r matches Ok(None),
            Ok(SourceV::Text(t)) => r matches Ok(Some(s)) && s@ == t,
            Err(e) => r matches Err(x) && x@ == e,
        },
{
    match env.lookup(name) {
        Lookup::Present(t) => Ok(Some(t)),
        Lookup::NotUnicode => match default {
            Some(crate::attr::field::Default::Std) => Ok(None),
            _ => Err(Error::NotUnicodeVar(name.to_owned())),
        },
        Lookup::Absent => match default {
            None => Err(Error::MissingVar(name.to_owned())),
            Some(crate::attr::field::Default::Std) => Ok(None),
            Some(crate::attr::field::Default::Value(v)) => Ok(Some(v.clone())),
            Some(crate::attr::field::Default::Env(alt)) => match env.lookup(alt.as_str()) {
                Lookup::Present(t) => Ok(Some(t)),
                Lookup::Absent => Err(Error::MissingVar(alt.clone())),
                Lookup::NotUnicode => Err(Error::NotUnicodeVar(alt.clone())),
            },
        },
    }
}

/// Parses `text`, read for the variable `name`, as a `T`.
pub fn parse_as<T: FromEnvStr>(name: &str, text: &str) -> (r: Result<T, Error>)
    ensures
        outcome(r) == parse_outcome::<T>(name@, text@),
{
    match T::parse_env(text) {
        Ok(v) => Ok(v),
        Err(d) => Err(Error::ParseFromStr(name.to_owned(), d)),
    }
}

/// Resolves a scalar field that reads the variable `name`.
pub fn var<T: FromEnvStr>(env: &Env, name: &str, field: &Field) -> (r: Result<T, Error>)
    ensures
        outcome(r) == scalar_of::<T>(env@, name@, field@.default),
{
    match fetch(env, name, &field.default) {
        Err(e) => Err(e),
        Ok(None) => Ok(T::zero()),
        Ok(Some(t)) => parse_as::<T>(name, t.as_str()),
    }
}

/// Resolves an optional field that reads the variable `name`.
pub fn var_opt<T: FromEnvStr>(env: &Env, name: &str, field: &Field) -> (r: Result<Option<T>, Error>)
    ensures
        outcome(r) == optional_of::<T>(env@, name@, field@.default),
{
    if field.default.is_none() && matches!(env.lookup(name), Lookup::Absent) {
        return Ok(None);
    }
    match var::<T>(env, name, field) {
        Ok(v) => Ok(Some(v)),
        Err(e) => Err(e),
    }
}

/// Resolves a raw-bytes field that reads the variable `name`: its bytes whether or not
/// they are valid text.
pub fn var_os(env: &Env, name: &str) -> (r: Result<Vec<u8>, Error>)
    ensures
        match raw_of(env@, name@) {
            Ok(b) => r matches Ok(v) && v@ == b,
            Err(e) => r matches Err(x) && x@ == e,
        },
{
    match env.lookup_bytes(name) {
        Some(b) => Ok(b),
        None => Err(Error::MissingVar(name.to_owned())),
    }
}

/// Splits `s` at each occurrence of `sep`.
pub fn split_text(s: &str, sep: char) -> (r: Vec<String>)
    ensures
        r@.map_values(|p: String| p@) == split_on(s@, sep),
{
    let n = s.unicode_len();
    let mut pieces: Vec<String> = Vec::new();
    let mut start: usize = 0;
    let mut i: usize = 0;
    assert(s@.take(0) =~= Seq::<char>::empty());
    assert(s@.subrange(0, 0) =~= Seq::<char>::empty());
    assert(pieces@.map_values(|p: String| p@) =~= Seq::<Seq<char>>::empty());
    while i < n
        invariant
            n == s@.len(),
            start <= i <= n,
            split_on(s@.take(i as int), sep) =~= pieces@.map_values(|p: String| p@).push(
                s@.subrange(start as int, i as int),
            ),
        decreases n - i,
    {
        let c = s.get_char(i);
        let ghost before = pieces@.map_values(|p: String| p@);
        let ghost prev = split_on(s@.take(i as int), sep);
        assert(s@.take(i + 1).drop_last() =~= s@.take(i as int));
        assert(s@.take(i + 1).last() == c);
        assert(split_on(s@.take(i + 1), sep) == if c == sep {
            prev.push(Seq::empty())
        } else {
            prev.update(prev.len() - 1, prev.last().push(c))
        });
        if c == sep {
            let piece = s.substring_char(start, i).to_owned();
            pieces.push(piece);
            assert(pieces@.map_values(|p: String| p@) =~= before.push(s@.subrange(start as int, i as int)));
            start = i + 1;
            assert(s@.subrange(i + 1, i + 1) =~= Seq::<char>::empty());
        } else {
            assert(s@.subrange(start as int, i + 1) =~= s@.subrange(start as int, i as int).push(c));
            assert(prev.update(prev.len() - 1, prev.last().push(c)) =~= before.push(
                s@.subrange(start as int, i + 1),
            ));
        }
        i = i + 1;
    }
    let ghost before = pieces@.map_values(|p: String| p@);
    let last = s.substring_char(start, n).to_owned();
    pieces.push(last);
    assert(s@.take(n as int) =~= s@);
    assert(pieces@.map_values(|p: String| p@) =~= before.push(s@.subrange(start as int, n as int)));
    pieces
}

/// Trims each piece, drops the empty ones and parses the rest as `T`, in order.
pub fn parse_all<T: FromEnvStr>(name: &str, pieces: &Vec<String>) -> (r: Result<Vec<T>, Error>)
    ensures
        outcome(r) == parse_pieces::<T>(pieces@.map_values(|p: String| p@), name@),
{
    let ghost ps = pieces@.map_values(|p: String| p@);
    let mut out: Vec<T> = Vec::new();
    let mut i: usize = 0;
    assert(out.deep_view() =~= Seq::<T::V>::empty());
    while i < pieces.len()
        invariant
            i <= pieces.len(),
            ps == pieces@.map_values(|p: String| p@),
            parse_pieces::<T>(ps.take(i as int), name@) == Ok::<Seq<T::V>, ErrorV>(out.deep_view()),
        decreases pieces.len() - i,
    {
        assert(ps.take(i + 1).drop_last() =~= ps.take(i as int));
        assert(ps.take(i + 1).last() == pieces@[i as int]@);
        let t = trim(pieces[i].as_str());
        if t.unicode_len() != 0 {
            match parse_as::<T>(name, t) {
                Ok(v) => {
                    let ghost before = out.deep_view();
                    out.push(v);
                    assert(out.deep_view() =~= before.push(v.deep_view()));
                },
                Err(e) => {
                    proof {
                        lemma_parse_pieces_error::<T>(ps, name@, i as int);
                    }
                    return Err(e);
                },
            }
        }
        i = i + 1;
    }
    assert(ps.take(i as int) =~= ps);
    Ok(out)
}

/// Once a prefix of the pieces fails, every longer prefix fails the same way.
proof fn lemma_parse_pieces_error<T: FromEnvStr>(ps: Seq<Seq<char>>, name: Seq<char>, i: int)
    requires
        0 <= i < ps.len(),
        parse_pieces::<T>(ps.take(i + 1), name) is Err,
    ensures
        parse_pieces::<T>(ps, name) == parse_pieces::<T>(ps.take(i + 1), name),
    decreases ps.len() - i,
{
    if i + 1 < ps.len() {
        assert(ps.take(i + 2).drop_last() =~= ps.take(i + 1));
        lemma_parse_pieces_error::<T>(ps, name, i + 1);
    } else {
        assert(ps.take(i + 1) =~= ps);
    }
}

/// Resolves a collection field that reads the variable `name`.
pub fn var_vec<T: FromEnvStr>(env: &Env, name: &str, field: &Field) -> (r: Result<Vec<T>, Error>)
    ensures
        outcome(r) == collection_of::<T>(env@, name@, field@.default, separator_of(field@)),
{
    let separator = match field.separator {
        Some(c) => c,
        None => DEFAULT_SEPARATOR,
    };
    match fetch(env, name, &field.default) {
        Err(e) => Err(e),
        Ok(None) => {
            let out: Vec<T> = Vec::new();
            assert(out.deep_view() =~= Seq::<T::V>::empty());
            Ok(out)
        },
        Ok(Some(t)) => {
            let pieces = split_text(t.as_str(), separator);
            parse_all::<T>(name, &pieces)
        },
    }
}


/// In a structure with no prefix, entered as the root, a field reads its upper-cased
/// identifier, or exactly its rename when one is set.
pub proof fn name_without_prefix(field_name: Seq<char>, own: Option<Seq<char>>, f: FieldV)
    requires
        own_prefix(own).len() == 0,
    ensures
        var_name_of(field_name, effective_prefix(None, own), f) == match f.rename {
            Some(r) => r,
            None => upper_of(field_name),
        },
{
    let name = var_name_of(field_name, effective_prefix(None, own), f);
    assert(name =~= leaf_name(field_name, f));
}

/// The prefix in force after entering the structures whose own prefixes are `owns`, one
/// inside the other, starting from `parent`.
pub open spec fn nest(parent: Option<Seq<char>>, owns: Seq<Option<Seq<char>>>) -> Option<Seq<char>>
    decreases owns.len(),
{
    if owns.len() == 0 {
        parent
    } else {
        Some(effective_prefix(nest(parent, owns.drop_last()), owns.last()))
    }
}

/// The own prefixes of `owns`, one after the other.
pub open spec fn joined(owns: Seq<Option<Seq<char>>>) -> Seq<char>
    decreases owns.len(),
{
    if owns.len() == 0 {
        Seq::empty()
    } else {
        joined(owns.drop_last()) + own_prefix(owns.last())
    }
}

pub open spec fn base(parent: Option<Seq<char>>) -> Seq<char> {
    match parent {
        Some(p) => p,
        None => Seq::empty(),
    }
}

/// Entering nested structures composes their prefixes by concatenation, whatever the depth:
/// the prefix in force is the parent's followed by every own prefix on the way, in order.
pub proof fn nested_prefixes_concatenate(parent: Option<Seq<char>>, owns: Seq<Option<Seq<char>>>)
    requires
        owns.len() > 0,
    ensures
        nest(parent, owns) == Some(base(parent) + joined(owns)),
    decreases owns.len(),
{
    if owns.len() == 1 {
        assert(owns.drop_last() =~= Seq::<Option<Seq<char>>>::empty());
        assert(base(parent) + joined(owns) =~= effective_prefix(parent, owns.last()));
    } else {
        nested_prefixes_concatenate(parent, owns.drop_last());
        assert(base(parent) + joined(owns) =~= base(parent) + joined(owns.drop_last()) + own_prefix(owns.last()));
    }
}

/// Joining the prefixes of two runs of nested structures is joining each run and
/// concatenating: how the nesting is grouped does not matter.
pub proof fn joined_prefixes_associate(a: Seq<Option<Seq<char>>>, b: Seq<Option<Seq<char>>>)
    ensures
        joined(a + b) == joined(a) + joined(b),
    decreases b.len(),
{
    if b.len() == 0 {
        assert(a + b =~= a);
        assert(joined(a) + joined(b) =~= joined(a));
    } else {
        assert((a + b).drop_last() =~= a + b.drop_last());
        joined_prefixes_associate(a, b.drop_last());
        assert(joined(a) + joined(b) =~= joined(a) + joined(b.drop_last()) + own_prefix(b.last()));
    }
}

/// A leaf field of a nested structure reads the outer effective prefix, then the inner
/// structure's own prefix, then the field's name.
pub proof fn nested_field_name(
    outer: Option<Seq<char>>,
    outer_own: Option<Seq<char>>,
    inner_own: Option<Seq<char>>,
    field_name: Seq<char>,
    f: FieldV,
)
    ensures
        var_name_of(field_name, effective_prefix(Some(effective_prefix(outer, outer_own)), inner_own), f)
            == effective_prefix(outer, outer_own) + own_prefix(inner_own) + leaf_name(field_name, f),
{
    assert(var_name_of(field_name, effective_prefix(Some(effective_prefix(outer, outer_own)), inner_own), f)
        =~= effective_prefix(outer, outer_own) + own_prefix(inner_own) + leaf_name(field_name, f));
}

/// A collection field with the `Standard` default whose variable is not there as text
/// resolves to the empty sequence, never to an error.
pub proof fn standard_collection_without_var<T: FromEnvStr>(env: EnvV, name: Seq<char>, sep: char)
    requires
        !(lookup_of(env, name) is Present),
    ensures
        collection_of::<T>(env, name, Some(DefaultV::Std), sep) == Ok::<Seq<T::V>, ErrorV>(Seq::empty()),
{
}

/// With a literal default `v`, an absent variable resolves exactly as if it were set to `v`,
/// for scalar, optional and collection fields alike.
pub proof fn literal_default_as_if_set<T: FromEnvStr>(env: EnvV, name: Seq<char>, v: Seq<char>, sep: char)
    requires
        lookup_of(env, name) is Absent,
    ensures
        scalar_of::<T>(env, name, Some(DefaultV::Value(v)))
            == scalar_of::<T>(env.push((name, EnvValueV::Text(v))), name, Some(DefaultV::Value(v))),
        optional_of::<T>(env, name, Some(DefaultV::Value(v)))
            == optional_of::<T>(env.push((name, EnvValueV::Text(v))), name, Some(DefaultV::Value(v))),
        collection_of::<T>(env, name, Some(DefaultV::Value(v)), sep)
            == collection_of::<T>(env.push((name, EnvValueV::Text(v))), name, Some(DefaultV::Value(v)), sep),
{
    let set = env.push((name, EnvValueV::Text(v)));
    assert(set.drop_last() =~= env);
    assert(lookup_of(set, name) == LookupV::Present(v));
}

/// With the default `FromEnv(alt)`, when both the variable and `alt` are absent the error
/// names `alt`, not the variable, for scalar, optional and collection fields alike.
pub proof fn fallback_missing_names_fallback<T: FromEnvStr>(env: EnvV, name: Seq<char>, alt: Seq<char>, sep: char)
    requires
        lookup_of(env, name) is Absent,
        lookup_of(env, alt) is Absent,
    ensures
        scalar_of::<T>(env, name, Some(DefaultV::Env(alt))) == Err::<T::V, ErrorV>(ErrorV::MissingVar(alt)),
        optional_of::<T>(env, name, Some(DefaultV::Env(alt))) == Err::<Option<T::V>, ErrorV>(ErrorV::MissingVar(alt)),
        collection_of::<T>(env, name, Some(DefaultV::Env(alt)), sep) == Err::<Seq<T::V>, ErrorV>(ErrorV::MissingVar(alt)),
{
}

/// Parsing a collection keeps the order of its pieces: the pieces of `a` followed by those
/// of `b` give the values of `a` followed by those of `b`.
pub proof fn collection_keeps_order<T: FromEnvStr>(a: Seq<Seq<char>>, b: Seq<Seq<char>>, name: Seq<char>)
    requires
        parse_pieces::<T>(a, name) is Ok,
        parse_pieces::<T>(b, name) is Ok,
    ensures
        parse_pieces::<T>(a + b, name)
            == Ok::<Seq<T::V>, ErrorV>(parse_pieces::<T>(a, name)->Ok_0 + parse_pieces::<T>(b, name)->Ok_0),
    decreases b.len(),
{
    if b.len() == 0 {
        assert(a + b =~= a);
        assert(parse_pieces::<T>(a, name)->Ok_0 + parse_pieces::<T>(b, name)->Ok_0
            =~= parse_pieces::<T>(a, name)->Ok_0);
    } else {
        assert((a + b).drop_last() =~= a + b.drop_last());
        assert((a + b).last() == b.last());
        collection_keeps_order::<T>(a, b.drop_last(), name);
        let va = parse_pieces::<T>(a, name)->Ok_0;
        let vb = parse_pieces::<T>(b.drop_last(), name)->Ok_0;
        let t = trim_spec(b.last());
        if t.len() != 0 {
            let v = parse_outcome::<T>(name, t)->Ok_0;
            assert(va + vb.push(v) =~= (va + vb).push(v));
        }
    }
}

/// White space around the pieces of a collection does not matter: pieces that trim to the
/// same texts parse to the same result.
pub proof fn collection_ignores_white_space<T: FromEnvStr>(a: Seq<Seq<char>>, b: Seq<Seq<char>>, name: Seq<char>)
    requires
        a.len() == b.len(),
        forall|i: int| 0 <= i < a.len() ==> trim_spec(#[trigger] a[i]) == trim_spec(b[i]),
    ensures
        parse_pieces::<T>(a, name) == parse_pieces::<T>(b, name),
    decreases a.len(),
{
    if a.len() > 0 {
        assert(trim_spec(a[a.len() - 1]) == trim_spec(b[b.len() - 1]));
        collection_ignores_white_space::<T>(a.drop_last(), b.drop_last(), name);
    }
}

} // verus!
