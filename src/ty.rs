use vstd::prelude::*;
use vstd::string::StrSliceExecFns;

verus! {

/// The kind of value a leaf field holds, told by the text of its type.
#[derive(Clone, Copy, Debug, PartialEq, Eq, Structural)]
pub enum Type {
    /// Raw bytes, taken as they are.
    OsString,
    /// A value that may be absent.
    Option,
    /// A sequence of values split out of one text.
    Vector,
    /// A value parsed from text.
    Other,
}

pub open spec fn starts_with(s: Seq<char>, p: Seq<char>) -> bool {
    p.len() <= s.len() && s.take(p.len() as int) == p
}

/// The kind of a field whose type is written `t` (tokens separated by single spaces).
pub open spec fn type_of(t: Seq<char>) -> Type {
    if t == "OsString"@ {
        Type::OsString
    } else if starts_with(t, "Option <"@) {
        Type::Option
    } else if starts_with(t, "Vec < "@) {
        Type::Vector
    } else {
        Type::Other
    }
}

fn has_prefix(s: &str, p: &str) -> (r: bool)
    ensures
        r == starts_with(s@, p@),
{
    let n = s.unicode_len();
    let m = p.unicode_len();
    if m > n {
        return false;
    }
    let mut i: usize = 0;
    while i < m
        invariant
            m == p@.len(),
            n == s@.len(),
            m <= n,
            i <= m,
            s@.take(i as int) == p@.take(i as int),
        decreases m - i,
    {
        if s.get_char(i) != p.get_char(i) {
            assert(s@.take(m as int)[i as int] != p@[i as int]);
            return false;
        }
        assert(s@.take(i + 1) =~= s@.take(i as int).push(s@[i as int]));
        assert(p@.take(i + 1) =~= p@.take(i as int).push(p@[i as int]));
        i = i + 1;
    }
    assert(p@.take(m as int) =~= p@);
    true
}

impl Type {
    /// The kind of a field whose type is written `ty`.
    pub fn from_field(ty: &str) -> (r: Type)
        ensures
            r == type_of(ty@),
    {
        let t = ty.to_owned();
        if t == "OsString".to_owned() {
            Type::OsString
        } else if has_prefix(ty, "Option <") {
            Type::Option
        } else if has_prefix(ty, "Vec < ") {
            Type::Vector
        } else {
            Type::Other
        }
    }
}

} // verus!
