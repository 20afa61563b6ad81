use vstd::prelude::*;
use vstd::string::StrSliceExecFns;
use vstd::utf8::encode_utf8;

verus! {

/// The value of one variable: valid unicode text, or raw bytes that are not.
pub enum EnvValue {
    Text(String),
    NotUnicode(Vec<u8>),
}

/// A variable's value as a mathematical value.
pub enum EnvValueV {
    Text(Seq<char>),
    NotUnicode(Seq<u8>),
}

impl View for EnvValue {
    type V = EnvValueV;

    open spec fn view(&self) -> EnvValueV {
        match self {
            EnvValue::Text(s) => EnvValueV::Text(s@),
            EnvValue::NotUnicode(b) => EnvValueV::NotUnicode(b@),
        }
    }
}

/// The outcome of looking a name up.
pub enum Lookup {
    Present(String),
    Absent,
    NotUnicode,
}

/// The outcome of a lookup as a mathematical value.
pub enum LookupV {
    Present(Seq<char>),
    Absent,
    NotUnicode,
}

impl View for Lookup {
    type V = LookupV;

    open spec fn view(&self) -> LookupV {
        match self {
            Lookup::Present(s) => LookupV::Present(s@),
            Lookup::Absent => LookupV::Absent,
            Lookup::NotUnicode => LookupV::NotUnicode,
        }
    }
}

/// The environment as a mathematical value: its entries in the order they were set.
pub type EnvV = Seq<(Seq<char>, EnvValueV)>;

/// A snapshot of environment variables: the only source that loading reads.
///
/// Setting a name that is already there shadows the earlier value.
pub struct Env {
    vars: Vec<(String, EnvValue)>,
}

impl View for Env {
    type V = EnvV;

    closed spec fn view(&self) -> EnvV {
        self.vars@.map_values(|e: (String, EnvValue)| (e.0@, e.1@))
    }
}

/// The value that `name` has in `env`, if any: the last one set.
pub open spec fn entry_of(env: EnvV, name: Seq<char>) -> Option<EnvValueV>
    decreases env.len(),
{
    if env.len() == 0 {
        None
    } else if env.last().0 == name {
        Some(env.last().1)
    } else {
        entry_of(env.drop_last(), name)
    }
}

/// What looking `name` up in `env` yields.
pub open spec fn lookup_of(env: EnvV, name: Seq<char>) -> LookupV {
    match entry_of(env, name) {
        None => LookupV::Absent,
        Some(EnvValueV::Text(t)) => LookupV::Present(t),
        Some(EnvValueV::NotUnicode(_)) => LookupV::NotUnicode,
    }
}

/// The bytes of a value: those of its text, or the raw ones.
pub open spec fn bytes_of(v: EnvValueV) -> Seq<u8> {
    match v {
        EnvValueV::Text(t) => encode_utf8(t),
        EnvValueV::NotUnicode(b) => b,
    }
}


impl Env {
    /// An environment with no variable set.
    pub fn new() -> (r: Env)
        ensures
            r@ == Seq::<(Seq<char>, EnvValueV)>::empty(),
    {
        let r = Env { vars: Vec::new() };
        assert(r@ =~= Seq::<(Seq<char>, EnvValueV)>::empty());
        r
    }

    /// Sets `name` to `value`.
    pub fn set(&mut self, name: &str, value: &str)
        ensures
            final(self)@ == old(self)@.push((name@, EnvValueV::Text(value@))),
    {
        self.set_value(name, EnvValue::Text(value.to_owned()));
    }

    /// Sets `name` to a value that is not valid unicode text.
    pub fn set_not_unicode(&mut self, name: &str, bytes: Vec<u8>)
        ensures
            final(self)@ == old(self)@.push((name@, EnvValueV::NotUnicode(bytes@))),
    {
        self.set_value(name, EnvValue::NotUnicode(bytes));
    }

    /// Sets `name` to `value`.
    pub fn set_value(&mut self, name: &str, value: EnvValue)
        ensures
            final(self)@ == old(self)@.push((name@, value@)),
    {
        self.vars.push((name.to_owned(), value));
        assert(self@ =~= old(self)@.push((name@, value@)));
    }

    /// Looks `name` up.
    pub fn lookup(&self, name: &str) -> (r: Lookup)
        ensures
            r@ == lookup_of(self@, name@),
    {
        match self.find(name) {
            None => Lookup::Absent,
            Some(EnvValue::Text(t)) => Lookup::Present(t.clone()),
            Some(EnvValue::NotUnicode(_)) => Lookup::NotUnicode,
        }
    }

    /// The raw bytes of `name`'s value, whether it is valid text or not.
    pub fn lookup_bytes(&self, name: &str) -> (r: Option<Vec<u8>>)
        ensures
            match entry_of(self@, name@) {
                None => r is None,
                Some(v) => r is Some && r->Some_0@ == bytes_of(v),
            },
    {
        match self.find(name) {
            None => None,
            Some(EnvValue::Text(t)) => {
                let b = t.as_str().as_bytes_vec();
                Some(b)
            },
            Some(EnvValue::NotUnicode(b)) => Some(b.clone()),
        }
    }

    fn find(&self, name: &str) -> (r: Option<&EnvValue>)
        ensures
            match entry_of(self@, name@) {
                None => r is None,
                Some(v) => r is Some && r->Some_0@ == v,
            },
    {
        let key: String = name.to_owned();
        let mut i: usize = self.vars.len();
        assert(self@.take(i as int) =~= self@);
        while i > 0
            invariant
                i <= self.vars.len(),
                self@.len() == self.vars.len(),
                key@ == name@,
                entry_of(self@, name@) == entry_of(self@.take(i as int), name@),
            decreases i,
        {
            let ghost prefix = self@.take(i as int);
            assert(prefix.drop_last() =~= self@.take(i - 1));
            assert(prefix.last() == (self.vars@[i - 1].0@, self.vars@[i - 1].1@));
            if self.vars[i - 1].0 == key {
                return Some(&self.vars[i - 1].1);
            }
            i = i - 1;
        }
        None
    }
}

} // verus!
