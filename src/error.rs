use vstd::prelude::*;

verus! {

/// The kind of a load failure, without its payload.
#[derive(Clone, Copy, Debug, PartialEq, Eq, Structural)]
pub enum ErrorKind {
    MissingVar,
    NotUnicodeVar,
    ParseFromStr,
    Custom,
}

/// Everything that can go wrong while loading a configuration.
///
/// - `MissingVar`: the variable could not be found.
/// - `NotUnicodeVar`: the variable exists but its value is not valid unicode text.
/// - `ParseFromStr`: the text of a variable could not be parsed into the field's type;
///   holds the variable's name and the parser's own diagnostic.
/// - `Custom`: a message chosen by the user of this library.
#[derive(Debug)]
pub enum Error {
    MissingVar(String),
    NotUnicodeVar(String),
    ParseFromStr(String, String),
    Custom(String),
}

/// An error as a mathematical value.
pub enum ErrorV {
    MissingVar(Seq<char>),
    NotUnicodeVar(Seq<char>),
    ParseFromStr(Seq<char>, Seq<char>),
    Custom(Seq<char>),
}

impl ErrorV {
    pub open spec fn kind(self) -> ErrorKind {
        match self {
            ErrorV::MissingVar(_) => ErrorKind::MissingVar,
            ErrorV::NotUnicodeVar(_) => ErrorKind::NotUnicodeVar,
            ErrorV::ParseFromStr(_, _) => ErrorKind::ParseFromStr,
            ErrorV::Custom(_) => ErrorKind::Custom,
        }
    }

    /// The name of the variable that the error is about; empty for a custom error.
    pub open spec fn var_name(self) -> Seq<char> {
        match self {
            ErrorV::MissingVar(n) => n,
            ErrorV::NotUnicodeVar(n) => n,
            ErrorV::ParseFromStr(n, _) => n,
            ErrorV::Custom(_) => Seq::empty(),
        }
    }
}

impl View for Error {
    type V = ErrorV;

    open spec fn view(&self) -> ErrorV {
        match self {
            Error::MissingVar(s) => ErrorV::MissingVar(s@),
            Error::NotUnicodeVar(s) => ErrorV::NotUnicodeVar(s@),
            Error::ParseFromStr(n, d) => ErrorV::ParseFromStr(n@, d@),
            Error::Custom(s) => ErrorV::Custom(s@),
        }
    }
}

/// The text shown to a user for an error.
pub open spec fn message_of(e: ErrorV) -> Seq<char> {
    match e {
        ErrorV::MissingVar(n) => "Missing env var `"@ + n + "`"@,
        ErrorV::NotUnicodeVar(n) => "Env var is not unicode `"@ + n + "`"@,
        ErrorV::ParseFromStr(_, d) => "Cannot parse env var: "@ + d,
        ErrorV::Custom(m) => m,
    }
}

impl Error {
    /// The kind of this error.
    pub fn kind(&self) -> (r: ErrorKind)
        ensures
            r == self@.kind(),
    {
        match self {
            Error::MissingVar(_) => ErrorKind::MissingVar,
            Error::NotUnicodeVar(_) => ErrorKind::NotUnicodeVar,
            Error::ParseFromStr(_, _) => ErrorKind::ParseFromStr,
            Error::Custom(_) => ErrorKind::Custom,
        }
    }

    /// The name of the variable that this error is about; empty for a custom error.
    pub fn var_name(&self) -> (r: &str)
        ensures
            r@ == self@.var_name(),
    {
        match self {
            Error::MissingVar(s) => s.as_str(),
            Error::NotUnicodeVar(s) => s.as_str(),
            Error::ParseFromStr(n, _) => n.as_str(),
            Error::Custom(_) => {
                assert(""@ =~= Seq::<char>::empty()) by {
                    reveal_strlit("");
                }
                ""
            },
        }
    }

    /// The text shown to a user for this error.
    pub fn message(&self) -> (r: String)
        ensures
            r@ == message_of(self@),
    {
        match self {
            Error::MissingVar(s) => {
                let mut m = "Missing env var `".to_owned();
                m.append(s.as_str());
                m.append("`");
                m
            },
            Error::NotUnicodeVar(s) => {
                let mut m = "Env var is not unicode `".to_owned();
                m.append(s.as_str());
                m.append("`");
                m
            },
            Error::ParseFromStr(_, d) => {
                let mut m = "Cannot parse env var: ".to_owned();
                m.append(d.as_str());
                m
            },
            Error::Custom(s) => s.clone(),
        }
    }
}

} // verus!
