use vstd::prelude::*;

verus! {

/// A type whose values can be read from the text of an environment variable.
///
/// `parse_spec` says what parsing a text yields: the value, or the parser's diagnostic;
/// `zero_spec` is the value that the `Standard` default policy produces.
pub trait FromEnvStr: Sized + DeepView {
    spec fn parse_spec(s: Seq<char>) -> Result<Self::V, Seq<char>>;

    spec fn zero_spec() -> Self::V;

    fn parse_env(s: &str) -> (r: Result<Self, String>)
        ensures
            match r {
                Ok(v) => Self::parse_spec(s@) == Ok::<Self::V, Seq<char>>(v.deep_view()),
                Err(d) => Self::parse_spec(s@) == Err::<Self::V, Seq<char>>(d@),
            },
    ;

    fn zero() -> (r: Self)
        ensures
            r.deep_view() == Self::zero_spec(),
    ;
}

impl FromEnvStr for String {
    open spec fn parse_spec(s: Seq<char>) -> Result<Seq<char>, Seq<char>> {
        Ok(s)
    }

    open spec fn zero_spec() -> Seq<char> {
        Seq::empty()
    }

    fn parse_env(s: &str) -> (r: Result<String, String>) {
        Ok(s.to_owned())
    }

    fn zero() -> (r: String) {
        String::new()
    }
}

/// The diagnostic that std's `bool` parser gives for a text it rejects.
pub uninterp spec fn bool_error_text(s: Seq<char>) -> Seq<char>;

/// Relies on `<bool as FromStr>::from_str`: it accepts exactly `true` and `false`; the
/// debug rendering of its error is the diagnostic.
#[verifier::external_body]
fn parse_bool(s: &str) -> (r: Result<bool, String>)
    ensures
        match r {
            Ok(b) => (s@ == "true"@ && b) || (s@ == "false"@ && !b),
            Err(d) => s@ != "true"@ && s@ != "false"@ && d@ == bool_error_text(s@),
        },
{
    match s.parse::<bool>() {
        Ok(b) => Ok(b),
        Err(e) => Err(format!("{:?}", e)),
    }
}

impl FromEnvStr for bool {
    open spec fn parse_spec(s: Seq<char>) -> Result<bool, Seq<char>> {
        if s == "true"@ {
            Ok(true)
        } else if s == "false"@ {
            Ok(false)
        } else {
            Err(bool_error_text(s))
        }
    }

    open spec fn zero_spec() -> bool {
        false
    }

    fn parse_env(s: &str) -> (r: Result<bool, String>) {
        proof {
            reveal_strlit("true");
            reveal_strlit("false");
            assert("true"@.len() != "false"@.len());
        }
        parse_bool(s)
    }

    fn zero() -> (r: bool) {
        false
    }
}

pub open spec fn is_digit(c: char) -> bool {
    '0' <= c && c <= '9'
}

/// The number that a non-empty run of decimal digits denotes.
pub open spec fn digits_value(s: Seq<char>) -> int
    decreases s.len(),
{
    if s.len() == 0 {
        0
    } else {
        10 * digits_value(s.drop_last()) + (s.last() as int - '0' as int)
    }
}

pub open spec fn all_digits(s: Seq<char>) -> bool {
    s.len() > 0 && forall|i: int| 0 <= i < s.len() ==> is_digit(#[trigger] s[i])
}

/// The integer that a decimal text denotes: an optional `+` or `-` sign followed by
/// one or more digits, and nothing else.
pub open spec fn decimal_of(s: Seq<char>) -> Option<int> {
    if s.len() > 0 && (s[0] == '+' || s[0] == '-') {
        if all_digits(s.skip(1)) {
            Some(if s[0] == '-' { -digits_value(s.skip(1)) } else { digits_value(s.skip(1)) })
        } else {
            None
        }
    } else if all_digits(s) {
        Some(digits_value(s))
    } else {
        None
    }
}

/// The diagnostic that std's `i32` parser gives for a text it rejects.
pub uninterp spec fn i32_error_text(s: Seq<char>) -> Seq<char>;

/// Relies on `<i32 as FromStr>::from_str`: it accepts a decimal text whose value fits in
/// `i32`; the debug rendering of its error is the diagnostic.
#[verifier::external_body]
fn parse_i32(s: &str) -> (r: Result<i32, String>)
    ensures
        match r {
            Ok(v) => decimal_of(s@) == Some(v as int),
            Err(d) => !(decimal_of(s@) matches Some(n) && i32::MIN <= n <= i32::MAX)
                && d@ == i32_error_text(s@),
        },
{
    match s.parse::<i32>() {
        Ok(v) => Ok(v),
        Err(e) => Err(format!("{:?}", e)),
    }
}

impl FromEnvStr for i32 {
    open spec fn parse_spec(s: Seq<char>) -> Result<i32, Seq<char>> {
        match decimal_of(s) {
            Some(n) if i32::MIN <= n <= i32::MAX => Ok(n as i32),
            _ => Err(i32_error_text(s)),
        }
    }

    open spec fn zero_spec() -> i32 {
        0
    }

    fn parse_env(s: &str) -> (r: Result<i32, String>) {
        parse_i32(s)
    }

    fn zero() -> (r: i32) {
        0
    }
}

} // verus!
