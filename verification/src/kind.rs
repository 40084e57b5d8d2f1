//! The members of the sensor family, and their names.

use vstd::prelude::*;

verus! {

/// The members of the sensor family.
#[derive(Clone, Copy, Debug, PartialEq, Eq, Structural)]
#[non_exhaustive]
pub enum SensorKind {
    Sen50,
    Sen54,
    Sen55,
}

/// A string without the white space at its two ends, as `str::trim` gives it.
pub uninterp spec fn trimmed(s: Seq<char>) -> Seq<char>;

/// An upper-case ASCII letter turned into lower case; any other character as
/// it is.
pub open spec fn ascii_lower(c: char) -> char {
    if 0x41 <= c as u32 && c as u32 <= 0x5a {
        ((c as u32) + 0x20) as char
    } else {
        c
    }
}

/// Whether two strings are the same but for the case of ASCII letters.
pub open spec fn same_ignoring_ascii_case(a: Seq<char>, b: Seq<char>) -> bool {
    &&& a.len() == b.len()
    &&& forall|i: int| 0 <= i < a.len() ==> ascii_lower(#[trigger] a[i]) == ascii_lower(b[i])
}

/// The sensor that a name stands for, in any case of letters.
pub open spec fn kind_named(name: Seq<char>) -> Option<SensorKind> {
    if same_ignoring_ascii_case(name, "SEN50"@) {
        Some(SensorKind::Sen50)
    } else if same_ignoring_ascii_case(name, "SEN54"@) {
        Some(SensorKind::Sen54)
    } else if same_ignoring_ascii_case(name, "SEN55"@) {
        Some(SensorKind::Sen55)
    } else {
        None
    }
}

/// Calls `str::trim`.
///
/// Trusted: the result depends on the string alone; [`trimmed`] is its name.
#[verifier::external_body]
fn trim(s: &str) -> (r: &str)
    ensures
        r@ == trimmed(s@),
{
    s.trim()
}

/// Calls `str::eq_ignore_ascii_case`.
///
/// Trusted: the two strings match when they are equal after every ASCII
/// upper-case letter in them has been turned into lower case.
#[verifier::external_body]
fn eq_ignore_ascii_case(a: &str, b: &str) -> (r: bool)
    ensures
        r == same_ignoring_ascii_case(a@, b@),
{
    a.eq_ignore_ascii_case(b)
}

impl SensorKind {
    /// The sensor that `name` stands for: `SEN50`, `SEN54` or `SEN55`, in
    /// any case of letters and with nothing around it.
    pub fn from_name(name: &str) -> (r: Result<Self, &'static str>)
        ensures
            match kind_named(name@) {
                Some(kind) => r == Ok::<Self, &'static str>(kind),
                None => r is Err && r->Err_0@
                    == "expected one of \"SEN50\", \"SEN54\", or \"SEN55\""@,
            },
    {
        if eq_ignore_ascii_case(name, "SEN50") {
            Ok(SensorKind::Sen50)
        } else if eq_ignore_ascii_case(name, "SEN54") {
            Ok(SensorKind::Sen54)
        } else if eq_ignore_ascii_case(name, "SEN55") {
            Ok(SensorKind::Sen55)
        } else {
            Err("expected one of \"SEN50\", \"SEN54\", or \"SEN55\"")
        }
    }

    /// The sensor that `s` names once the white space around the name is
    /// taken off.
    pub fn parse(s: &str) -> (r: Result<Self, &'static str>)
        ensures
            match kind_named(trimmed(s@)) {
                Some(kind) => r == Ok::<Self, &'static str>(kind),
                None => r is Err && r->Err_0@
                    == "expected one of \"SEN50\", \"SEN54\", or \"SEN55\""@,
            },
    {
        Self::from_name(trim(s))
    }
}

impl core::str::FromStr for SensorKind {
    type Err = &'static str;

    /// The sensor that `s` names once the white space around the name is
    /// taken off; what [`SensorKind::parse`] gives.
    fn from_str(s: &str) -> (r: Result<Self, Self::Err>)
        ensures
            match kind_named(trimmed(s@)) {
                Some(kind) => r == Ok::<Self, &'static str>(kind),
                None => r is Err && r->Err_0@
                    == "expected one of \"SEN50\", \"SEN54\", or \"SEN55\""@,
            },
    {
        Self::parse(s)
    }
}

} // verus!
