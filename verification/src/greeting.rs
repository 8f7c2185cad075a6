//! Greeting phrases: a plain hello and an uppercasing variant that
//! rejects a name the transform would leave unchanged.

use vstd::prelude::*;

use crate::text::make_uppercase;
use crate::text::spec_upper;
use crate::text::str_eq;

verus! {

/// A failure of the library, reported to the caller as a displayable
/// message rather than a panic.
#[derive(Debug)]
pub enum LibraryError {
    /// The uppercasing transform was asked to greet a name it cannot
    /// change; the name is carried along for the message.
    Uppercase(String),
}

/// The message text of the uppercase failure for `name`.
pub open spec fn spec_uppercase_error(name: Seq<char>) -> Seq<char> {
    "The name "@ + name + " is already uppercase."@
}

/// The message text of `e`.
pub open spec fn spec_error_message(e: LibraryError) -> Seq<char> {
    match e {
        LibraryError::Uppercase(n) => spec_uppercase_error(n@),
    }
}

impl LibraryError {
    /// Renders the error as a display string.
    pub fn message(&self) -> (r: String)
        ensures
            r@ == spec_error_message(*self),
    {
        match self {
            LibraryError::Uppercase(n) => {
                let mut s = String::from_str("The name ");
                s.append(n.as_str());
                s.append(" is already uppercase.");
                s
            },
        }
    }
}

/// The greeting phrase for `name`.
pub open spec fn spec_hello_phrase(name: Seq<char>) -> Seq<char> {
    "Hello "@ + name + "!"@
}

/// Formats the greeting phrase for `greet_name`.
pub fn format_hello_phrase(greet_name: &str) -> (r: String)
    ensures
        r@ == spec_hello_phrase(greet_name@),
{
    let mut s = String::from_str("Hello ");
    s.append(greet_name);
    s.append("!");
    s
}

/// Formats the greeting phrase for the uppercased `greet_name`.  The
/// transform refuses a name that uppercasing leaves unchanged (one with no
/// ASCII lowercase letter in it) and reports that name in the error.
pub fn format_upper_hello_phrase(greet_name: &str) -> (r: Result<String, LibraryError>)
    ensures
        spec_upper(greet_name@) != greet_name@ ==> (r matches Ok(p) && p@ == spec_hello_phrase(
            spec_upper(greet_name@),
        )),
        spec_upper(greet_name@) == greet_name@ ==> (r matches Err(e) && e matches LibraryError::Uppercase(n) && n@ == greet_name@),
{
    let upper = make_uppercase(greet_name);
    if str_eq(upper.as_str(), greet_name) {
        Err(LibraryError::Uppercase(String::from_str(greet_name)))
    } else {
        Ok(format_hello_phrase(upper.as_str()))
    }
}

} // verus!
