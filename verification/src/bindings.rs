//! What an interpreter is given to call, and the record that is shown to it.

use vstd::prelude::*;
use vstd::string::*;
use crate::text::{decimal, decimal_text};

verus! {

/// Why a sum could not be written.
#[derive(Clone, Copy, Debug, PartialEq, Eq, Structural)]
pub enum SumError {
    /// The sum does not fit a `usize`.
    Overflow,
}

/// The sum of `a` and `b` as a decimal numeral, where the sum fits a `usize`.
pub fn sum_as_string(a: usize, b: usize) -> (text: Result<String, SumError>)
    ensures
        match text {
            Ok(text) => a + b <= usize::MAX && text@ == decimal((a + b) as nat),
            Err(error) => a + b > usize::MAX && error == SumError::Overflow,
        },
{
    match a.checked_add(b) {
        Some(sum) => Ok(decimal_text(sum as u64)),
        None => Err(SumError::Overflow),
    }
}

/// A user, as it is shown to the interpreter.
#[derive(Debug)]
pub struct UserData {
    pub id: u32,
    pub name: String,
}

impl UserData {
    /// How the interpreter prints the user.
    pub open spec fn repr_text(self) -> Seq<char> {
        "User "@ + self.name@ + "(id: "@ + decimal(self.id as nat) + ")"@
    }

    /// The user's number and a copy of the user's name.
    pub fn as_tuple(&self) -> (pair: (u32, String))
        ensures
            pair.0 == self.id,
            pair.1@ == self.name@,
    {
        (self.id, self.name.clone())
    }

    /// The text the interpreter prints for the user.
    pub fn repr(&self) -> (text: String)
        ensures
            text@ == self.repr_text(),
    {
        let id = decimal_text(self.id as u64);
        String::from_str("User ").concat(self.name.as_str()).concat("(id: ").concat(
            id.as_str(),
        ).concat(")")
    }
}

} // verus!
