use vstd::prelude::*;
use crate::error::Error;

verus! {

/// How an interactive widget finished.
#[derive(Debug, PartialEq, Eq, Structural)]
pub enum Activation {
    /// The user chose the item, button or choice at this zero-based index.
    Selected(usize),
    /// The user left the widget without choosing.
    Cancelled,
}

/// What CDK's raw activation code means: `-1` is a cancellation, any other
/// negative value is an error, and a non-negative value is the chosen index.
pub open spec fn activation_result(value: i32) -> Result<Activation, Error> {
    if value == -1 {
        Ok(Activation::Cancelled)
    } else if value >= 0 {
        Ok(Activation::Selected(value as usize))
    } else {
        Err(Error::InvalidActivation(value))
    }
}

/// The raw code CDK uses for an activation.
pub open spec fn activation_code(a: Activation) -> int {
    match a {
        Activation::Selected(index) => index as int,
        Activation::Cancelled => -1,
    }
}

/// Decodes CDK's raw activation code.
pub fn activation(value: i32) -> (r: Result<Activation, Error>)
    ensures
        r == activation_result(value),
{
    if value == -1 {
        Ok(Activation::Cancelled)
    } else if value >= 0 {
        Ok(Activation::Selected(value as usize))
    } else {
        Err(Error::InvalidActivation(value))
    }
}

/// Every activation whose index fits in a C `int` is decoded from its own code.
pub proof fn lemma_activation_decodes_its_code(a: Activation)
    requires
        a matches Activation::Selected(index) ==> index <= i32::MAX,
    ensures
        activation_result(activation_code(a) as i32) == Ok::<Activation, Error>(a),
{
}

/// A decoded activation has the code it was decoded from, so no two codes give the same activation.
pub proof fn lemma_activation_code_is_recovered(value: i32)
    ensures
        activation_result(value) matches Ok(a) ==> activation_code(a) == value,
        activation_result(value) is Err <==> value < -1,
{
}

/// Decodes the status a CDK setter returns: a negative status is an error.
pub fn check_status(status: i32) -> (r: Result<(), Error>)
    ensures
        status >= 0 ==> r == Ok::<(), Error>(()),
        status < 0 ==> r == Err::<(), Error>(Error::InvalidActivation(status)),
{
    if status < 0 {
        Err(Error::InvalidActivation(status))
    } else {
        Ok(())
    }
}

/// Decodes whether CDK returned an object: a null pointer is an error that names the object.
pub fn check_handle(non_null: bool, name: &'static str) -> (r: Result<(), Error>)
    ensures
        non_null ==> r == Ok::<(), Error>(()),
        !non_null ==> r == Err::<(), Error>(Error::NullHandle(name)),
{
    if non_null {
        Ok(())
    } else {
        Err(Error::NullHandle(name))
    }
}

} // verus!
