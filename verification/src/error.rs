//! The ways in which a menu call can fail.

use std::string::FromUtf8Error;
use vstd::prelude::*;
use vstd::string::StringExecFns;

verus! {

/// The menu answered with a text that stands for none of the items it was
/// given. This is also what a cancelled menu looks like.
#[derive(PartialEq, PartialOrd, Ord, Eq, Debug)]
pub struct ItemNotFoundError;

impl Clone for ItemNotFoundError {
    fn clone(&self) -> (copy: Self)
        ensures
            copy == *self,
    {
        ItemNotFoundError
    }
}

impl ItemNotFoundError {
    /// The sentence that describes this error.
    pub fn message(&self) -> (text: String)
        ensures
            text@ == "The returned item by DMenu is not found in the original set"@,
    {
        String::from_str("The returned item by DMenu is not found in the original set")
    }
}

/// Why a menu call gave no result.
#[derive(PartialEq, Eq, Debug)]
pub enum ExecuteError<E> {
    /// The shell could not be started; the value is the caller's own account
    /// of that.
    Launch(E),
    /// The menu wrote bytes that are not valid UTF-8.
    Decode(FromUtf8Error),
    /// The menu wrote a text that no item stands behind.
    NotFound(ItemNotFoundError),
}

} // verus!
