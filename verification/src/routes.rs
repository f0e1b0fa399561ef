//! The one route whose behavior is a constant: the root informational
//! endpoint greets with a fixed welcome message.

use vstd::prelude::*;
use vstd::string::StringExecFns;

verus! {

/// The message of the root endpoint's `{"message": ...}` body.
pub fn root_message() -> (msg: String)
    ensures
        msg@ == "Welcome to the RESTful API"@,
{
    String::from_str("Welcome to the RESTful API")
}

} // verus!
