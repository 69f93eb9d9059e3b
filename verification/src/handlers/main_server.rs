//! The routes of the main listener.

use vstd::prelude::*;
use vstd::string::*;
use crate::handlers::{hello_answer, TextResponse, OK};

verus! {

/// Greets the caller. Serves as the health check of the main listener.
pub fn hello() -> (r: TextResponse)
    ensures
        r@ == hello_answer(),
{
    TextResponse {
        status: OK,
        content_type: String::from_str("text/plain; charset=utf-8"),
        body: String::from_str("Hello world!"),
    }
}

} // verus!
