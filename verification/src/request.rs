//! Requests over HTTP from a computer, authenticated with a lichess API key. The HTTP
//! client (`reqwest` on `tokio`) is the program's; this module holds the requester's data.
use vstd::prelude::*;
use crate::text::join_text;

verus! {

broadcast use vstd::string::group_string_axioms;

/// A requester that authenticates with an API key.
#[derive(Debug)]
pub struct Request {
    pub api_key: String,
}

impl Request {
    pub fn new(api_key: String) -> (r: Request)
        ensures
            r.api_key@ == api_key@,
    {
        Request { api_key }
    }

    /// The value of the `Authorization` header: `Bearer ` and the key.
    pub fn authorization(&self) -> (r: String)
        ensures
            r@ == "Bearer "@ + self.api_key@,
    {
        join_text("Bearer ", self.api_key.as_str())
    }
}

} // verus!
