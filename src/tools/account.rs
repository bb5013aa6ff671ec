//! The account operation: who the token belongs to.
use vstd::prelude::*;

use crate::args::{arg_chars, push_lit};

verus! {

/// Request parameters for the current-user operation.
#[derive(Debug, Clone, PartialEq, Eq)]
pub struct GetMeRequest {
    /// The account to use (e.g. "home", "work"); the default account if not given.
    pub account: Option<String>,
}

impl GetMeRequest {
    pub open spec fn arg_list(&self) -> Seq<Seq<char>> {
        seq!["api"@, "user"@]
    }

    /// The arguments for `gh`.
    pub fn args(&self) -> (r: Vec<String>)
        ensures
            arg_chars(r) == self.arg_list(),
    {
        let mut a: Vec<String> = Vec::new();
        push_lit(&mut a, "api");
        push_lit(&mut a, "user");
        a
    }
}

} // verus!
