//! Contact-area data shapes and the contact search query encoding.

use vstd::prelude::*;
use crate::resources::shared::User;

verus! {

/// Parameters for searching contacts.
#[derive(Debug, Clone)]
pub struct ContactSearchParams {
    pub account_id: String,
    pub query: String,
}

impl ContactSearchParams {
    /// The query pairs of a contact search, in declaration order.
    pub open spec fn spec_query_pairs(self) -> Seq<(Seq<char>, Seq<char>)> {
        seq![("accountID"@, self.account_id@), ("query"@, self.query@)]
    }

    /// Encode these parameters as ordered query pairs.
    pub fn query_pairs(&self) -> (r: Vec<(String, String)>)
        ensures
            r.deep_view() == self.spec_query_pairs(),
    {
        let mut r: Vec<(String, String)> = Vec::new();
        r.push((String::from_str("accountID"), self.account_id.clone()));
        r.push((String::from_str("query"), self.query.clone()));
        proof {
            assert(r.deep_view() =~~= self.spec_query_pairs());
        }
        r
    }
}

/// The response from searching contacts.
#[derive(Debug, Clone)]
pub struct ContactSearchResponse {
    pub items: Vec<User>,
}

} // verus!
