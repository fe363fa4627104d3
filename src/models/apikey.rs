//! API keys of the account.
use vstd::prelude::*;

verus! {

/// An API key and the roles it grants.
#[derive(Debug, Clone)]
pub struct APIKey {
    pub id: i64,
    pub key: String,
    pub roles: Vec<String>,
}

} // verus!
