//! Starting a search of the network.
use vstd::prelude::*;
use crate::message::server_requests::FileSearch;

verus! {

/// Calls `rand::random::<u32>()`. Trusted for nothing: the token may be any
/// `u32`.
#[verifier::external_body]
fn random_token() -> u32 {
    rand::random::<u32>()
}

/// A search for `query` under a fresh random token, by which its answers
/// will be recognised.
pub fn new_file_search(query: String) -> (search: FileSearch)
    ensures
        search.query@ == query@,
{
    let token = random_token();
    FileSearch { token, query }
}

} // verus!
