//! What the client reports to its user.
use vstd::prelude::*;

verus! {

/// A file found by a search, and the user who shares it.
#[derive(Debug)]
pub struct SearchResultItem {
    pub username: String,
    pub filename: String,
}

/// The content of a `SearchResultItem`.
pub struct SearchResultItemView {
    pub username: Seq<char>,
    pub filename: Seq<char>,
}

impl View for SearchResultItem {
    type V = SearchResultItemView;

    open spec fn view(&self) -> SearchResultItemView {
        SearchResultItemView { username: self.username@, filename: self.filename@ }
    }
}

impl Clone for SearchResultItem {
    fn clone(&self) -> (r: Self)
        ensures
            r@ == self@,
    {
        SearchResultItem { username: self.username.clone(), filename: self.filename.clone() }
    }
}

} // verus!
