//! The results of the searches a client has started, by search token.
use vstd::prelude::*;
use std::collections::HashMap;
use crate::events::{SearchResultItem, SearchResultItemView};
use crate::message::unpack::views;

verus! {

broadcast use vstd::std_specs::hash::group_hash_axioms;

/// The results gathered for one search.
pub struct SearchResults {
    pub items: Vec<SearchResultItem>,
}

/// The results of every search started, by token.
pub struct SearchResultStore {
    results: HashMap<u32, SearchResults>,
}

/// The results of a search once it starts: none.
pub open spec fn started(store: Map<u32, Seq<SearchResultItemView>>, token: u32) -> Map<
    u32,
    Seq<SearchResultItemView>,
> {
    store.insert(token, Seq::empty())
}

/// The results once `item` has been saved for `token`.
pub open spec fn saved(
    store: Map<u32, Seq<SearchResultItemView>>,
    token: u32,
    item: SearchResultItemView,
) -> Map<u32, Seq<SearchResultItemView>> {
    store.insert(token, store[token].push(item))
}

/// What reading the results of `token` gives: its results, or none for a
/// token that no search has.
pub open spec fn read(store: Map<u32, Seq<SearchResultItemView>>, token: u32) -> Seq<
    SearchResultItemView,
> {
    if store.contains_key(token) {
        store[token]
    } else {
        Seq::empty()
    }
}

impl View for SearchResultStore {
    type V = Map<u32, Seq<SearchResultItemView>>;

    closed spec fn view(&self) -> Map<u32, Seq<SearchResultItemView>> {
        Map::new(
            |token: u32| self.results@.contains_key(token),
            |token: u32| views(self.results@[token].items@),
        )
    }
}

impl SearchResultStore {
    /// No searches.
    pub fn new() -> (store: Self)
        ensures
            store@ == Map::<u32, Seq<SearchResultItemView>>::empty(),
    {
        let store = SearchResultStore { results: HashMap::new() };
        assert(store@ =~= Map::<u32, Seq<SearchResultItemView>>::empty());
        store
    }

    /// Starts the results of a search: none so far, in place of any the
    /// token had.
    pub fn start(&mut self, token: u32)
        ensures
            final(self)@ == started(old(self)@, token),
    {
        let items: Vec<SearchResultItem> = Vec::new();
        assert(views(items@) =~= Seq::<SearchResultItemView>::empty());
        self.results.insert(token, SearchResults { items });
        assert(self@ =~= started(old(self)@, token));
    }

    /// Whether a search with this token has started.
    pub fn contains(&self, token: u32) -> (r: bool)
        ensures
            r == self@.contains_key(token),
    {
        self.results.contains_key(&token)
    }

    /// Saves a result of the search with this token, after those saved before.
    pub fn save(&mut self, token: u32, item: SearchResultItem)
        requires
            old(self)@.contains_key(token),
        ensures
            final(self)@ == saved(old(self)@, token, item@),
    {
        let ghost before = self.results@;
        match self.results.remove(&token) {
            Some(mut results) => {
                assert(views(results.items@.push(item)) =~= views(results.items@).push(item@));
                results.items.push(item);
                self.results.insert(token, results);
                assert(self@ =~= saved(old(self)@, token, item@));
            },
            None => {
                assert(false);
            },
        }
    }

    /// Copies of the results of the search with this token; none for a token
    /// that no search has.
    pub fn get(&self, token: u32) -> (items: Vec<SearchResultItem>)
        ensures
            views(items@) == read(self@, token),
    {
        match self.results.get(&token) {
            None => Vec::new(),
            Some(results) => {
                let mut items: Vec<SearchResultItem> = Vec::new();
                let mut i: usize = 0;
                while i < results.items.len()
                    invariant
                        i <= results.items@.len(),
                        views(items@) == views(results.items@).subrange(0, i as int),
                    decreases results.items@.len() - i,
                {
                    let item = results.items[i].clone();
                    proof {
                        assert(views(items@.push(item)) =~= views(items@).push(item@));
                        assert(views(results.items@).subrange(0, i + 1) =~= views(
                            results.items@,
                        ).subrange(0, i as int).push(results.items@[i as int]@));
                    }
                    items.push(item);
                    i = i + 1;
                }
                assert(views(results.items@).subrange(0, i as int) =~= views(results.items@));
                items
            },
        }
    }
}

/// The results saved for `token`, one after another from `store`.
pub open spec fn saved_all(
    store: Map<u32, Seq<SearchResultItemView>>,
    token: u32,
    items: Seq<SearchResultItemView>,
) -> Map<u32, Seq<SearchResultItemView>>
    decreases items.len(),
{
    if items.len() == 0 {
        store
    } else {
        saved(saved_all(store, token, items.drop_last()), token, items.last())
    }
}

/// A search's results are exactly those saved for its token since it started,
/// in the order they were saved, whatever the token held before; and searches
/// with other tokens keep theirs.
pub proof fn law_results_of_a_search(
    store: Map<u32, Seq<SearchResultItemView>>,
    token: u32,
    items: Seq<SearchResultItemView>,
    other: u32,
)
    requires
        other != token,
    ensures
        read(saved_all(started(store, token), token, items), token) == items,
        read(saved_all(started(store, token), token, items), other) == read(store, other),
    decreases items.len(),
{
    if items.len() > 0 {
        law_results_of_a_search(store, token, items.drop_last(), other);
        let before = saved_all(started(store, token), token, items.drop_last());
        assert(before.contains_key(token));
        assert(items.drop_last().push(items.last()) =~= items);
    }
}

} // verus!
