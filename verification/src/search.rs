//! Search: the terms a search query carries and the missions it finds.

use vstd::prelude::*;

verus! {

/// The query of a search: a keyword for titles and names, a category for
/// stores.
pub struct KeywordQuery {
    pub keyword: Option<String>,
    pub category: Option<String>,
}

/// A mission found by its title.
pub struct MissionSearchResult {
    pub mission_id: i64,
    pub mission_title: String,
    pub store_id: Option<i64>,
}

/// The text searched for: the given one, or the empty text, which matches
/// everything.
pub open spec fn search_term(given: Option<String>) -> Seq<char> {
    match given {
        Some(t) => t@,
        None => Seq::empty(),
    }
}

impl KeywordQuery {
    /// The keyword searched for.
    pub fn keyword_term(self) -> (t: String)
        ensures
            t@ == search_term(self.keyword),
    {
        match self.keyword {
            Some(k) => k,
            None => String::new(),
        }
    }

    /// The category searched for.
    pub fn category_term(self) -> (t: String)
        ensures
            t@ == search_term(self.category),
    {
        match self.category {
            Some(c) => c,
            None => String::new(),
        }
    }
}

} // verus!
