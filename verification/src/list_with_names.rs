//! A searchable list of named items: exactly one case-insensitive substring
//! match is returned; zero or several matches are errors.
use crate::named::{Named, name_matches};
use crate::project_error::SearchError;
use vstd::prelude::*;

verus! {

/// The number of items whose name matches the query, ignoring case.
pub open spec fn match_count<T: Named>(items: Seq<T>, query: Seq<char>) -> nat
    decreases items.len(),
{
    if items.len() == 0 {
        0
    } else {
        match_count(items.drop_last(), query) + (if name_matches(
            items.last().name_spec(),
            query,
        ) {
            1nat
        } else {
            0nat
        })
    }
}

pub proof fn lemma_match_count_take_step<T: Named>(items: Seq<T>, query: Seq<char>, i: int)
    requires
        0 <= i < items.len(),
    ensures
        match_count(items.take(i + 1), query) == match_count(items.take(i), query) + (
        if name_matches(items[i].name_spec(), query) {
            1nat
        } else {
            0nat
        }),
{
    assert(items.take(i + 1).drop_last() =~= items.take(i));
    assert(items.take(i + 1).last() == items[i]);
}

/// A matching item splits the count around its position.
pub proof fn lemma_match_count_split<T: Named>(items: Seq<T>, query: Seq<char>, i: int)
    requires
        0 <= i < items.len(),
    ensures
        match_count(items, query) == match_count(items.take(i), query) + (if name_matches(
            items[i].name_spec(),
            query,
        ) {
            1nat
        } else {
            0nat
        }) + match_count(items.skip(i + 1), query),
    decreases items.len(),
{
    if i == items.len() - 1 {
        assert(items.drop_last() =~= items.take(i));
        assert(items.skip(i + 1) =~= Seq::<T>::empty());
    } else {
        lemma_match_count_split(items.drop_last(), query, i);
        assert(items.drop_last().take(i) =~= items.take(i));
        assert(items.drop_last()[i] == items[i]);
        assert(items.drop_last().skip(i + 1) =~= items.skip(i + 1).drop_last());
        assert(items.skip(i + 1).last() == items.last());
    }
}

/// When exactly one item matches, two matching positions coincide.
pub proof fn lemma_match_unique<T: Named>(items: Seq<T>, query: Seq<char>, i: int, j: int)
    requires
        match_count(items, query) == 1,
        0 <= i < items.len(),
        0 <= j < items.len(),
        name_matches(items[i].name_spec(), query),
        name_matches(items[j].name_spec(), query),
    ensures
        i == j,
{
    if i < j {
        lemma_match_count_split(items, query, i);
        lemma_match_count_split(items.skip(i + 1), query, j - i - 1);
        assert(items.skip(i + 1)[j - i - 1] == items[j]);
    } else if j < i {
        lemma_match_count_split(items, query, j);
        lemma_match_count_split(items.skip(j + 1), query, i - j - 1);
        assert(items.skip(j + 1)[i - j - 1] == items[i]);
    }
}

/// A positive count yields a matching position.
pub proof fn lemma_match_exists<T: Named>(items: Seq<T>, query: Seq<char>)
    requires
        match_count(items, query) >= 1,
    ensures
        exists|i: int|
            0 <= i < items.len() && name_matches(#[trigger] items[i].name_spec(), query),
    decreases items.len(),
{
    if name_matches(items.last().name_spec(), query) {
        assert(items[items.len() - 1] == items.last());
    } else {
        lemma_match_exists(items.drop_last(), query);
        let i = choose|i: int|
            0 <= i < items.drop_last().len() && name_matches(
                #[trigger] items.drop_last()[i].name_spec(),
                query,
            );
        assert(items[i] == items.drop_last()[i]);
    }
}

/// A list of named items, searchable by case-insensitive substring matching.
pub trait ListWithNames<T: Named> {
    /// The items held by the list.
    spec fn items_spec(&self) -> Seq<T>;

    /// The items themselves.
    fn items(&self) -> (r: &Vec<T>)
        ensures
            r@ == self.items_spec(),
    ;

    /// Finds the single item whose name holds the query, ignoring case.
    /// Zero matches yield `NotFound`, several yield `FoundMoreThanOne`.
    fn find(&self, search_string: &str) -> (r: Result<&T, SearchError>)
        ensures
            match r {
                Ok(t) => match_count(self.items_spec(), search_string@) == 1 && name_matches(
                    t.name_spec(),
                    search_string@,
                ) && exists|i: int|
                    0 <= i < self.items_spec().len() && self.items_spec()[i] == *t,
                Err(SearchError::NotFound) => match_count(self.items_spec(), search_string@)
                    == 0,
                Err(SearchError::FoundMoreThanOne) => match_count(
                    self.items_spec(),
                    search_string@,
                ) >= 2,
            },
    {
        let items = self.items();
        let mut found: usize = 0;
        let mut found_at: usize = 0;
        let mut i: usize = 0;
        proof {
            assert(items@.take(0) =~= Seq::<T>::empty());
        }
        while i < items.len()
            invariant
                items@ == self.items_spec(),
                i <= items@.len(),
                items@.len() == items.len(),
                found as nat == match_count(items@.take(i as int), search_string@),
                found <= i,
                found >= 1 ==> found_at < i && name_matches(
                    items@[found_at as int].name_spec(),
                    search_string@,
                ),
            decreases items@.len() - i,
        {
            proof {
                lemma_match_count_take_step(items@, search_string@, i as int);
            }
            if items[i].has_name_with(search_string) {
                found = found + 1;
                found_at = i;
            }
            i += 1;
        }
        proof {
            assert(items@.take(items@.len() as int) =~= items@);
        }
        if found == 1 {
            Ok(&items[found_at])
        } else if found == 0 {
            Err(SearchError::NotFound)
        } else {
            Err(SearchError::FoundMoreThanOne)
        }
    }
}

} // verus!
