//! Case-insensitive name matching.
use crate::text::{contains_chars, contains_seq, lower_of, lowercase, str_chars};
use vstd::prelude::*;

verus! {

/// The query occurs in the name as a substring once both are lowercased.
pub open spec fn name_matches(name: Seq<char>, query: Seq<char>) -> bool {
    contains_seq(lower_of(name), lower_of(query))
}

/// A thing with a human-readable name, searchable by case-insensitive
/// substring containment.
pub trait Named: Sized {
    /// The characters of the name.
    spec fn name_spec(&self) -> Seq<char>;

    /// The name itself.
    fn name(&self) -> (r: &str)
        ensures
            r@ == self.name_spec(),
    ;

    /// Whether the name holds `string`, ignoring case.
    fn has_name_with(&self, string: &str) -> (r: bool)
        ensures
            r == name_matches(self.name_spec(), string@),
    {
        let name_low = lowercase(self.name());
        let query_low = lowercase(string);
        let name_chars = str_chars(name_low.as_str());
        let query_chars = str_chars(query_low.as_str());
        contains_chars(&name_chars, &query_chars)
    }
}

} // verus!
