//! A single reported defect, tagged with its originating line number.
use crate::text::{chars_to_string, dec_chars, dec_str};
use vstd::prelude::*;

verus! {

/// A line number and a message; rendered as `<line> | <message>`.
#[derive(Debug, PartialEq)]
pub struct LineError(pub usize, pub String);

impl LineError {
    pub fn new(line_number: usize, message: String) -> (r: Self)
        ensures
            r.0 == line_number,
            r.1 == message,
    {
        Self(line_number, message)
    }

    /// The characters of the rendered report line.
    pub open spec fn render_spec(&self) -> Seq<char> {
        dec_str(self.0 as nat) + seq![' ', '|', ' '] + self.1@
    }

    /// Renders this error as one report line.
    pub fn render(&self) -> (r: String)
        ensures
            r@ == self.render_spec(),
    {
        let digits = dec_chars(self.0);
        let mut s = chars_to_string(&digits);
        s.append(" | ");
        proof {
            reveal_strlit(" | ");
            assert(" | "@ =~= seq![' ', '|', ' ']);
        }
        s.append(self.1.as_str());
        s
    }
}

} // verus!
