//! Value and composite-type demo: a heterogeneous triple whose components
//! can be read positionally or by destructuring, and the lines produced by
//! walking a list of text values by index.

use vstd::prelude::*;

verus! {

/// A fixed triple of three values of arbitrary types, such as an integer, a
/// fraction and a byte. Components are unnamed and live at positions 0, 1, 2.
pub struct Triple<A, B, C>(pub A, pub B, pub C);

impl<A, B, C> Triple<A, B, C> {
    /// The three components as read one by one through positional access.
    pub open spec fn positional_parts(self) -> (A, B, C) {
        (self.0, self.1, self.2)
    }

    /// The three components as read by destructuring the triple into three
    /// named bindings.
    pub open spec fn destructured_parts(self) -> (A, B, C) {
        match self {
            Triple(a, b, c) => (a, b, c),
        }
    }

    /// Read the components positionally: slot 0, then slot 1, then slot 2.
    pub fn by_position(self) -> (r: (A, B, C))
        ensures
            r == self.positional_parts(),
    {
        (self.0, self.1, self.2)
    }

    /// Read the components by destructuring the whole triple at once.
    pub fn by_destructuring(self) -> (r: (A, B, C))
        ensures
            r == self.destructured_parts(),
    {
        let Triple(a, b, c) = self;
        (a, b, c)
    }
}

/// Positional access and destructuring access yield identical values for all
/// three slots, for any triple of any shape.
pub proof fn lemma_positional_matches_destructured<A, B, C>(t: Triple<A, B, C>)
    ensures
        t.positional_parts() == t.destructured_parts(),
{
}

/// The lines emitted when `items` is walked by index over `[0, len)`: exactly
/// one line per element, each equal to the element at its index, in storage
/// order.
pub fn index_lines(items: &Vec<String>) -> (out: Vec<String>)
    ensures
        out@.len() == items@.len(),
        forall|i: int| 0 <= i < items@.len() ==> out@[i] == items@[i],
{
    let mut out: Vec<String> = Vec::new();
    let mut i: usize = 0;
    while i < items.len()
        invariant
            i <= items@.len(),
            out@.len() == i,
            forall|j: int| 0 <= j < i ==> out@[j] == items@[j],
        decreases items@.len() - i,
    {
        out.push(items[i].clone());
        i = i + 1;
    }
    out
}

} // verus!
