use vstd::prelude::*;

use crate::errors::PipelineError;

verus! {

/// The fixed, compiled-in ordered table of class names, one per output class.
///
/// The table itself is 0-based, but every consumer addresses it with a
/// 1-based index: index 1 names the entry at position 0, and index 0 is
/// never a valid lookup. That shift is a deliberate, load-bearing
/// convention of the pipeline and is stated explicitly in the contracts
/// below rather than hidden in the bodies.
pub struct LabelTable {
    labels: Vec<String>,
}

impl View for LabelTable {
    type V = Seq<Seq<char>>;

    closed spec fn view(&self) -> Seq<Seq<char>> {
        self.labels@.map(|i: int, s: String| s@)
    }
}

impl LabelTable {
    /// Builds the table from its class names, kept in the given order.
    pub fn new(labels: Vec<String>) -> (r: LabelTable)
        ensures
            r@.len() == labels@.len(),
            forall|i: int| 0 <= i < labels@.len() ==> r@[i] == labels@[i]@,
    {
        LabelTable { labels }
    }

    /// The number of classes the table knows.
    pub fn len(&self) -> (r: usize)
        ensures
            r == self@.len(),
    {
        self.labels.len()
    }

    /// Returns the class name for a 1-based class index.
    ///
    /// The caller owes an index in `1 ..= len`; the name at table
    /// position `index - 1` comes back.
    pub fn get_category(&self, index: u32) -> (r: String)
        requires
            1 <= index <= self@.len(),
        ensures
            r@ == self@[index - 1],
    {
        self.labels[(index - 1) as usize].clone()
    }

    /// Resolves a 1-based class index to its class name.
    ///
    /// Succeeds exactly on indices in `1 ..= len`, returning the entry at
    /// position `index - 1`; any other index fails with
    /// `IndexOutOfRange` instead of reading out of bounds.
    pub fn resolve(&self, index: u32) -> (r: Result<String, PipelineError>)
        ensures
            r is Ok <==> 1 <= index <= self@.len(),
            r is Ok ==> r->Ok_0@ == self@[index - 1],
            r is Err ==> r->Err_0 == PipelineError::IndexOutOfRange,
    {
        if 1 <= index && (index as usize) <= self.labels.len() {
            Ok(self.labels[(index - 1) as usize].clone())
        } else {
            Err(PipelineError::IndexOutOfRange)
        }
    }
}

} // verus!
