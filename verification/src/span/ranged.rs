use std::ops::Range;

use vstd::prelude::*;

verus! {

/// Something that covers a range of the source document.
pub trait Ranged<T> {
    /// The range that the value covers.
    spec fn spec_range(&self) -> Range<T>;

    /// The range that the value covers.
    fn range(&self) -> (range: Range<T>)
        ensures
            range == self.spec_range(),
    ;
}

impl Ranged<usize> for Range<usize> {
    open spec fn spec_range(&self) -> Range<usize> {
        *self
    }

    fn range(&self) -> (range: Range<usize>) {
        Range { start: self.start, end: self.end }
    }
}

} // verus!
