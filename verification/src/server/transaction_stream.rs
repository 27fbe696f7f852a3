//! Reading transaction frames one after the other from a connection.

use vstd::prelude::*;

verus! {

/// The frames a reader holds: a header, then a body of the length the header
/// gives, over and over. The reading itself is done by the caller.
pub struct Frames<R>(R);

impl<R> Frames<R> {
    /// The reader's contents, as frames.
    pub closed spec fn reader(&self) -> R {
        self.0
    }

    pub fn new(reader: R) -> (r: Self)
        ensures
            r.reader() == reader,
    {
        Frames(reader)
    }

    /// The reader back.
    pub fn take(self) -> (r: R)
        ensures
            r == self.reader(),
    {
        self.0
    }
}

} // verus!
