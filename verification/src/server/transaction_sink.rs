//! Writing transaction frames one after the other to a connection.

use vstd::prelude::*;

verus! {

/// A writer that frames are written to, each as its bytes. The writing
/// itself is done by the caller.
pub struct Frames<W>(pub W);

} // verus!
