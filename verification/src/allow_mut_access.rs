//! The kinds of items that may be changed in place: none of them is persisted, so changing
//! them in place cannot bypass what is written to persistent storage.

use vstd::prelude::*;

verus! {

pub const InProgress: () = ();

} // verus!
