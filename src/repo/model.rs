use vstd::prelude::*;

verus! {

/// The identifier of a user account: the key of every store.
pub type AccountIndex = u64;

} // verus!
