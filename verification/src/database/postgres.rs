use vstd::prelude::*;

verus! {

/// How many connections to the database the pool may hold at once.
pub const MAX_CONNECTIONS: u32 = 5;

} // verus!
