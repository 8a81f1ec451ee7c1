use vstd::prelude::*;

pub mod options;
pub mod policy;
pub mod row_count;
pub mod transaction;
pub mod wire;

verus! {

} // verus!
