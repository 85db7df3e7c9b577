//! The record a remote procedure call hands to a worker: which execution
//! to run and the serialized plan it runs over.

use vstd::prelude::*;

verus! {

/// One unit of remote work.
#[derive(Debug, Clone)]
pub struct YakGrpcInput {
    pub execution: String,
    pub dag: String,
}

} // verus!
