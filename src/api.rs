use vstd::prelude::*;

use crate::block::{fits_i64, get_not_indexed_block_count};
use crate::errors::HealthcheckError;

verus! {

/// Entry point for what the HTTP layer asks of the block heights.
pub struct ApiFacade;

impl ApiFacade {
    /// The lag between the chain head and the indexer; see
    /// [`get_not_indexed_block_count`].
    pub fn get_not_indexed_block_count(indexed_block: i64, latest_block: i64) -> (r: Result<
        i64,
        HealthcheckError,
    >)
        ensures
            r is Ok <==> fits_i64(latest_block - indexed_block),
            r matches Ok(n) ==> n == latest_block - indexed_block,
    {
        get_not_indexed_block_count(indexed_block, latest_block)
    }
}

} // verus!
