use vstd::prelude::*;

use crate::errors::HealthcheckError;

verus! {

/// Whether `n` fits in an `i64`.
pub open spec fn fits_i64(n: int) -> bool {
    i64::MIN <= n <= i64::MAX
}

/// The lag: how many blocks the chain head is ahead of the indexer. Fails when
/// the difference does not fit in an `i64`.
pub fn get_not_indexed_block_count(indexed_block: i64, latest_block: i64) -> (r: Result<
    i64,
    HealthcheckError,
>)
    ensures
        r is Ok <==> fits_i64(latest_block - indexed_block),
        r matches Ok(n) ==> n == latest_block - indexed_block,
{
    let lag: i128 = latest_block as i128 - indexed_block as i128;
    if lag < i64::MIN as i128 || lag > i64::MAX as i128 {
        Err(HealthcheckError::new("not indexed block count is out of range"))
    } else {
        Ok(lag as i64)
    }
}

/// A chain height as the node reports it (unsigned), as a block height of
/// this library. Fails when it does not fit in an `i64`.
pub fn block_number_from_u64(n: u64) -> (r: Result<i64, HealthcheckError>)
    ensures
        r is Ok <==> n <= i64::MAX,
        r matches Ok(h) ==> h == n,
{
    if n > i64::MAX as u64 {
        Err(HealthcheckError::new("block number does not fit in a signed 64-bit integer"))
    } else {
        Ok(n as i64)
    }
}

} // verus!
