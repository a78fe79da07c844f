use vstd::prelude::*;

use crate::state::Health;

verus! {

/// Body of the answer on the lag: `{ "number": <lag> }`.
#[derive(Clone, Copy, Debug, PartialEq, Eq, Structural)]
pub struct NotIndexedBlocksResponse {
    pub number: i64,
}

impl NotIndexedBlocksResponse {
    pub fn new(number: i64) -> (r: Self)
        ensures
            r.number == number,
    {
        NotIndexedBlocksResponse { number }
    }
}

/// Body of the answer on health: `{ "health": "UP" | "DOWN" }`.
#[derive(Clone, Copy, Debug, PartialEq, Eq, Structural)]
pub struct HealthcheckResponse {
    pub health: Health,
}

impl HealthcheckResponse {
    pub fn new(health: Health) -> (r: Self)
        ensures
            r.health == health,
    {
        HealthcheckResponse { health }
    }
}

} // verus!
