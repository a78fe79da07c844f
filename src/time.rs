use vstd::prelude::*;

verus! {

/// Relies on std::time::SystemTime::now and duration_since(UNIX_EPOCH): the
/// wall-clock time in whole seconds since the Unix epoch. Nothing is promised
/// of the value, which depends on the machine's clock; a clock set before the
/// epoch reads as 0.
#[verifier::external_body]
pub fn current_time_as_secs() -> (r: u64) {
    match std::time::SystemTime::now().duration_since(std::time::UNIX_EPOCH) {
        Ok(elapsed) => elapsed.as_secs(),
        Err(_) => 0,
    }
}

} // verus!
