use vstd::prelude::*;

verus! {

/// A data source could not be reached or answered with something unusable.
#[derive(Debug)]
pub struct HealthcheckError {
    details: String,
}

impl View for HealthcheckError {
    type V = Seq<char>;

    /// The message that describes the failure.
    closed spec fn view(&self) -> Seq<char> {
        self.details@
    }
}

impl HealthcheckError {
    /// An error described by `msg`.
    pub fn new(msg: &str) -> (e: HealthcheckError)
        ensures
            e@ == msg@,
    {
        HealthcheckError { details: msg.to_owned() }
    }

    /// The message that describes the failure.
    pub fn details(&self) -> (r: &str)
        ensures
            r@ == self@,
    {
        self.details.as_str()
    }
}

/// Fails exactly when asked to, with the message "borked".
#[allow(dead_code)]
fn raises_my_error(yes: bool) -> (r: Result<(), HealthcheckError>)
    ensures
        r is Err <==> yes,
        r matches Err(e) ==> e@ == "borked"@,
{
    if yes {
        Err(HealthcheckError::new("borked"))
    } else {
        Ok(())
    }
}

} // verus!
