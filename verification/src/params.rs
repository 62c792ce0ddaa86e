//! The deployment: the domain-separation context that binds every credential
//! to an organization, a service, an environment and a batch date.

use vstd::prelude::*;

verus! {

/// The domain-separation context of a deployment. Both sides must hold the
/// same four strings, or every verification between them fails.
#[derive(Clone, Copy, Debug)]
pub struct Params {
    pub organization: &'static str,
    pub service: &'static str,
    pub environment: &'static str,
    /// The batch date, `YYYY-MM-DD`.
    pub batch_date: &'static str,
}

/// The deployment this library is built for, as a value.
pub open spec fn deployment() -> Params {
    Params {
        organization: "example-org",
        service: "payment-api",
        environment: "production",
        batch_date: "2024-01-15",
    }
}

/// The deployment this library is built for.
pub fn get_params() -> (params: Params)
    ensures
        params == deployment(),
{
    Params {
        organization: "example-org",
        service: "payment-api",
        environment: "production",
        batch_date: "2024-01-15",
    }
}

} // verus!
