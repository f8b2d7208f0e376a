//! Values that an invocation takes when it does not name them.

use vstd::prelude::*;
use crate::command::Timeout;

verus! {

/// Gas budget of a transaction when the invocation gives none.
pub const DEFAULT_GAS_BUDGET: u64 = 500_000_000;

/// Number of epochs a blob is stored for when the invocation gives none.
pub const DEFAULT_EPOCHS: u64 = 1;

/// Largest body of a PUT request, in KiB, when the invocation gives none.
pub const DEFAULT_MAX_BODY_SIZE_KIB: usize = 10_240;

/// The address that a service binds when the invocation gives none.
pub open spec fn default_bind_address() -> Seq<char> {
    "127.0.0.1:31415"@
}

/// The timeout of a status request when the invocation gives none: one
/// second.
pub open spec fn default_status_timeout() -> Timeout {
    Timeout { secs: 1, nanos: 0 }
}

/// Gas budget of a transaction when the invocation gives none.
pub fn gas_budget() -> (budget: u64)
    ensures
        budget == DEFAULT_GAS_BUDGET,
{
    DEFAULT_GAS_BUDGET
}

/// Number of epochs a blob is stored for when the invocation gives none.
pub fn epochs() -> (epochs: u64)
    ensures
        epochs == DEFAULT_EPOCHS,
{
    DEFAULT_EPOCHS
}

/// Largest body of a PUT request, in KiB, when the invocation gives none.
pub fn max_body_size_kib() -> (kib: usize)
    ensures
        kib == DEFAULT_MAX_BODY_SIZE_KIB,
{
    DEFAULT_MAX_BODY_SIZE_KIB
}

/// The timeout of a status request when the invocation gives none.
pub fn status_timeout() -> (timeout: Timeout)
    ensures
        timeout == default_status_timeout(),
        timeout.wf(),
{
    Timeout { secs: 1, nanos: 0 }
}

/// The address that a service binds when the invocation gives none.
pub fn bind_address() -> (address: String)
    ensures
        address@ == default_bind_address(),
{
    String::from_str("127.0.0.1:31415")
}

} // verus!
