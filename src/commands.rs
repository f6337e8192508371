use vstd::prelude::*;

use crate::registry::BackendPort;

verus! {

pub open spec fn port_not_set_message() -> Seq<char> {
    "Backend port not yet set"@
}

pub open spec fn lock_failure_prefix() -> Seq<char> {
    "Failed to lock backend port: "@
}

/// The answer to the UI's request for the backend port: the published port,
/// or a message asking to retry while none is published yet.
pub fn get_backend_port(state: &BackendPort) -> (r: Result<u16, String>)
    ensures
        match state@ {
            Some(p) => r == Ok::<u16, String>(p),
            None => r is Err && r->Err_0@ == port_not_set_message(),
        },
{
    match state.get() {
        Ok(p) => Ok(p),
        Err(_) => Err(String::from_str("Backend port not yet set")),
    }
}

/// The message returned when the port cell's lock cannot be had; `detail`
/// describes the failure.
pub fn lock_failure_message(detail: &str) -> (r: String)
    ensures
        r@ == lock_failure_prefix() + detail@,
{
    String::from_str("Failed to lock backend port: ").concat(detail)
}

} // verus!
