use vstd::prelude::*;

verus! {

#[verifier::external_type_specification]
#[verifier::external_body]
pub struct ExRuntime(tokio::runtime::Runtime);

/// Relies on tokio::runtime::Runtime::new: it starts a task scheduler of its
/// own, or fails (its `io::Error` is dropped here), depending on the machine.
#[verifier::external_body]
pub(crate) fn new_bridge() -> (r: Option<tokio::runtime::Runtime>) {
    tokio::runtime::Runtime::new().ok()
}

} // verus!
