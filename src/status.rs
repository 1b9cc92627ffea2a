use vstd::prelude::*;

verus! {

/// Status code of an operation that worked.
pub const DATAFUSION_OK: i32 = 0;

/// Status code of an operation that did not work, whatever the reason.
pub const DATAFUSION_ERROR: i32 = -1;

/// The status code that reports an outcome.
pub open spec fn status_spec(ok: bool) -> i32 {
    if ok {
        DATAFUSION_OK
    } else {
        DATAFUSION_ERROR
    }
}

/// Turns the outcome of an operation into its status code.
pub fn status_of(ok: bool) -> (r: i32)
    ensures
        r == status_spec(ok),
{
    if ok {
        DATAFUSION_OK
    } else {
        DATAFUSION_ERROR
    }
}

/// The one diagnostic message, the same whatever failed.
pub open spec fn last_error_spec() -> Seq<char> {
    "DataFusion error occurred"@
}

/// The diagnostic message for a failed call. It is the same fixed text for
/// every failure: no detail of the last error is kept.
pub fn datafusion_get_last_error() -> (r: &'static str)
    ensures
        r@ == last_error_spec(),
{
    "DataFusion error occurred"
}

} // verus!
