//! Submitting a statement: where its results go, and the handle that the
//! backend gives back for it.
use vstd::prelude::*;
use crate::error::{ShellError, ShellErrorView};

verus! {

pub open spec fn location_scheme() -> Seq<char> {
    seq!['s', '3', ':', '/', '/']
}

/// Where the backend writes the results of a query: `s3://<bucket>/`.
pub fn result_location(bucket: &str) -> (r: String)
    ensures
        r@ == location_scheme() + bucket@ + seq!['/'],
{
    let mut r = String::from_str("s3://");
    r.append(bucket);
    r.append("/");
    proof {
        reveal_strlit("s3://");
        reveal_strlit("/");
    }
    assert(r@ =~= location_scheme() + bucket@ + seq!['/']);
    r
}

/// The handle of a submitted query. A backend that took the statement but
/// returned no identifier gives `MissingHandle`.
pub fn query_handle(id: Option<String>) -> (r: Result<String, ShellError>)
    ensures
        match id {
            Some(h) => r == Ok::<String, ShellError>(h),
            None => r is Err && r->Err_0@ == ShellErrorView::MissingHandle,
        },
{
    match id {
        Some(h) => Ok(h),
        None => Err(ShellError::MissingHandle),
    }
}

} // verus!
