//! The error type that user code reports through.

use vstd::prelude::*;

verus! {

/// `conjure_error::Error`: an error with its cause and parameters. Nothing is known of it.
#[verifier::external_type_specification]
#[verifier::external_body]
pub struct ExError(conjure_error::Error);

/// `Error::internal_safe` makes an internal error whose cause is the given
/// text, which is safe to log.
#[verifier::external_body]
pub(crate) fn internal_error(message: &'static str) -> conjure_error::Error {
    conjure_error::Error::internal_safe(message)
}

} // verus!
