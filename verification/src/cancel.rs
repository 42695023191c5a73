//! Cooperative cancellation.
//!
//! One cancellation token flows through an iteration: candidate collection
//! polls it between tenants and between timelines, and the surrounding loop
//! races the eviction phase against it.

use vstd::prelude::*;

verus! {

#[verifier::external_type_specification]
#[verifier::external_body]
pub struct ExCancellationToken(tokio_util::sync::CancellationToken);

/// Relies on tokio_util's `CancellationToken::is_cancelled`: whether the token
/// has been cancelled. Another task may cancel the token at any moment, so
/// nothing is promised of the returned value.
pub assume_specification[ tokio_util::sync::CancellationToken::is_cancelled ](
    token: &tokio_util::sync::CancellationToken,
) -> bool;

} // verus!
