//! The cooperative stop signal of a running service operation.
//!
//! A token is shared with the task that runs the operation, so whether it is
//! cancelled is not a property of the value that the state machine holds:
//! nothing is stated of that here. What is stated is which token is which: a
//! clone is the token it was made from. Giving the signal is work for the
//! caller, which the state machine hands out with the token to give.

use tokio_util::sync::CancellationToken;
use vstd::prelude::*;

verus! {

/// The cancellation token of the async utilities, carried as an opaque value.
#[verifier::external_type_specification]
#[verifier::external_body]
pub struct ExCancellationToken(CancellationToken);

/// `CancellationToken::new`: a token of its own, not yet cancelled.
pub assume_specification[ CancellationToken::new ]() -> (token: CancellationToken);

/// `CancellationToken::clone`: a second handle on the same signal, which is
/// the same token as a value.
pub assume_specification[ <CancellationToken as Clone>::clone ](
    token: &CancellationToken,
) -> (handle: CancellationToken)
    ensures
        handle == *token,
;

/// `CancellationToken::is_cancelled`: whether any handle has asked to stop so
/// far.
pub assume_specification[ CancellationToken::is_cancelled ](token: &CancellationToken) -> (cancelled:
    bool);

} // verus!
