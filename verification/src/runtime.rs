//! The calls that the dispatcher makes into the I/O runtime.
//!
//! Nothing here is proved: each item states what the runtime's own source
//! shows of the call it makes.

use ethcore_io::{IoContext, IoError};
use std::time::Duration;
use vstd::prelude::*;
use crate::timer::TimerToken;

verus! {

/// `ethcore_io::IoContext`, the access point that the runtime hands to a
/// handler. Nothing of its inside is used.
#[verifier::external_type_specification]
#[verifier::external_body]
#[verifier::reject_recursive_types(Message)]
pub struct ExIoContext<Message: Send + Sync + 'static>(IoContext<Message>);

/// `ethcore_io::IoError`, the error of the runtime. Nothing of its inside is
/// used.
#[verifier::external_type_specification]
#[verifier::external_body]
pub struct ExIoError(IoError);

/// Calls `IoContext::register_timer`, which asks the event loop for a
/// recurring timer under `token` with a period of `interval_ms`
/// milliseconds. Nothing is claimed of the answer: it is an error when the
/// event loop does not take the request, which is for the runtime to say.
#[verifier::external_body]
pub(crate) fn register_timer<Message: Send + Sync + 'static>(
    io: &IoContext<Message>,
    token: TimerToken,
    interval_ms: u64,
) -> (answer: Result<(), IoError>) {
    io.register_timer(token, Duration::from_millis(interval_ms))
}

/// Renders an `IoError` through its `Display`. Nothing is claimed of the text.
#[verifier::external_body]
pub(crate) fn describe(error: &IoError) -> (text: String) {
    error.to_string()
}

} // verus!
