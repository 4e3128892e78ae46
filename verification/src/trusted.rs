//! What this library takes on trust from `time`, `tokio` and `std::io`.
//!
//! Nothing here is proved. Each item states, of code that Verus does not read,
//! no more than that code's source and documentation show.

use vstd::prelude::*;

verus! {

/// `time::OffsetDateTime`, an instant with its offset from UTC. The library
/// carries such values and never looks inside them.
#[verifier::external_type_specification]
#[verifier::external_body]
pub struct ExOffsetDateTime(time::OffsetDateTime);

/// `std::io::Error`, the error of a system call. The library carries such
/// values and never looks inside them.
#[verifier::external_type_specification]
#[verifier::external_body]
pub struct ExIoError(std::io::Error);

/// `tokio::sync::oneshot::Sender`, the sending end of a channel that carries
/// one value.
#[verifier::external_type_specification]
#[verifier::external_body]
#[verifier::reject_recursive_types(T)]
pub struct ExSender<T>(tokio::sync::oneshot::Sender<T>);

/// `tokio::sync::oneshot::error::RecvError`, which the receiving end of a
/// one-shot channel yields when the sending end was dropped with nothing sent.
#[verifier::external_type_specification]
#[verifier::external_body]
pub struct ExRecvError(tokio::sync::oneshot::error::RecvError);

/// `time::OffsetDateTime::now_utc` reads the system clock. Nothing is claimed
/// of the instant it returns: the clock may have been set forward or back
/// since it was last read. The call does not return where the clock stands
/// outside the years that `time` can hold.
pub assume_specification[ time::OffsetDateTime::now_utc ]() -> (now: time::OffsetDateTime);

/// `tokio::sync::oneshot::Sender::send` consumes the sending end and offers
/// the value to the receiving end. Whether it succeeds depends on the other
/// end alone: it fails when the receiver was dropped or closed before the
/// call, and then hands back the very value it was given. `Ok` does not say
/// that the value will be read.
pub assume_specification<T>[ tokio::sync::oneshot::Sender::<T>::send ](
    tx: tokio::sync::oneshot::Sender<T>,
    t: T,
) -> (sent: Result<(), T>)
    ensures
        sent matches Err(back) ==> back == t,
;

} // verus!
