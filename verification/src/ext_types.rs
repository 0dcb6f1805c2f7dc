//! Types of other crates that the library's values carry. Verus sees none of
//! their contents.
use vstd::prelude::*;

verus! {

/// The sending half of a tokio unbounded channel.
#[verifier::external_type_specification]
#[verifier::external_body]
#[verifier::reject_recursive_types(T)]
pub struct ExUnboundedSender<T>(tokio::sync::mpsc::UnboundedSender<T>);

/// The receiving half of a tokio unbounded channel.
#[verifier::external_type_specification]
#[verifier::external_body]
#[verifier::reject_recursive_types(T)]
pub struct ExUnboundedReceiver<T>(tokio::sync::mpsc::UnboundedReceiver<T>);


/// The nanoseconds that a `Duration` spans, as `Duration::as_nanos` reports them.
pub uninterp spec fn nanos_of(d: core::time::Duration) -> int;

/// `Duration::as_nanos` returns the total number of nanoseconds the duration spans.
pub assume_specification[ core::time::Duration::as_nanos ](d: &core::time::Duration) -> (r: u128)
    ensures
        r == nanos_of(*d),
;

/// The duration that `Duration::from_millis` makes of `millis`.
pub uninterp spec fn duration_of_millis(millis: u64) -> core::time::Duration;

/// `Duration::from_millis` makes a duration of `millis` milliseconds; the same
/// count always makes the same duration.
pub assume_specification[ core::time::Duration::from_millis ](millis: u64) -> (d:
    core::time::Duration)
    ensures
        d == duration_of_millis(millis),
        nanos_of(d) == millis * 1_000_000,
;


/// `<Duration as Clone>::clone`: `Duration` is `Copy`, so its clone is the same value.
pub assume_specification[ <core::time::Duration as Clone>::clone ](d: &core::time::Duration) -> (r:
    core::time::Duration)
    ensures
        r == *d,
;


/// A chrono date and time without a time zone; the library keeps times in UTC.
#[verifier::external_type_specification]
#[verifier::external_body]
pub struct ExNaiveDateTime(chrono::NaiveDateTime);

/// The derived `Clone` of `NaiveDateTime`, a `Copy` type: the copy is the same value.
pub assume_specification[ <chrono::NaiveDateTime as Clone>::clone ](d: &chrono::NaiveDateTime) -> (r:
    chrono::NaiveDateTime)
    ensures
        r == *d,
;

/// `Utc::now().naive_utc()`: the current UTC time read from the system clock;
/// nothing is claimed of the time it returns.
#[verifier::external_body]
pub(crate) fn utc_now() -> chrono::NaiveDateTime {
    chrono::Utc::now().naive_utc()
}


/// The sending half of a crossbeam channel.
#[verifier::external_type_specification]
#[verifier::external_body]
#[verifier::reject_recursive_types(T)]
pub struct ExSender<T>(crossbeam::channel::Sender<T>);

/// The receiving half of a crossbeam channel.
#[verifier::external_type_specification]
#[verifier::external_body]
#[verifier::reject_recursive_types(T)]
pub struct ExReceiver<T>(crossbeam::channel::Receiver<T>);

/// The message a crossbeam send hands back when no receiver is left.
#[verifier::external_type_specification]
#[verifier::external_body]
#[verifier::reject_recursive_types(T)]
pub struct ExSendError<T>(crossbeam::channel::SendError<T>);

/// The failure of a crossbeam receive on a channel whose senders are all gone.
#[verifier::external_type_specification]
#[verifier::external_body]
pub struct ExRecvError(crossbeam::channel::RecvError);

/// A point in time of the monotonic clock.
#[verifier::external_type_specification]
#[verifier::external_body]
pub struct ExInstant(std::time::Instant);

} // verus!
