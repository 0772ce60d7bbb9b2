//! Trusted contracts for the few std functions that vstd leaves unspecified.
//! Everything in this file is believed, not proved.
use vstd::prelude::*;

verus! {

/// Calls `Vec::try_reserve_exact` and reports whether the reservation was
/// granted. Reserving never changes the vector's contents; whether it
/// succeeds depends on the allocator, so nothing is claimed about the answer.
#[verifier::external_body]
pub(crate) fn try_reserve_exact<T>(v: &mut Vec<T>, additional: usize) -> (ok: bool)
    ensures
        final(v)@ == old(v)@,
{
    v.try_reserve_exact(additional).is_ok()
}

/// `==` on string slices (`<str as PartialEq>::eq`): true exactly when both
/// hold the same characters.
#[verifier::external_body]
pub(crate) fn str_eq(a: &str, b: &str) -> (r: bool)
    ensures
        r == (a@ == b@),
{
    a == b
}

/// Renders a `std::sync::mpsc::RecvError` with its `Display` impl. Nothing
/// is claimed about the text.
#[verifier::external_body]
pub(crate) fn recv_error_text(e: &std::sync::mpsc::RecvError) -> String {
    format!("{e}")
}

/// Renders a `std::collections::TryReserveError` with its `Display` impl.
/// Nothing is claimed about the text.
#[verifier::external_body]
pub(crate) fn try_reserve_error_text(e: &std::collections::TryReserveError) -> String {
    format!("{e}")
}

/// `std::sync::mpsc::Receiver`, carried through opaquely.
#[verifier::external_type_specification]
#[verifier::external_body]
#[verifier::reject_recursive_types(T)]
pub struct ExReceiver<T>(std::sync::mpsc::Receiver<T>);

/// Calls `Receiver::try_recv`, which never blocks: a value that has already
/// arrived is returned, and both of its failures (nothing has arrived yet,
/// or every sender is gone) are reported as `RecvError`. What arrives is up
/// to the sender; nothing is claimed.
#[verifier::external_body]
pub(crate) fn recv_now<T>(rx: &std::sync::mpsc::Receiver<T>) -> Result<T, std::sync::mpsc::RecvError> {
    match rx.try_recv() {
        Ok(v) => Ok(v),
        Err(_) => Err(std::sync::mpsc::RecvError),
    }
}

} // verus!
