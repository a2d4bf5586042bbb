//! Calls into the crates that supply identifiers, random draws and the wall
//! clock. Their contracts are stated here and believed, not proved.

use vstd::prelude::*;
use rand::seq::SliceRandom;
use std::time::{Duration, Instant};
use crate::text::{option_text, texts};

verus! {

/// Calls `uuid::Uuid::new_v4` and renders the identifier with its `Display`
/// impl, which writes the hyphenated lower-case form: 32 hexadecimal digits
/// and 4 hyphens. Nothing is claimed of which identifier comes back.
#[verifier::external_body]
pub(crate) fn fresh_identifier() -> (id: String)
    ensures
        id@.len() == 36,
{
    uuid::Uuid::new_v4().to_string()
}

/// Calls `rand::random::<usize>()`. The draw may be any `usize`.
#[verifier::external_body]
pub(crate) fn random_draw() -> (draw: usize)
{
    rand::random::<usize>()
}

/// What a pick from `options` may be: nothing when there is nothing to pick
/// from, and otherwise one of the entries.
pub open spec fn is_pick_of(options: Seq<Seq<char>>, picked: Option<Seq<char>>) -> bool {
    match picked {
        None => options.len() == 0,
        Some(text) => options.contains(text),
    }
}

/// Calls `rand::seq::SliceRandom::choose` on the slice of `options` with the
/// thread-local generator. The crate returns `None` exactly for an empty
/// slice, and otherwise a reference to one of the elements; which one is
/// left open. The element is cloned.
#[verifier::external_body]
pub(crate) fn choose_one(options: &Vec<String>) -> (picked: Option<String>)
    ensures
        is_pick_of(texts(options@), option_text(picked)),
{
    options.choose(&mut rand::thread_rng()).cloned()
}

/// Calls `chrono::Utc::now` and `DateTime::to_rfc3339` on the result. The
/// text depends on the clock, so nothing is claimed of it.
#[verifier::external_body]
pub(crate) fn utc_timestamp() -> (stamp: String)
{
    chrono::Utc::now().to_rfc3339()
}

/// A point on the monotonic clock of std.
#[verifier::external_type_specification]
#[verifier::external_body]
pub struct ExInstant(Instant);

/// Calls `std::time::Instant::now`. Nothing is claimed of the instant.
#[verifier::external_body]
pub(crate) fn clock_now() -> (now: Instant)
{
    Instant::now()
}

/// Calls `std::time::Instant::elapsed`. Nothing is claimed of the span.
#[verifier::external_body]
pub(crate) fn elapsed_since(start: &Instant) -> (span: Duration)
{
    start.elapsed()
}

/// Calls `std::time::Duration::as_millis`. Nothing is claimed of the count.
#[verifier::external_body]
pub(crate) fn whole_millis(span: &Duration) -> (millis: u128)
{
    span.as_millis()
}

} // verus!
