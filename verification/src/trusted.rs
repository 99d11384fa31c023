//! The calls into other crates: a fresh identifier, the time, and the reading
//! of an HTTP status. Each stands behind a contract that is believed, not
//! proved; the doc comment of each says what it claims of the code it calls.

use vstd::prelude::*;

verus! {

/// The bits of a 128-bit identifier that hold its version and variant.
pub const UUID_TAG_MASK: u128 = 0x0000_0000_0000_F000_C000_0000_0000_0000;

/// Version 4, variant RFC 4122, at the place of those bits.
pub const UUID_RANDOM_TAG: u128 = 0x0000_0000_0000_4000_8000_0000_0000_0000;

/// Whether `id` carries the version and variant bits of a random UUID.
pub open spec fn is_random_uuid(id: u128) -> bool {
    id & UUID_TAG_MASK == UUID_RANDOM_TAG
}

/// The last millisecond the clock can show: the end of the year 262142, the
/// last year that a `chrono` date reaches.
pub const MAX_CLOCK_MILLIS: i64 = 8_210_266_876_799_999;

/// Whether `now` is an instant the clock can show, in milliseconds since the
/// Unix epoch.
pub open spec fn is_clock_reading(now: i64) -> bool {
    0 <= now <= MAX_CLOCK_MILLIS
}

/// Whether an HTTP status is one of success: 200 to 299.
pub open spec fn spec_status_accepted(status: u16) -> bool {
    200 <= status < 300
}

/// Calls `uuid::Uuid::new_v4` and reads the result with `Uuid::as_u128`.
///
/// Trusted: the identifier has version 4 and the RFC 4122 variant, which
/// `new_v4` sets by mask on the 128 random bits it draws. Nothing is claimed
/// of the other 122 bits. `new_v4` panics where the operating system hands
/// out no random bytes.
#[verifier::external_body]
pub(crate) fn fresh_session_id() -> (id: u128)
    ensures
        is_random_uuid(id),
{
    uuid::Uuid::new_v4().as_u128()
}

/// Calls `chrono::Utc::now` and reads the result with
/// `DateTime::timestamp_millis`: milliseconds since the Unix epoch.
///
/// Trusted: the instant is not before the Unix epoch, since `now` measures
/// the time elapsed since then (and panics on a system clock set before it);
/// and it is not after the last millisecond of the year 262142, since `now`
/// builds its result with `DateTime::from_timestamp`, which gives none for a
/// date after `NaiveDate::MAX`, and unwraps it.
#[verifier::external_body]
pub(crate) fn current_time_millis() -> (now: i64)
    ensures
        is_clock_reading(now),
{
    chrono::Utc::now().timestamp_millis()
}

/// Calls `reqwest::StatusCode::from_u16` and, on the status it gives,
/// `StatusCode::is_success`.
///
/// Trusted: the answer is `true` exactly for 200 to 299. `from_u16` refuses
/// what is not within 100 to 999, which is then no success; `is_success`
/// tests for the range 200 to 299.
#[verifier::external_body]
pub(crate) fn status_accepted(status: u16) -> (accepted: bool)
    ensures
        accepted == spec_status_accepted(status),
{
    match reqwest::StatusCode::from_u16(status) {
        Ok(code) => code.is_success(),
        Err(_) => false,
    }
}

/// The empty identifier is no random UUID.
pub proof fn lemma_no_session_is_not_random()
    ensures
        !is_random_uuid(0),
{
    assert(0u128 & 0x0000_0000_0000_F000_C000_0000_0000_0000u128
        != 0x0000_0000_0000_4000_8000_0000_0000_0000u128) by (bit_vector);
}

} // verus!
