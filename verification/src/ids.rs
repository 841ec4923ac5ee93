//! Identifiers and clock readings, taken from the `uuid` and `chrono` crates.
use vstd::prelude::*;
use crate::blockchain::hex_char;

verus! {

/// Identifies an agent (a UUID, as its 128-bit value).
pub type AgentId = u128;

/// Identifies a task.
pub type TaskId = u128;

/// Identifies a plugin.
pub type PluginId = u128;

/// Identifies a hook.
pub type HookId = u128;

/// Identifies a message.
pub type MessageId = u128;

/// Whether `id` is a version-4 (random) UUID of the RFC 4122 variant.
pub open spec fn is_v4(id: u128) -> bool {
    (id >> 76u128) & 0xfu128 == 4 && (id >> 62u128) & 0x3u128 == 2
}

/// A fresh random identifier: `uuid::Uuid::new_v4()` as its `u128`. The
/// crate draws 128 random bits and then sets the version field (bits 76..80)
/// to 4 and the variant field (bits 62..64) to `0b10`; nothing else is
/// promised of the value, which changes from call to call. Like the crate,
/// it panics if the operating system's random source fails.
#[verifier::external_body]
pub fn new_v4_id() -> (r: u128)
    ensures
        (r >> 76u128) & 0xfu128 == 4,
        (r >> 62u128) & 0x3u128 == 2,
{
    uuid::Uuid::new_v4().as_u128()
}

/// Hexadecimal digit `i` of the 32 digits of `id`, counted from the most
/// significant one, in lower case.
pub open spec fn uuid_digit(id: u128, i: int) -> char {
    hex_char(((id >> ((124 - 4 * i) as u128)) & 0xfu128) as nat)
}

/// The text of a UUID as `uuid` renders it (`Display`): its 32 hexadecimal
/// digits, most significant first and in lower case, in groups of 8, 4, 4,
/// 4 and 12 joined by hyphens (36 characters, hyphens at 8, 13, 18 and 23).
pub open spec fn uuid_text(id: u128) -> Seq<char> {
    Seq::new(
        36,
        |i: int|
            if i == 8 || i == 13 || i == 18 || i == 23 {
                '-'
            } else if i < 8 {
                uuid_digit(id, i)
            } else if i < 13 {
                uuid_digit(id, i - 1)
            } else if i < 18 {
                uuid_digit(id, i - 2)
            } else if i < 23 {
                uuid_digit(id, i - 3)
            } else {
                uuid_digit(id, i - 4)
            },
    )
}

/// `uuid::Uuid::from_u128(id).to_string()`: `from_u128` takes the value's
/// big-endian bytes, and `Display` writes them as hyphenated lower-case
/// hexadecimal (`format_hyphenated` in the crate's `fmt` module).
#[verifier::external_body]
pub fn uuid_string(id: u128) -> (r: String)
    ensures
        r@ == uuid_text(id),
{
    uuid::Uuid::from_u128(id).to_string()
}

/// The current time from `chrono::Utc::now()`, as whole seconds since the
/// Unix epoch and the nanoseconds past that second. The reading depends on
/// the clock. chrono builds it from `SystemTime`'s duration since the epoch:
/// the nanoseconds are that duration's sub-second part, so below one
/// billion, and the seconds are its whole seconds, so not negative (a count
/// past `i64`'s range fails chrono's own range check). Like chrono, it
/// panics if the system clock reads a time before the Unix epoch or past
/// chrono's range.
#[verifier::external_body]
pub fn utc_now() -> (r: (i64, u32))
    ensures
        r.0 >= 0,
        r.1 < 1_000_000_000,
{
    let now = chrono::Utc::now();
    (now.timestamp(), now.timestamp_subsec_nanos())
}

} // verus!
