//! Response identifiers and creation timestamps.
use vstd::prelude::*;

verus! {

/// Relies on `uuid::Uuid::new_v4` and the `Simple` format of `uuid`: a
/// random identifier written as 32 lowercase hexadecimal digits.
#[verifier::external_body]
fn random_uuid_simple() -> (r: String)
    ensures
        r@.len() == 32,
{
    uuid::Uuid::new_v4().as_simple().to_string()
}

#[verifier::external_type_specification]
#[verifier::external_body]
pub struct ExSystemTime(std::time::SystemTime);

#[verifier::external_type_specification]
#[verifier::external_body]
pub struct ExSystemTimeError(std::time::SystemTimeError);

/// Relies on `std::time::SystemTime::now`: the current reading of the
/// system clock, of which nothing is promised.
pub assume_specification[ std::time::SystemTime::now ]() -> std::time::SystemTime;

/// Relies on `std::time::SystemTime::duration_since`: the time elapsed since
/// an earlier reading, or an error when the reading is later.
pub assume_specification[ std::time::SystemTime::duration_since ](
    t: &std::time::SystemTime,
    earlier: std::time::SystemTime,
) -> core::result::Result<core::time::Duration, std::time::SystemTimeError>;

/// Relies on `Duration::as_secs`: the whole seconds of a duration.
pub assume_specification[ core::time::Duration::as_secs ](d: &core::time::Duration) -> u64;

/// Relies on `std::time::UNIX_EPOCH`: the clock reading of the Unix epoch.
#[verifier::external_body]
fn unix_epoch() -> std::time::SystemTime {
    std::time::UNIX_EPOCH
}

/// Whole seconds since the Unix epoch, or `None` when the clock reads
/// earlier than the epoch.
fn seconds_since_epoch() -> Option<u64> {
    let now = std::time::SystemTime::now();
    match now.duration_since(unix_epoch()) {
        Ok(d) => Some(d.as_secs()),
        Err(_) => None,
    }
}

pub open spec fn chat_cmpl_prefix() -> Seq<char> {
    seq!['c', 'h', 'a', 't', 'c', 'm', 'p', 'l', '-']
}

pub open spec fn tool_call_prefix() -> Seq<char> {
    seq!['c', 'a', 'l', 'l', '_']
}

/// Whether `s` is `prefix` followed by 32 characters.
pub open spec fn is_prefixed_id(s: Seq<char>, prefix: Seq<char>) -> bool {
    s.len() == prefix.len() + 32 && s.subrange(0, prefix.len() as int) == prefix
}

/// The timestamp that a clock reading stands for: the seconds truncated to
/// 32 bits, 0 for a clock before the epoch.
pub open spec fn timestamp_of(secs: Option<u64>) -> u32 {
    match secs {
        Some(s) => s as u32,
        None => 0,
    }
}

pub fn timestamp_from_secs(secs: Option<u64>) -> (r: u32)
    ensures
        r == timestamp_of(secs),
{
    match secs {
        Some(s) => s as u32,
        None => 0,
    }
}

/// Seconds since the Unix epoch, truncated to 32 bits; 0 when the clock
/// reads earlier than the epoch (see `timestamp_from_secs`).
pub fn unix_timestamp() -> u32 {
    let secs = seconds_since_epoch();
    timestamp_from_secs(secs)
}

/// `prefix` followed by `tail`.
pub fn prefixed(prefix: &str, tail: &str) -> (r: String)
    ensures
        r@ == prefix@ + tail@,
{
    let mut s = prefix.to_string();
    s.push_str(tail);
    s
}

/// A fresh completion identifier: `chatcmpl-` and 32 random hex digits.
pub fn generate_chat_cmpl_id() -> (r: String)
    ensures
        is_prefixed_id(r@, chat_cmpl_prefix()),
{
    let u = random_uuid_simple();
    let r = prefixed("chatcmpl-", u.as_str());
    proof {
        reveal_strlit("chatcmpl-");
        assert(r@.subrange(0, 9) =~= chat_cmpl_prefix());
    }
    r
}

/// A fresh tool-call identifier: `call_` and 32 random hex digits.
pub fn generate_tool_call_id() -> (r: String)
    ensures
        is_prefixed_id(r@, tool_call_prefix()),
{
    let u = random_uuid_simple();
    let r = prefixed("call_", u.as_str());
    proof {
        reveal_strlit("call_");
        assert(r@.subrange(0, 5) =~= tool_call_prefix());
    }
    r
}

} // verus!
