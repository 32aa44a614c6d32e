//! What the library takes from other crates and from the standard library without
//! proof: random bytes, hashes, hexadecimal text, the clock, and Kubernetes API
//! values that are carried from a resource into a pod without looking inside.

use rand::Rng;
use sha2::Digest;
use vstd::prelude::*;
use vstd::utf8::{decode_utf8, valid_utf8};

verus! {

// ── Random bytes, hashes, hexadecimal text ──────────────────────────────────

/// `Rng::fill` of the thread's random number generator fills a slice. Nothing is
/// said of the bytes.
#[verifier::external_body]
pub(crate) fn random_bytes(len: usize) -> (r: Vec<u8>)
    ensures
        r@.len() == len,
{
    let mut bytes = vec![0u8; len];
    rand::thread_rng().fill(&mut bytes[..]);
    bytes
}

/// The hexadecimal digit of `n < 16`, in lower case.
pub open spec fn hex_digit(n: int) -> char {
    if n < 10 {
        (48 + n) as u8 as char
    } else {
        (87 + n) as u8 as char
    }
}

/// Two lower case hexadecimal digits for each byte, the high one first.
pub open spec fn hex_text(bytes: Seq<u8>) -> Seq<char> {
    Seq::new(
        2 * bytes.len(),
        |i: int|
            if i % 2 == 0 {
                hex_digit(bytes[i / 2] as int / 16)
            } else {
                hex_digit(bytes[i / 2] as int % 16)
            },
    )
}

/// `hex::encode` writes each byte as two lower case hexadecimal digits.
#[verifier::external_body]
pub(crate) fn hex_encode(bytes: &Vec<u8>) -> (r: String)
    ensures
        r@ == hex_text(bytes@),
{
    hex::encode(bytes)
}

/// The SHA-256 hash of a byte string.
pub uninterp spec fn sha256(data: Seq<u8>) -> Seq<u8>;

/// `Sha256::digest` hashes a byte string to 32 bytes.
#[verifier::external_body]
pub(crate) fn sha256_digest(data: &[u8]) -> (r: Vec<u8>)
    ensures
        r@ == sha256(data@),
        r@.len() == 32,
{
    sha2::Sha256::digest(data).to_vec()
}

// ── Text from bytes ─────────────────────────────────────────────────────────

/// The text that `String::from_utf8_lossy` makes of a byte string.
pub uninterp spec fn lossy_text(bytes: Seq<u8>) -> Seq<char>;

/// `String::from_utf8_lossy` decodes valid UTF-8, and puts a replacement character
/// in the place of what is not.
#[verifier::external_body]
pub(crate) fn text_from_bytes(bytes: &Vec<u8>) -> (r: String)
    ensures
        r@ == lossy_text(bytes@),
        valid_utf8(bytes@) ==> r@ == decode_utf8(bytes@),
{
    String::from_utf8_lossy(bytes).into_owned()
}

// ── The clock ───────────────────────────────────────────────────────────────

/// Whether seconds since the Unix epoch, and nanoseconds within the second, are a moment that
/// chrono has: one of the years from 262144 BCE to 262142 CE. A leap second is written as
/// nanoseconds above a full second, in the last second of a minute.
pub open spec fn is_moment(secs: i64, nanos: u32) -> bool {
    &&& -8_334_601_228_800 <= secs <= 8_210_266_876_799
    &&& nanos < 1_000_000_000 || (nanos < 2_000_000_000 && secs % 60 == 59)
}

/// How chrono writes a moment in a format, where the moment is in its range.
pub uninterp spec fn datetime_text(secs: i64, nanos: u32, format: Seq<char>) -> Option<Seq<char>>;

/// `Utc::now`: seconds since the Unix epoch, and nanoseconds within the second, never a leap
/// second. `Utc::now` panics where the machine's clock is set to a time before the epoch.
#[verifier::external_body]
pub(crate) fn utc_now() -> (r: (i64, u32))
    ensures
        r.0 >= 0,
        r.1 < 1_000_000_000,
        is_moment(r.0, r.1),
{
    let now = chrono::Utc::now();
    (now.timestamp(), now.timestamp_subsec_nanos())
}

/// `DateTime::format` of the moment that `DateTime::from_timestamp` makes. It makes one wherever
/// chrono has that moment.
#[verifier::external_body]
pub(crate) fn format_datetime(secs: i64, nanos: u32, format: &str) -> (r: Option<String>)
    requires
        format@ == "%Y-%m-%d %H:%M:%S"@,
    ensures
        r is Some == is_moment(secs, nanos),
        r is Some == datetime_text(secs, nanos, format@) is Some,
        r matches Some(text) ==> Some(text@) == datetime_text(secs, nanos, format@),
{
    let moment = chrono::DateTime::from_timestamp(secs, nanos)?;
    Some(moment.format(format).to_string())
}

/// The moment that an RFC 3339 text stands for, where it is one: seconds since the
/// Unix epoch, and nanoseconds within the second.
pub uninterp spec fn rfc3339_moment(s: Seq<char>) -> Option<(i64, u32)>;

/// `DateTime::parse_from_rfc3339`, with the moment taken by `timestamp` and
/// `timestamp_subsec_nanos`. Years have four digits and offsets whole minutes, so it is a moment
/// that chrono has.
#[verifier::external_body]
pub(crate) fn parse_rfc3339(s: &str) -> (r: Option<(i64, u32)>)
    ensures
        r == rfc3339_moment(s@),
        r matches Some(moment) ==> is_moment(moment.0, moment.1),
{
    match chrono::DateTime::parse_from_rfc3339(s) {
        Ok(t) => Some((t.timestamp(), t.timestamp_subsec_nanos())),
        Err(_) => None,
    }
}

/// The nanoseconds from one moment to another. A leap second counts as one second behind the
/// second that it is written in. Two moments are compared day by day and then by the time of day,
/// so a leap second at the earlier time of day does not count.
pub open spec fn nanos_until(from: (i64, u32), to: (i64, u32)) -> int {
    let plain = (to.0 - from.0) * 1_000_000_000 + (to.1 - from.1);
    let from_time = from.0 as int % 86_400;
    let to_time = to.0 as int % 86_400;
    if from.1 >= 1_000_000_000 && from_time < to_time {
        plain + 1_000_000_000
    } else if to.1 >= 1_000_000_000 && to_time < from_time {
        plain - 1_000_000_000
    } else {
        plain
    }
}

/// The time from one moment to another, seconds and nanoseconds. There is none where it would be
/// negative, or where chrono does not have the moments.
pub open spec fn time_until(from: (i64, u32), to: (i64, u32)) -> Option<(u64, u32)> {
    let nanos = nanos_until(from, to);
    if is_moment(from.0, from.1) && is_moment(to.0, to.1) && nanos >= 0 {
        Some(((nanos / 1_000_000_000) as u64, (nanos % 1_000_000_000) as u32))
    } else {
        None
    }
}

/// The difference of two `DateTime`s, by `DateTime::signed_duration_since`, as a
/// `std::time::Duration`, by `TimeDelta::to_std`. The two are made by `DateTime::from_timestamp`,
/// wherever chrono has the moments.
#[verifier::external_body]
pub(crate) fn duration_until(from: (i64, u32), to: (i64, u32)) -> (r: Option<(u64, u32)>)
    ensures
        r == time_until(from, to),
{
    let start = chrono::DateTime::from_timestamp(from.0, from.1)?;
    let end = chrono::DateTime::from_timestamp(to.0, to.1)?;
    let delay = (end - start).to_std().ok()?;
    Some((delay.as_secs(), delay.subsec_nanos()))
}

// ── Kubernetes API values ───────────────────────────────────────────────────

/// Scheduling constraints of a pod.
#[verifier::external_type_specification]
#[verifier::external_body]
pub struct ExAffinity(k8s_openapi::api::core::v1::Affinity);

/// A source of environment variables for a container.
#[verifier::external_type_specification]
#[verifier::external_body]
pub struct ExEnvFromSource(k8s_openapi::api::core::v1::EnvFromSource);

/// Compute resources of a container.
#[verifier::external_type_specification]
#[verifier::external_body]
pub struct ExResourceRequirements(k8s_openapi::api::core::v1::ResourceRequirements);

/// A taint that a pod tolerates.
#[verifier::external_type_specification]
#[verifier::external_body]
pub struct ExToleration(k8s_openapi::api::core::v1::Toleration);

/// `Affinity::clone` copies every field.
pub assume_specification[ <k8s_openapi::api::core::v1::Affinity as Clone>::clone ](
    value: &k8s_openapi::api::core::v1::Affinity,
) -> (r: k8s_openapi::api::core::v1::Affinity)
    ensures
        r == *value,
;

/// `EnvFromSource::clone` copies every field.
pub assume_specification[ <k8s_openapi::api::core::v1::EnvFromSource as Clone>::clone ](
    value: &k8s_openapi::api::core::v1::EnvFromSource,
) -> (r: k8s_openapi::api::core::v1::EnvFromSource)
    ensures
        r == *value,
;

/// `ResourceRequirements::clone` copies every field.
pub assume_specification[ <k8s_openapi::api::core::v1::ResourceRequirements as Clone>::clone ](
    value: &k8s_openapi::api::core::v1::ResourceRequirements,
) -> (r: k8s_openapi::api::core::v1::ResourceRequirements)
    ensures
        r == *value,
;

/// `Toleration::clone` copies every field.
pub assume_specification[ <k8s_openapi::api::core::v1::Toleration as Clone>::clone ](
    value: &k8s_openapi::api::core::v1::Toleration,
) -> (r: k8s_openapi::api::core::v1::Toleration)
    ensures
        r == *value,
;

} // verus!
