//! Durations, the current time, and calendar formatting of timestamps.
use std::time::{Duration, SystemTime};
use chrono::{DateTime, Utc};
use vstd::prelude::*;

verus! {

/// `Duration::from_secs`' result, as a function of the seconds.
pub uninterp spec fn duration_of_secs(secs: u64) -> Duration;

/// `std::time::Duration::from_secs`: the duration of `secs` whole seconds.
/// Its value is named by `duration_of_secs`; nothing else is claimed.
#[verifier::external_body]
pub(crate) fn duration_from_secs(secs: u64) -> (r: Duration)
    ensures
        r == duration_of_secs(secs),
{
    Duration::from_secs(secs)
}

/// Nanoseconds since the Unix epoch by the system clock
/// (`SystemTime::now().duration_since(UNIX_EPOCH)`, truncated to 64 bits);
/// a clock set before the epoch, which `duration_since` reports as an
/// error, reads as 0. The value depends on the clock: nothing is claimed
/// of it.
#[verifier::external_body]
pub(crate) fn current_time_nanos() -> (r: u64) {
    match SystemTime::now().duration_since(SystemTime::UNIX_EPOCH) {
        Ok(d) => d.as_nanos() as u64,
        Err(_) => 0,
    }
}

/// Whether `chrono::DateTime::from_timestamp` accepts a timestamp.
pub uninterp spec fn chrono_timestamp_valid(secs: i64, nanos: u32) -> bool;

/// The text chrono formats for an accepted timestamp.
pub uninterp spec fn chrono_utc_text(secs: i64, nanos: u32) -> Seq<char>;

/// `chrono::DateTime::<Utc>::from_timestamp(secs, nanos)`, formatted with
/// `"%Y-%m-%d %H:%M:%S.%f UTC"`: the UTC date and time `secs` seconds and
/// `nanos` nanoseconds after the Unix epoch with nine fractional digits, or
/// `None` when chrono refuses the timestamp (out of its range, or `nanos`
/// not a valid nanosecond count). Which timestamps are accepted, and the
/// text, are named by `chrono_timestamp_valid` and `chrono_utc_text`.
#[verifier::external_body]
fn utc_text_of_timestamp(secs: i64, nanos: u32) -> (r: Option<String>)
    ensures
        r is Some <==> chrono_timestamp_valid(secs, nanos),
        r matches Some(t) ==> t@ == chrono_utc_text(secs, nanos),
{
    DateTime::from_timestamp(secs, nanos).map(|dt: DateTime<Utc>| dt.format("%Y-%m-%d %H:%M:%S.%f UTC").to_string())
}

/// `n` in decimal, padded with zeros to nine digits.
pub open spec fn spec_nanos9(n: nat) -> Seq<char> {
    let d = crate::text::spec_decimal(n);
    Seq::new((9 - d.len()) as nat, |_i: int| '0') + d
}

/// A nanosecond timestamp as calendar text: `YYYY-MM-DD HH:MM:SS.nnnnnnnnn
/// UTC` when chrono accepts it, else `<seconds>.<nine nanosecond digits>`.
pub open spec fn spec_format_timestamp(timestamp_ns: u64) -> Seq<char> {
    let secs = timestamp_ns / 1_000_000_000;
    let nanos = timestamp_ns % 1_000_000_000;
    if chrono_timestamp_valid(secs as i64, nanos as u32) {
        chrono_utc_text(secs as i64, nanos as u32)
    } else {
        crate::text::spec_decimal(secs as nat) + "."@ + spec_nanos9(nanos as nat)
    }
}

/// A nanosecond timestamp as calendar text (see `spec_format_timestamp`).
pub fn format_timestamp(timestamp_ns: u64) -> (r: String)
    ensures
        r@ == spec_format_timestamp(timestamp_ns),
{
    let secs = timestamp_ns / 1_000_000_000;
    let nanos = (timestamp_ns % 1_000_000_000) as u32;
    match utc_text_of_timestamp(secs as i64, nanos) {
        Some(text) => text,
        None => {
            let s = crate::text::decimal_string(secs);
            let digits = crate::text::decimal_chars(nanos as u64);
            let mut padded: Vec<char> = Vec::new();
            proof {
                lemma_decimal_len_bound(nanos as nat);
            }
            while padded.len() + digits.len() < 9
                invariant
                    digits@ == crate::text::spec_decimal(nanos as nat),
                    digits@.len() <= 9,
                    padded@.len() + digits@.len() <= 9,
                    forall|i: int| 0 <= i < padded@.len() ==> padded@[i] == '0',
                decreases 9 - padded@.len() - digits@.len(),
            {
                padded.push('0');
            }
            padded.extend_from_slice(digits.as_slice());
            assert(padded@ =~= spec_nanos9(nanos as nat));
            let frac = crate::text::string_from_chars(padded.as_slice());
            crate::text::concat3(s.as_str(), ".", frac.as_str())
        },
    }
}

/// `10` to the power `k`.
pub open spec fn pow10(k: nat) -> nat
    decreases k,
{
    if k == 0 {
        1
    } else {
        pow10((k - 1) as nat) * 10
    }
}

/// A number below 10^k, k >= 1, has at most k decimal digits.
proof fn lemma_decimal_len(n: nat, k: nat)
    requires
        k >= 1,
        n < pow10(k),
    ensures
        crate::text::spec_decimal(n).len() <= k,
    decreases k,
{
    if n >= 10 {
        assert(k >= 2) by {
            if k == 1 {
                reveal_with_fuel(pow10, 2);
            }
        }
        let p = pow10((k - 1) as nat);
        assert(n / 10 < p) by (nonlinear_arith)
            requires
                n < p * 10,
        ;
        lemma_decimal_len(n / 10, (k - 1) as nat);
    }
}

/// A number below 10^9 has at most nine decimal digits.
proof fn lemma_decimal_len_bound(n: nat)
    requires
        n < 1_000_000_000,
    ensures
        crate::text::spec_decimal(n).len() <= 9,
{
    reveal_with_fuel(pow10, 10);
    lemma_decimal_len(n, 9);
}

} // verus!
