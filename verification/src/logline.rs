//! Building the timestamped lines of the activity log.
//!
//! Each line written to the log file is the current UTC time in RFC 3339
//! form, the separator `" - "`, the console message, and a newline. The
//! assembly is verified; only reading the clock is trusted.

use vstd::prelude::*;

verus! {

/// The bytes separating the timestamp from the message: `" - "`.
pub open spec fn separator_bytes() -> Seq<u8> {
    seq![32u8, 45u8, 32u8]
}

/// The newline byte that ends each log line.
pub open spec fn newline_byte() -> u8 {
    10u8
}

/// One log-file line: timestamp, `" - "`, message, newline.
pub open spec fn log_line(timestamp: Seq<u8>, message: Seq<u8>) -> Seq<u8> {
    timestamp + separator_bytes() + message + seq![newline_byte()]
}

/// Assemble one log line from the given timestamp and message bytes.
pub fn compose_log_line(timestamp: &Vec<u8>, message: &Vec<u8>) -> (r: Vec<u8>)
    ensures
        r@ == log_line(timestamp@, message@),
{
    let mut line: Vec<u8> = Vec::new();
    let mut i: usize = 0;
    while i < timestamp.len()
        invariant
            i <= timestamp@.len(),
            line@ == timestamp@.subrange(0, i as int),
        decreases timestamp@.len() - i,
    {
        line.push(timestamp[i]);
        proof {
            assert(timestamp@.subrange(0, i as int).push(timestamp@[i as int]) =~= timestamp@
                .subrange(0, i as int + 1));
        }
        i = i + 1;
    }
    proof {
        assert(timestamp@.subrange(0, timestamp@.len() as int) =~= timestamp@);
    }
    line.push(32u8);
    line.push(45u8);
    line.push(32u8);
    proof {
        assert(line@ =~= timestamp@ + separator_bytes());
    }
    let mut j: usize = 0;
    while j < message.len()
        invariant
            j <= message@.len(),
            line@ == timestamp@ + separator_bytes() + message@.subrange(0, j as int),
        decreases message@.len() - j,
    {
        line.push(message[j]);
        proof {
            assert((timestamp@ + separator_bytes() + message@.subrange(0, j as int)).push(
                message@[j as int],
            ) =~= timestamp@ + separator_bytes() + message@.subrange(0, j as int + 1));
        }
        j = j + 1;
    }
    line.push(10u8);
    proof {
        assert(message@.subrange(0, message@.len() as int) =~= message@);
        assert(line@ =~= log_line(timestamp@, message@));
    }
    line
}

/// Relies on `time::now_utc` and `time::Tm::rfc3339`: the current UTC time
/// rendered by the RFC 3339 formatter. For a UTC time the formatter writes
/// numbers and the literal separators `-`, `T` and `:`, and ends with the
/// literal `Z`; none of its output is a newline.
#[verifier::external_body]
fn now_utc_rfc3339_bytes() -> (r: Vec<u8>)
    ensures
        r@.len() > 0,
        r@[r@.len() - 1] == 90u8,
        forall|i: int| 0 <= i < r@.len() ==> r@[i] != 10u8,
{
    time::now_utc().rfc3339().to_string().into_bytes()
}

/// One timestamped log line for the message: the current UTC time, `" - "`,
/// the message, and the terminating newline. The timestamp itself is
/// whatever the clock said, but it is never empty and never contains a
/// newline, so the result is exactly one line.
pub fn timestamped_line(message: &Vec<u8>) -> (r: Vec<u8>)
    ensures
        exists|ts: Seq<u8>|
            r@ == log_line(ts, message@) && ts.len() > 0 && (forall|i: int|
                0 <= i < ts.len() ==> ts[i] != 10u8),
{
    let ts = now_utc_rfc3339_bytes();
    let r = compose_log_line(&ts, message);
    proof {
        assert(r@ == log_line(ts@, message@) && ts@.len() > 0 && (forall|i: int|
            0 <= i < ts@.len() ==> ts@[i] != 10u8));
    }
    r
}

} // verus!
