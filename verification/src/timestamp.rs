use vstd::prelude::*;

use crate::digits::{dec_str, u64_to_string};

verus! {

/// One wall-clock instant, broken into calendar fields for display and
/// carrying the same instant as whole seconds since the Unix epoch.
#[derive(Clone, Copy, PartialEq, Eq, Structural, Debug)]
pub struct Timestamp {
    pub year: i32,
    pub month: u8,
    pub day: u8,
    pub hour: u8,
    pub minute: u8,
    pub second: u8,
    pub epoch: i64,
}

impl Timestamp {
    /// The field ranges every clock reading satisfies.
    pub open spec fn wf(self) -> bool {
        &&& -262145 <= self.year <= 262144
        &&& 1 <= self.month <= 12
        &&& 1 <= self.day <= 31
        &&& self.hour <= 23
        &&& self.minute <= 59
        &&& self.second <= 59
        &&& -0x1000_0000_0000 < self.epoch < 0x1000_0000_0000
    }
}

/// A number in decimal, left-padded with zeros to two places.
pub open spec fn pad2_str(n: nat) -> Seq<char> {
    if n < 10 {
        seq!['0'] + dec_str(n)
    } else {
        dec_str(n)
    }
}

/// A number in decimal, left-padded with zeros to four places.
pub open spec fn pad4_str(n: nat) -> Seq<char> {
    if n < 10 {
        seq!['0', '0', '0'] + dec_str(n)
    } else if n < 100 {
        seq!['0', '0'] + dec_str(n)
    } else if n < 1000 {
        seq!['0'] + dec_str(n)
    } else {
        dec_str(n)
    }
}

/// A year in decimal, zero-padded to four places; a year outside 0 to 9999
/// carries an explicit sign.
pub open spec fn year_str(y: int) -> Seq<char> {
    if y < 0 {
        seq!['-'] + pad4_str((-y) as nat)
    } else if y > 9999 {
        seq!['+'] + pad4_str(y as nat)
    } else {
        pad4_str(y as nat)
    }
}

/// A timestamp written as `YYYY-MM-DD HH:MM:SS`.
pub open spec fn spec_timestamp_str(ts: Timestamp) -> Seq<char> {
    year_str(ts.year as int) + seq!['-'] + pad2_str(ts.month as nat) + seq!['-'] + pad2_str(
        ts.day as nat,
    ) + seq![' '] + pad2_str(ts.hour as nat) + seq![':'] + pad2_str(ts.minute as nat) + seq![':']
        + pad2_str(ts.second as nat)
}

/// Renders a number zero-padded to two places.
fn pad2(n: u8) -> (r: String)
    ensures
        r@ == pad2_str(n as nat),
{
    if n < 10 {
        let mut r = String::from_str("0");
        r.append(u64_to_string(n as u64).as_str());
        proof {
            reveal_strlit("0");
            assert(r@ =~= pad2_str(n as nat));
        }
        r
    } else {
        u64_to_string(n as u64)
    }
}

/// Renders a number zero-padded to four places.
fn pad4(n: u64) -> (r: String)
    ensures
        r@ == pad4_str(n as nat),
{
    let prefix = if n < 10 {
        "000"
    } else if n < 100 {
        "00"
    } else if n < 1000 {
        "0"
    } else {
        ""
    };
    let mut r = String::from_str(prefix);
    r.append(u64_to_string(n).as_str());
    proof {
        reveal_strlit("000");
        reveal_strlit("00");
        reveal_strlit("0");
        reveal_strlit("");
        assert(r@ =~= pad4_str(n as nat));
    }
    r
}

/// Renders a year zero-padded to four places, signed outside 0 to 9999.
fn format_year(y: i32) -> (r: String)
    ensures
        r@ == year_str(y as int),
{
    if y < 0 {
        let mag: u64 = (-(y as i64)) as u64;
        let mut r = String::from_str("-");
        r.append(pad4(mag).as_str());
        proof {
            reveal_strlit("-");
            assert(r@ =~= year_str(y as int));
        }
        r
    } else if y > 9999 {
        let mut r = String::from_str("+");
        r.append(pad4(y as u64).as_str());
        proof {
            reveal_strlit("+");
            assert(r@ =~= year_str(y as int));
        }
        r
    } else {
        pad4(y as u64)
    }
}

/// Renders a timestamp as `YYYY-MM-DD HH:MM:SS`.
pub fn format_timestamp(ts: &Timestamp) -> (r: String)
    ensures
        r@ == spec_timestamp_str(*ts),
{
    let mut r = format_year(ts.year);
    r.append("-");
    r.append(pad2(ts.month).as_str());
    r.append("-");
    r.append(pad2(ts.day).as_str());
    r.append(" ");
    r.append(pad2(ts.hour).as_str());
    r.append(":");
    r.append(pad2(ts.minute).as_str());
    r.append(":");
    r.append(pad2(ts.second).as_str());
    proof {
        reveal_strlit("-");
        reveal_strlit(" ");
        reveal_strlit(":");
        assert(r@ =~= spec_timestamp_str(*ts));
    }
    r
}

/// Reads the local wall clock.
///
/// Relies on `chrono::Local::now` and chrono's `Datelike` / `Timelike`
/// accessors: `month` is 1 to 12, `day` 1 to 31, `hour` 0 to 23, `minute`
/// and `second` 0 to 59, `year` within chrono's representable calendar
/// (magnitude below 262145), and `DateTime::timestamp` gives the instant
/// as seconds since the Unix epoch, within chrono's date range (magnitude
/// far below 2^44).
#[verifier::external_body]
pub fn now() -> (r: Timestamp)
    ensures
        r.wf(),
{
    let t = chrono::Local::now();
    Timestamp {
        year: chrono::Datelike::year(&t),
        month: chrono::Datelike::month(&t) as u8,
        day: chrono::Datelike::day(&t) as u8,
        hour: chrono::Timelike::hour(&t) as u8,
        minute: chrono::Timelike::minute(&t) as u8,
        second: chrono::Timelike::second(&t) as u8,
        epoch: t.timestamp(),
    }
}

} // verus!
