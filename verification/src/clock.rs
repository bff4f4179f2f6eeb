//! The one reading the renderer takes from the outside world: the current
//! local time, turned into a well-formed [`Timestamp`] whatever the machine
//! clock reports.

use vstd::prelude::*;
use crate::event::Timestamp;
use chrono::Datelike;
use chrono::Timelike;

verus! {

/// Relies on chrono's `Local::now` and its `Datelike`/`Timelike` accessors:
/// `month` ranges over 1..=12, `day` over 1..=31, `hour` over 0..=23,
/// `minute` and `second` over 0..=59. The year is any `i32`.
#[verifier::external_body]
fn now_parts() -> (r: (i32, u32, u32, u32, u32, u32))
    ensures
        1 <= r.1 <= 12,
        1 <= r.2 <= 31,
        r.3 <= 23,
        r.4 <= 59,
        r.5 <= 59,
{
    let now = chrono::Local::now();
    (now.year(), now.month(), now.day(), now.hour(), now.minute(), now.second())
}

/// The current local time, second precision. A clock reading whose year
/// falls outside the four-digit range is clamped to it, so the result always
/// renders as `YYYY-MM-DD HH:MM:SS`.
pub fn current_timestamp() -> (r: Timestamp)
    ensures
        r.wf(),
{
    let (y, mo, d, h, mi, s) = now_parts();
    let year: u16 = if y < 0 {
        0
    } else if y > 9999 {
        9999
    } else {
        y as u16
    };
    Timestamp {
        year,
        month: mo as u8,
        day: d as u8,
        hour: h as u8,
        minute: mi as u8,
        second: s as u8,
    }
}

} // verus!
