//! The events the renderer consumes: a configuration snapshot, alert
//! records, and second-precision timestamps.
//!
//! All values are plain data produced elsewhere (configuration loader,
//! detection pipeline, clock) and borrowed by the rendering functions.

use vstd::prelude::*;
use crate::text::{
    digit_char, is_digit, no_escape, push_four_digits, push_two_digits,
};

verus! {

/// A local calendar time with second precision.
#[derive(Clone, Copy, PartialEq, Eq, Structural)]
pub struct Timestamp {
    pub year: u16,
    pub month: u8,
    pub day: u8,
    pub hour: u8,
    pub minute: u8,
    pub second: u8,
}

impl Timestamp {
    /// Field ranges of a calendar time that renders as `YYYY-MM-DD HH:MM:SS`.
    pub open spec fn wf(self) -> bool {
        &&& self.year <= 9999
        &&& 1 <= self.month <= 12
        &&& 1 <= self.day <= 31
        &&& self.hour <= 23
        &&& self.minute <= 59
        &&& self.second <= 59
    }

    /// The nineteen characters `YYYY-MM-DD HH:MM:SS`.
    pub open spec fn text(self) -> Seq<char> {
        seq![
            digit_char(self.year as nat / 1000),
            digit_char((self.year as nat / 100) % 10),
            digit_char((self.year as nat / 10) % 10),
            digit_char(self.year as nat % 10),
            '-',
            digit_char(self.month as nat / 10),
            digit_char(self.month as nat % 10),
            '-',
            digit_char(self.day as nat / 10),
            digit_char(self.day as nat % 10),
            ' ',
            digit_char(self.hour as nat / 10),
            digit_char(self.hour as nat % 10),
            ':',
            digit_char(self.minute as nat / 10),
            digit_char(self.minute as nat % 10),
            ':',
            digit_char(self.second as nat / 10),
            digit_char(self.second as nat % 10),
        ]
    }
}

/// Appends `ts` rendered as `YYYY-MM-DD HH:MM:SS`.
pub fn push_timestamp(out: &mut String, ts: &Timestamp)
    requires
        ts.wf(),
    ensures
        final(out)@ == old(out)@ + ts.text(),
{
    proof {
        reveal_strlit("-");
        reveal_strlit(" ");
        reveal_strlit(":");
    }
    push_four_digits(out, ts.year as u64);
    out.append("-");
    push_two_digits(out, ts.month as u64);
    out.append("-");
    push_two_digits(out, ts.day as u64);
    out.append(" ");
    push_two_digits(out, ts.hour as u64);
    out.append(":");
    push_two_digits(out, ts.minute as u64);
    out.append(":");
    push_two_digits(out, ts.second as u64);
    proof {
        assert(final(out)@ =~= old(out)@ + ts.text());
    }
}

/// The shape `YYYY-MM-DD HH:MM:SS`: nineteen characters, decimal digits in
/// the date and time positions, with the fixed separators between them.
pub open spec fn is_timestamp_text(s: Seq<char>) -> bool {
    &&& s.len() == 19
    &&& is_digit(s[0]) && is_digit(s[1]) && is_digit(s[2]) && is_digit(s[3])
    &&& s[4] == '-'
    &&& is_digit(s[5]) && is_digit(s[6])
    &&& s[7] == '-'
    &&& is_digit(s[8]) && is_digit(s[9])
    &&& s[10] == ' '
    &&& is_digit(s[11]) && is_digit(s[12])
    &&& s[13] == ':'
    &&& is_digit(s[14]) && is_digit(s[15])
    &&& s[16] == ':'
    &&& is_digit(s[17]) && is_digit(s[18])
}

/// A well-formed timestamp renders in the `YYYY-MM-DD HH:MM:SS` shape and
/// contains no escape character.
pub proof fn lemma_timestamp_text_shape(ts: Timestamp)
    requires
        ts.wf(),
    ensures
        is_timestamp_text(ts.text()),
        no_escape(ts.text()),
{
}

/// The classification of an alert: a closed set of scan types, so that every
/// rendering dispatch over it is checked for exhaustiveness.
#[derive(Clone, Copy, PartialEq, Eq, Structural, Debug)]
pub enum ScanType {
    Fast,
    Slow,
}

/// One port-scan alert as the detection pipeline hands it over.
pub struct Alert {
    pub source_ip: String,
    pub scan_type: ScanType,
    pub timestamp: Timestamp,
    pub unique_ports: Vec<u16>,
}

impl Alert {
    /// An alert always carries a well-formed timestamp and at least one port.
    pub open spec fn wf(self) -> bool {
        &&& self.timestamp.wf()
        &&& self.unique_ports@.len() >= 1
    }
}

/// The configuration snapshot shown by the startup banner, produced once by
/// the configuration loader.
pub struct ConfigSnapshot {
    pub parser: String,
    pub listen_port: u16,
    pub siem_enabled: bool,
    pub siem_host: String,
    pub siem_port: u16,
    pub email_enabled: bool,
    pub fast_port_threshold: u32,
    pub fast_window_secs: u32,
    pub slow_port_threshold: u32,
    pub slow_window_mins: u32,
}

} // verus!
