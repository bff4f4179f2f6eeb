//! The renderer itself: every function takes already-computed event values
//! and the styling capability, and returns the exact text of the lines to
//! write, one `String` per visual line.
//!
//! Each function's contract pins the returned text, character for character,
//! through the spec functions beside it.

use vstd::prelude::*;
use crate::event::{Alert, ConfigSnapshot, ScanType, Timestamp};
use crate::style::{paint, painted, push_painted, Style};
use crate::text::{
    dec_rep, pad_right, pad_right_string, push_decimal, repeat_piece, repeated, to_upper_ascii,
    upper_seq,
};

verus! {

/// A timestamp in square brackets, the head of every log and alert line.
pub open spec fn stamped(ts: Timestamp) -> Seq<char> {
    "["@ + ts.text() + "]"@
}

fn stamp_string(ts: &Timestamp) -> (r: String)
    requires
        ts.wf(),
    ensures
        r@ == stamped(*ts),
{
    let mut out = String::new();
    out.append("[");
    crate::event::push_timestamp(&mut out, ts);
    out.append("]");
    proof {
        assert(out@ =~= stamped(*ts));
    }
    out
}

/// One informational log line: dimmed bracketed timestamp, `[INFO]` tag in
/// neutral styling, then the message unstyled.
pub open spec fn info_line(ts: Timestamp, msg: Seq<char>, styled: bool) -> Seq<char> {
    painted(stamped(ts), Style::Dimmed, styled) + " "@ + painted("[INFO]"@, Style::BlueBold, styled)
        + " "@ + msg
}

/// One warning log line: the `[WARN]` tag carries attention styling.
pub open spec fn warning_line(ts: Timestamp, msg: Seq<char>, styled: bool) -> Seq<char> {
    painted(stamped(ts), Style::Dimmed, styled) + " "@ + painted(
        "[WARN]"@,
        Style::YellowBold,
        styled,
    ) + " "@ + msg
}

/// One error log line: the `[ERROR]` tag and the message body both carry
/// critical styling.
pub open spec fn error_line(ts: Timestamp, msg: Seq<char>, styled: bool) -> Seq<char> {
    painted(stamped(ts), Style::Dimmed, styled) + " "@ + painted(
        "[ERROR]"@,
        Style::RedBold,
        styled,
    ) + " "@ + painted(msg, Style::Red, styled)
}

/// Renders an informational message as one line of text.
pub fn log_info(ts: &Timestamp, message: &str, styled: bool) -> (line: String)
    requires
        ts.wf(),
    ensures
        line@ == info_line(*ts, message@, styled),
{
    let stamp = stamp_string(ts);
    let mut out = String::new();
    push_painted(&mut out, stamp.as_str(), Style::Dimmed, styled);
    out.append(" ");
    push_painted(&mut out, "[INFO]", Style::BlueBold, styled);
    out.append(" ");
    out.append(message);
    proof {
        assert(out@ =~= info_line(*ts, message@, styled));
    }
    out
}

/// Renders a warning message as one line of text.
pub fn log_warning(ts: &Timestamp, message: &str, styled: bool) -> (line: String)
    requires
        ts.wf(),
    ensures
        line@ == warning_line(*ts, message@, styled),
{
    let stamp = stamp_string(ts);
    let mut out = String::new();
    push_painted(&mut out, stamp.as_str(), Style::Dimmed, styled);
    out.append(" ");
    push_painted(&mut out, "[WARN]", Style::YellowBold, styled);
    out.append(" ");
    out.append(message);
    proof {
        assert(out@ =~= warning_line(*ts, message@, styled));
    }
    out
}

/// Renders an error message as one line of text.
pub fn log_error(ts: &Timestamp, message: &str, styled: bool) -> (line: String)
    requires
        ts.wf(),
    ensures
        line@ == error_line(*ts, message@, styled),
{
    let stamp = stamp_string(ts);
    let mut out = String::new();
    push_painted(&mut out, stamp.as_str(), Style::Dimmed, styled);
    out.append(" ");
    push_painted(&mut out, "[ERROR]", Style::RedBold, styled);
    out.append(" ");
    push_painted(&mut out, message, Style::Red, styled);
    proof {
        assert(out@ =~= error_line(*ts, message@, styled));
    }
    out
}

/// One timestamped statistics line with both counters emphasized.
pub open spec fn stats_line(ts: Timestamp, watched: nat, cleaned: nat, styled: bool) -> Seq<
    char,
> {
    painted(stamped(ts), Style::Dimmed, styled) + " "@ + painted("[STAT]"@, Style::CyanBold, styled)
        + " "@ + painted(dec_rep(watched), Style::WhiteBold, styled)
        + " IP-uri urmarite | Cleanup: "@ + painted(dec_rep(cleaned), Style::WhiteBold, styled)
        + " sterse"@
}

/// Renders the periodic statistics (watched addresses, addresses removed by
/// the last cleanup) as one line of text.
pub fn log_stats(ts: &Timestamp, watched_ips: usize, cleaned_ips: usize, styled: bool) -> (line:
    String)
    requires
        ts.wf(),
    ensures
        line@ == stats_line(*ts, watched_ips as nat, cleaned_ips as nat, styled),
{
    let stamp = stamp_string(ts);
    let watched = crate::text::decimal_string(watched_ips as u64);
    let cleaned = crate::text::decimal_string(cleaned_ips as u64);
    let mut out = String::new();
    push_painted(&mut out, stamp.as_str(), Style::Dimmed, styled);
    out.append(" ");
    push_painted(&mut out, "[STAT]", Style::CyanBold, styled);
    out.append(" ");
    push_painted(&mut out, watched.as_str(), Style::WhiteBold, styled);
    out.append(" IP-uri urmarite | Cleanup: ");
    push_painted(&mut out, cleaned.as_str(), Style::WhiteBold, styled);
    out.append(" sterse");
    proof {
        assert(out@ =~= stats_line(*ts, watched_ips as nat, cleaned_ips as nat, styled));
    }
    out
}

/// At most this many ports are listed in an alert; the rest are summarized
/// by a `(+N more)` suffix. The cap exists for terminal readability and is
/// the same for every scan type.
pub open spec fn spec_port_display_cap() -> nat {
    25
}

fn port_display_cap() -> (r: usize)
    ensures
        r == spec_port_display_cap(),
{
    25
}

/// The severity palette of a scan type: Fast scans carry high-urgency
/// styling, Slow scans medium-urgency styling.
pub open spec fn alert_style(st: ScanType) -> Style {
    match st {
        ScanType::Fast => Style::RedBold,
        ScanType::Slow => Style::YellowBold,
    }
}

fn alert_style_of(st: &ScanType) -> (r: Style)
    ensures
        r == alert_style(*st),
{
    match st {
        ScanType::Fast => Style::RedBold,
        ScanType::Slow => Style::YellowBold,
    }
}

/// The human-readable label of a scan type.
pub open spec fn scan_label(st: ScanType) -> Seq<char> {
    match st {
        ScanType::Fast => "Fast Scan"@,
        ScanType::Slow => "Slow Scan"@,
    }
}

fn scan_label_str(st: &ScanType) -> (r: &'static str)
    ensures
        r@ == scan_label(*st),
{
    match st {
        ScanType::Fast => "Fast Scan",
        ScanType::Slow => "Slow Scan",
    }
}

/// The listed ports separated by a comma and a space.
pub open spec fn joined_ports(ports: Seq<u16>) -> Seq<char>
    decreases ports.len(),
{
    if ports.len() == 0 {
        Seq::empty()
    } else if ports.len() == 1 {
        dec_rep(ports[0] as nat)
    } else {
        joined_ports(ports.drop_last()) + ", "@ + dec_rep(ports.last() as nat)
    }
}

/// The truncation suffix: nothing while the cap holds, and the count of the
/// hidden ports once it is passed.
pub open spec fn ports_suffix(total: nat) -> Seq<char> {
    if total > spec_port_display_cap() {
        " ... (+"@ + dec_rep((total - spec_port_display_cap()) as nat) + " more)"@
    } else {
        Seq::empty()
    }
}

/// The body of the ports line: the first ports up to the cap, joined, then
/// the suffix.
pub open spec fn ports_text(ports: Seq<u16>) -> Seq<char> {
    let shown = if ports.len() > spec_port_display_cap() {
        ports.take(spec_port_display_cap() as int)
    } else {
        ports
    };
    joined_ports(shown) + ports_suffix(ports.len())
}

fn ports_text_string(ports: &Vec<u16>) -> (r: String)
    ensures
        r@ == ports_text(ports@),
{
    let cap = port_display_cap();
    let k: usize = if ports.len() > cap {
        cap
    } else {
        ports.len()
    };
    let ghost shown = if ports@.len() > spec_port_display_cap() {
        ports@.take(spec_port_display_cap() as int)
    } else {
        ports@
    };
    proof {
        assert(shown =~= ports@.take(k as int));
    }
    let mut out = String::new();
    let mut i: usize = 0;
    while i < k
        invariant
            i <= k,
            k <= ports@.len(),
            out@ == joined_ports(ports@.take(i as int)),
        decreases k - i,
    {
        if i > 0 {
            out.append(", ");
        }
        let p = ports[i];
        push_decimal(&mut out, p as u64);
        proof {
            let prev = ports@.take(i as int);
            let cur = ports@.take(i as int + 1);
            assert(cur.drop_last() =~= prev);
            assert(cur.last() == ports@[i as int]);
            if i > 0 {
                assert(out@ =~= joined_ports(prev) + ", "@ + dec_rep(ports@[i as int] as nat));
            } else {
                assert(cur.len() == 1);
                assert(out@ =~= dec_rep(ports@[i as int] as nat));
            }
        }
        i = i + 1;
    }
    proof {
        assert(out@ == joined_ports(shown));
    }
    if ports.len() > cap {
        out.append(" ... (+");
        push_decimal(&mut out, (ports.len() - cap) as u64);
        out.append(" more)");
        proof {
            assert(out@ =~= joined_ports(shown) + ports_suffix(ports@.len()));
        }
    } else {
        proof {
            assert(ports_suffix(ports@.len()) =~= Seq::<char>::empty());
            assert(out@ =~= joined_ports(shown) + ports_suffix(ports@.len()));
        }
    }
    proof {
        assert(out@ == ports_text(ports@));
    }
    out
}

/// The rule line that bounds an alert block, in the alert's palette.
pub open spec fn alert_rule(st: ScanType, styled: bool) -> Seq<char> {
    painted(repeated('-', 62), alert_style(st), styled)
}

/// The alert head line: timestamp, `[ALERT]` tag, bracketed source address,
/// scan-type label, and the detection suffix.
pub open spec fn alert_head(a: Alert, styled: bool) -> Seq<char> {
    painted(stamped(a.timestamp), Style::Dimmed, styled) + " "@ + painted(
        "[ALERT]"@,
        alert_style(a.scan_type),
        styled,
    ) + " "@ + painted("[IP: "@ + a.source_ip@ + "]"@, Style::WhiteBold, styled) + " "@ + painted(
        scan_label(a.scan_type),
        alert_style(a.scan_type),
        styled,
    ) + " detectat!"@
}

/// The alert count line: how many unique ports were observed.
pub open spec fn alert_count_line(a: Alert, styled: bool) -> Seq<char> {
    "  "@ + painted(dec_rep(a.unique_ports@.len()), alert_style(a.scan_type), styled)
        + " porturi unice in fereastra de timp"@
}

/// The alert ports line: the observed ports in the collection's own order,
/// capped, with the truncation suffix.
pub open spec fn alert_ports_line(a: Alert) -> Seq<char> {
    "  Porturi: "@ + ports_text(a.unique_ports@)
}

/// The whole alert block, top to bottom.
pub open spec fn alert_lines(a: Alert, styled: bool) -> Seq<Seq<char>> {
    seq![
        alert_rule(a.scan_type, styled),
        alert_head(a, styled),
        alert_count_line(a, styled),
        alert_ports_line(a),
        alert_rule(a.scan_type, styled),
    ]
}

/// Renders one alert as a visually distinct block of lines, bounded above
/// and below by a rule, styled in the palette of its scan type.
pub fn log_alert(alert: &Alert, styled: bool) -> (lines: Vec<String>)
    requires
        alert.wf(),
    ensures
        lines.deep_view() == alert_lines(*alert, styled),
        lines@.len() == 5,
{
    let sty = alert_style_of(&alert.scan_type);
    proof {
        reveal_strlit("-");
    }
    let rule_text = repeat_piece("-", 62);

    let mut head = String::new();
    let stamp = stamp_string(&alert.timestamp);
    push_painted(&mut head, stamp.as_str(), Style::Dimmed, styled);
    head.append(" ");
    push_painted(&mut head, "[ALERT]", sty, styled);
    head.append(" ");
    let mut ip_field = String::new();
    ip_field.append("[IP: ");
    ip_field.append(alert.source_ip.as_str());
    ip_field.append("]");
    push_painted(&mut head, ip_field.as_str(), Style::WhiteBold, styled);
    head.append(" ");
    push_painted(&mut head, scan_label_str(&alert.scan_type), sty, styled);
    head.append(" detectat!");
    proof {
        assert(ip_field@ =~= "[IP: "@ + alert.source_ip@ + "]"@);
        assert(head@ =~= alert_head(*alert, styled));
    }

    let mut count_line = String::new();
    count_line.append("  ");
    let count = crate::text::decimal_string(alert.unique_ports.len() as u64);
    push_painted(&mut count_line, count.as_str(), sty, styled);
    count_line.append(" porturi unice in fereastra de timp");
    proof {
        assert(count_line@ =~= alert_count_line(*alert, styled));
    }

    let mut ports_line = String::new();
    ports_line.append("  Porturi: ");
    let ports_body = ports_text_string(&alert.unique_ports);
    ports_line.append(ports_body.as_str());
    proof {
        assert(ports_line@ =~= alert_ports_line(*alert));
    }

    let top = paint(rule_text.as_str(), sty, styled);
    let bottom = paint(rule_text.as_str(), sty, styled);

    let mut lines: Vec<String> = Vec::new();
    lines.push(top);
    lines.push(head);
    lines.push(count_line);
    lines.push(ports_line);
    lines.push(bottom);
    proof {
        assert(lines.deep_view() =~~= alert_lines(*alert, styled));
    }
    lines
}

/// The parser name upper-cased and left aligned in its column.
pub open spec fn parser_field(c: ConfigSnapshot) -> Seq<char> {
    pad_right(upper_seq(c.parser@), 14)
}

/// The listening endpoint, `UDP/<port>`.
pub open spec fn endpoint_field(c: ConfigSnapshot) -> Seq<char> {
    "UDP/"@ + dec_rep(c.listen_port as nat)
}

/// The SIEM status: `<host>:<port>` when enabled, the literal `OFF` when
/// not.
pub open spec fn siem_field(c: ConfigSnapshot) -> Seq<char> {
    if c.siem_enabled {
        c.siem_host@ + ":"@ + dec_rep(c.siem_port as nat)
    } else {
        "OFF"@
    }
}

/// Active statuses are styled as healthy, inactive ones as off.
pub open spec fn status_style(enabled: bool) -> Style {
    if enabled {
        Style::GreenBold
    } else {
        Style::RedBold
    }
}

/// The email status, `ON` or `OFF`.
pub open spec fn email_field(c: ConfigSnapshot) -> Seq<char> {
    if c.email_enabled {
        "ON"@
    } else {
        "OFF"@
    }
}

/// The fast-scan threshold, `>N ports/Ws` with the window in seconds.
pub open spec fn fast_field(c: ConfigSnapshot) -> Seq<char> {
    ">"@ + dec_rep(c.fast_port_threshold as nat) + " ports/"@ + dec_rep(
        c.fast_window_secs as nat,
    ) + "s"@
}

/// The slow-scan threshold, `>N ports/Mmin` with the window in minutes.
pub open spec fn slow_field(c: ConfigSnapshot) -> Seq<char> {
    ">"@ + dec_rep(c.slow_port_threshold as nat) + " ports/"@ + dec_rep(
        c.slow_window_mins as nat,
    ) + "min"@
}

/// The 62-character rule that frames the banner.
pub open spec fn banner_rule(styled: bool) -> Seq<char> {
    painted(repeated('=', 62), Style::CyanBold, styled)
}

/// The product name and version lines.
pub open spec fn banner_title(styled: bool) -> Seq<char> {
    painted("  IDS-RS  ::  Intrusion Detection System"@, Style::WhiteBold, styled)
}

pub open spec fn banner_version(styled: bool) -> Seq<char> {
    painted("  Network Scan Detector v0.1.0"@, Style::Dimmed, styled)
}

/// The parser / listening-endpoint line of the banner.
pub open spec fn banner_parser_line(c: ConfigSnapshot, styled: bool) -> Seq<char> {
    "  Parser:  "@ + painted(parser_field(c), Style::YellowBold, styled) + " Listen:  "@ + painted(
        endpoint_field(c),
        Style::YellowBold,
        styled,
    )
}

/// The SIEM / email status line of the banner.
pub open spec fn banner_status_line(c: ConfigSnapshot, styled: bool) -> Seq<char> {
    "  SIEM:    "@ + painted(pad_right(siem_field(c), 14), status_style(c.siem_enabled), styled)
        + " Email:   "@ + painted(email_field(c), status_style(c.email_enabled), styled)
}

/// The detection-threshold line of the banner.
pub open spec fn banner_threshold_line(c: ConfigSnapshot, styled: bool) -> Seq<char> {
    "  Fast:    "@ + painted(fast_field(c), Style::WhiteBold, styled) + "       Slow:    "@
        + painted(slow_field(c), Style::WhiteBold, styled)
}

/// The whole banner: one blank line each side of a block framed by exactly
/// two rules, with every configuration field between them.
pub open spec fn banner_lines(c: ConfigSnapshot, styled: bool) -> Seq<Seq<char>> {
    seq![
        Seq::<char>::empty(),
        banner_rule(styled),
        banner_title(styled),
        banner_version(styled),
        banner_parser_line(c, styled),
        banner_status_line(c, styled),
        banner_threshold_line(c, styled),
        banner_rule(styled),
        Seq::<char>::empty(),
    ]
}

/// Renders the startup banner for a configuration snapshot.
pub fn print_banner(config: &ConfigSnapshot, styled: bool) -> (lines: Vec<String>)
    ensures
        lines.deep_view() == banner_lines(*config, styled),
        lines@.len() == 9,
{
    proof {
        reveal_strlit("=");
    }
    let rule_text = repeat_piece("=", 62);
    let top = paint(rule_text.as_str(), Style::CyanBold, styled);
    let bottom = paint(rule_text.as_str(), Style::CyanBold, styled);
    let title = paint("  IDS-RS  ::  Intrusion Detection System", Style::WhiteBold, styled);
    let version = paint("  Network Scan Detector v0.1.0", Style::Dimmed, styled);

    let upper = to_upper_ascii(config.parser.as_str());
    let padded_parser = pad_right_string(upper.as_str(), 14);
    let mut endpoint = String::new();
    endpoint.append("UDP/");
    push_decimal(&mut endpoint, config.listen_port as u64);
    let mut parser_line = String::new();
    parser_line.append("  Parser:  ");
    push_painted(&mut parser_line, padded_parser.as_str(), Style::YellowBold, styled);
    parser_line.append(" Listen:  ");
    push_painted(&mut parser_line, endpoint.as_str(), Style::YellowBold, styled);
    proof {
        assert(endpoint@ =~= endpoint_field(*config));
        assert(parser_line@ =~= banner_parser_line(*config, styled));
    }

    let mut siem = String::new();
    if config.siem_enabled {
        siem.append(config.siem_host.as_str());
        siem.append(":");
        push_decimal(&mut siem, config.siem_port as u64);
        proof {
            assert(siem@ =~= siem_field(*config));
        }
    } else {
        siem.append("OFF");
        proof {
            assert(siem@ =~= siem_field(*config));
        }
    }
    let padded_siem = pad_right_string(siem.as_str(), 14);
    let siem_sty = if config.siem_enabled {
        Style::GreenBold
    } else {
        Style::RedBold
    };
    let email_sty = if config.email_enabled {
        Style::GreenBold
    } else {
        Style::RedBold
    };
    let mut status_line = String::new();
    status_line.append("  SIEM:    ");
    push_painted(&mut status_line, padded_siem.as_str(), siem_sty, styled);
    status_line.append(" Email:   ");
    if config.email_enabled {
        push_painted(&mut status_line, "ON", email_sty, styled);
    } else {
        push_painted(&mut status_line, "OFF", email_sty, styled);
    }
    proof {
        assert(status_line@ =~= banner_status_line(*config, styled));
    }

    let mut fast = String::new();
    fast.append(">");
    push_decimal(&mut fast, config.fast_port_threshold as u64);
    fast.append(" ports/");
    push_decimal(&mut fast, config.fast_window_secs as u64);
    fast.append("s");
    let mut slow = String::new();
    slow.append(">");
    push_decimal(&mut slow, config.slow_port_threshold as u64);
    slow.append(" ports/");
    push_decimal(&mut slow, config.slow_window_mins as u64);
    slow.append("min");
    let mut threshold_line = String::new();
    threshold_line.append("  Fast:    ");
    push_painted(&mut threshold_line, fast.as_str(), Style::WhiteBold, styled);
    threshold_line.append("       Slow:    ");
    push_painted(&mut threshold_line, slow.as_str(), Style::WhiteBold, styled);
    proof {
        assert(fast@ =~= fast_field(*config));
        assert(slow@ =~= slow_field(*config));
        assert(threshold_line@ =~= banner_threshold_line(*config, styled));
    }

    let mut lines: Vec<String> = Vec::new();
    lines.push(String::new());
    lines.push(top);
    lines.push(title);
    lines.push(version);
    lines.push(parser_line);
    lines.push(status_line);
    lines.push(threshold_line);
    lines.push(bottom);
    lines.push(String::new());
    proof {
        assert(lines.deep_view() =~~= banner_lines(*config, styled));
    }
    lines
}

} // verus!
