//! The renderer's laws, stated over the same spec functions its contracts
//! use and proved once and for all: the banner frame, the port-list
//! truncation policy, the severity palettes, the timestamp shape, and the
//! plain-text degradation when styling is off.

use vstd::prelude::*;
use crate::event::{is_timestamp_text, Alert, ConfigSnapshot, ScanType, Timestamp};
use crate::render::{
    alert_count_line, alert_head, alert_lines, alert_ports_line, alert_rule, alert_style,
    banner_lines, banner_parser_line, banner_rule, banner_status_line, banner_threshold_line,
    banner_title, banner_version, email_field, endpoint_field, error_line, fast_field, info_line,
    joined_ports, parser_field, ports_suffix, ports_text, scan_label, siem_field, slow_field,
    spec_port_display_cap, stamped, stats_line, warning_line,
};
use crate::style::{painted, style_prefix, Style};
use crate::text::{
    count_occ, dec_rep, esc_char, lemma_count_occ_concat, lemma_count_occ_none,
    lemma_dec_rep_digits, no_escape, occurs_at, occurs_in, pad_right, repeated, upper_seq,
};

verus! {

/// The separator of the port list holds one comma and nothing a decimal
/// representation could contain.
proof fn lemma_separator_counts()
    ensures
        count_occ(", "@, ',') == 1,
        count_occ(", "@, '(') == 0,
        no_escape(", "@),
{
    reveal_strlit(", ");
    assert(", "@ =~= seq![','].push(' '));
    crate::text::lemma_count_occ_single(',', ',');
    crate::text::lemma_count_occ_single(',', '(');
    crate::text::lemma_count_occ_push(seq![','], ' ', ',');
    crate::text::lemma_count_occ_push(seq![','], ' ', '(');
}

/// A joined port list is plain text with exactly one comma between
/// neighbouring entries: one fewer commas than entries, and no parenthesis
/// or escape character at all.
pub proof fn lemma_joined_ports_plain(ports: Seq<u16>)
    ensures
        no_escape(joined_ports(ports)),
        ports.len() == 0 ==> count_occ(joined_ports(ports), ',') == 0,
        ports.len() >= 1 ==> count_occ(joined_ports(ports), ',') == ports.len() - 1,
        count_occ(joined_ports(ports), '(') == 0,
    decreases ports.len(),
{
    if ports.len() == 0 {
    } else if ports.len() == 1 {
        lemma_dec_rep_digits(ports[0] as nat);
        lemma_count_occ_none(dec_rep(ports[0] as nat), ',');
        lemma_count_occ_none(dec_rep(ports[0] as nat), '(');
    } else {
        let head = joined_ports(ports.drop_last());
        let tail = dec_rep(ports.last() as nat);
        lemma_joined_ports_plain(ports.drop_last());
        lemma_dec_rep_digits(ports.last() as nat);
        lemma_count_occ_none(tail, ',');
        lemma_count_occ_none(tail, '(');
        lemma_separator_counts();
        lemma_count_occ_concat(head, ", "@, ',');
        lemma_count_occ_concat(head + ", "@, tail, ',');
        lemma_count_occ_concat(head, ", "@, '(');
        lemma_count_occ_concat(head + ", "@, tail, '(');
    }
}

proof fn lemma_ports_prefix_counts()
    ensures
        count_occ("  Porturi: "@, ',') == 0,
        count_occ("  Porturi: "@, '(') == 0,
        no_escape("  Porturi: "@),
{
    reveal_strlit("  Porturi: ");
    assert(forall|i: int| 0 <= i < "  Porturi: "@.len() ==> "  Porturi: "@[i] != ',');
    assert(forall|i: int| 0 <= i < "  Porturi: "@.len() ==> "  Porturi: "@[i] != '(');
    lemma_count_occ_none("  Porturi: "@, ',');
    lemma_count_occ_none("  Porturi: "@, '(');
}

/// Law: an alert that observed at most the display cap of unique ports lists
/// every one of them — the ports line holds exactly one comma between
/// neighbouring entries and no truncation suffix (no parenthesis at all).
pub proof fn lemma_ports_line_within_cap(a: Alert)
    requires
        a.wf(),
        a.unique_ports@.len() <= spec_port_display_cap(),
    ensures
        alert_ports_line(a) == "  Porturi: "@ + joined_ports(a.unique_ports@),
        count_occ(alert_ports_line(a), ',') == a.unique_ports@.len() - 1,
        count_occ(alert_ports_line(a), '(') == 0,
{
    let ports = a.unique_ports@;
    assert(ports_suffix(ports.len()) =~= Seq::<char>::empty());
    assert(ports_text(ports) =~= joined_ports(ports));
    lemma_joined_ports_plain(ports);
    lemma_ports_prefix_counts();
    lemma_count_occ_concat("  Porturi: "@, joined_ports(ports), ',');
    lemma_count_occ_concat("  Porturi: "@, joined_ports(ports), '(');
}

/// Law: an alert that observed more unique ports than the display cap lists
/// exactly the first cap of them — cap-less-one commas — and closes with a
/// suffix whose number is the count of the hidden ports, marked by the one
/// parenthesis pair of the line.
pub proof fn lemma_ports_line_beyond_cap(a: Alert)
    requires
        a.wf(),
        a.unique_ports@.len() > spec_port_display_cap(),
    ensures
        alert_ports_line(a) == "  Porturi: "@ + joined_ports(
            a.unique_ports@.take(spec_port_display_cap() as int),
        ) + " ... (+"@ + dec_rep((a.unique_ports@.len() - spec_port_display_cap()) as nat)
            + " more)"@,
        count_occ(alert_ports_line(a), ',') == spec_port_display_cap() - 1,
        count_occ(alert_ports_line(a), '(') == 1,
{
    let ports = a.unique_ports@;
    let shown = ports.take(spec_port_display_cap() as int);
    let hidden = (ports.len() - spec_port_display_cap()) as nat;
    assert(alert_ports_line(a) =~= "  Porturi: "@ + joined_ports(shown) + " ... (+"@ + dec_rep(
        hidden,
    ) + " more)"@);
    lemma_joined_ports_plain(shown);
    lemma_ports_prefix_counts();
    lemma_dec_rep_digits(hidden);
    lemma_count_occ_none(dec_rep(hidden), ',');
    lemma_count_occ_none(dec_rep(hidden), '(');
    reveal_strlit(" ... (+");
    reveal_strlit(" more)");
    assert(" ... (+"@ =~= seq![' ', '.', '.', '.', ' '].push('(').push('+'));
    assert(" more)"@ =~= seq![' ', 'm', 'o', 'r', 'e', ')']);
    lemma_count_occ_none(seq![' ', '.', '.', '.', ' '], ',');
    lemma_count_occ_none(seq![' ', '.', '.', '.', ' '], '(');
    crate::text::lemma_count_occ_push(seq![' ', '.', '.', '.', ' '], '(', ',');
    crate::text::lemma_count_occ_push(seq![' ', '.', '.', '.', ' '], '(', '(');
    crate::text::lemma_count_occ_push(seq![' ', '.', '.', '.', ' '].push('('), '+', ',');
    crate::text::lemma_count_occ_push(seq![' ', '.', '.', '.', ' '].push('('), '+', '(');
    lemma_count_occ_none(seq![' ', 'm', 'o', 'r', 'e', ')'], ',');
    lemma_count_occ_none(seq![' ', 'm', 'o', 'r', 'e', ')'], '(');
    lemma_count_occ_concat("  Porturi: "@, joined_ports(shown), ',');
    lemma_count_occ_concat("  Porturi: "@ + joined_ports(shown), " ... (+"@, ',');
    lemma_count_occ_concat("  Porturi: "@ + joined_ports(shown) + " ... (+"@, dec_rep(hidden), ',');
    lemma_count_occ_concat(
        "  Porturi: "@ + joined_ports(shown) + " ... (+"@ + dec_rep(hidden),
        " more)"@,
        ',',
    );
    lemma_count_occ_concat("  Porturi: "@, joined_ports(shown), '(');
    lemma_count_occ_concat("  Porturi: "@ + joined_ports(shown), " ... (+"@, '(');
    lemma_count_occ_concat("  Porturi: "@ + joined_ports(shown) + " ... (+"@, dec_rep(hidden), '(');
    lemma_count_occ_concat(
        "  Porturi: "@ + joined_ports(shown) + " ... (+"@ + dec_rep(hidden),
        " more)"@,
        '(',
    );
}

/// Law: the two scan types never share a palette — their styles differ, the
/// styled escape sequences differ, and so do the styled rule lines, the
/// styled `[ALERT]` tags and the labels of the rendered alert block.
pub proof fn lemma_scan_palettes_differ()
    ensures
        alert_style(ScanType::Fast) != alert_style(ScanType::Slow),
        style_prefix(alert_style(ScanType::Fast)) != style_prefix(alert_style(ScanType::Slow)),
        alert_rule(ScanType::Fast, true) != alert_rule(ScanType::Slow, true),
        painted("[ALERT]"@, alert_style(ScanType::Fast), true) != painted(
            "[ALERT]"@,
            alert_style(ScanType::Slow),
            true,
        ),
        scan_label(ScanType::Fast) != scan_label(ScanType::Slow),
{
    assert(style_prefix(Style::RedBold)[5] == '1');
    assert(style_prefix(Style::YellowBold)[5] == '3');
    assert(alert_rule(ScanType::Fast, true)[5] == '1');
    assert(alert_rule(ScanType::Slow, true)[5] == '3');
    assert(painted("[ALERT]"@, Style::RedBold, true)[5] == '1');
    assert(painted("[ALERT]"@, Style::YellowBold, true)[5] == '3');
    reveal_strlit("Fast Scan");
    reveal_strlit("Slow Scan");
    assert(scan_label(ScanType::Fast)[0] == 'F');
    assert(scan_label(ScanType::Slow)[0] == 'S');
}

/// Law: every leveled log line and the statistics line begins, after its
/// opening bracket, with the nineteen characters `YYYY-MM-DD HH:MM:SS` of
/// its timestamp (shown here for the plain rendering, which is the visible
/// text).
pub proof fn lemma_log_lines_begin_with_timestamp(
    ts: Timestamp,
    msg: Seq<char>,
    watched: nat,
    cleaned: nat,
)
    requires
        ts.wf(),
    ensures
        info_line(ts, msg, false)[0] == '[',
        info_line(ts, msg, false).subrange(1, 20) == ts.text(),
        warning_line(ts, msg, false)[0] == '[',
        warning_line(ts, msg, false).subrange(1, 20) == ts.text(),
        error_line(ts, msg, false)[0] == '[',
        error_line(ts, msg, false).subrange(1, 20) == ts.text(),
        stats_line(ts, watched, cleaned, false)[0] == '[',
        stats_line(ts, watched, cleaned, false).subrange(1, 20) == ts.text(),
        is_timestamp_text(ts.text()),
{
    reveal_strlit("[");
    reveal_strlit("]");
    crate::event::lemma_timestamp_text_shape(ts);
    assert(stamped(ts).len() == 21);
    assert(info_line(ts, msg, false).subrange(1, 20) =~= ts.text());
    assert(warning_line(ts, msg, false).subrange(1, 20) =~= ts.text());
    assert(error_line(ts, msg, false).subrange(1, 20) =~= ts.text());
    assert(stats_line(ts, watched, cleaned, false).subrange(1, 20) =~= ts.text());
}

/// Law: the head line of every alert block begins, after its opening
/// bracket, with the timestamp of the alert in the same nineteen-character
/// shape.
pub proof fn lemma_alert_head_begins_with_timestamp(a: Alert)
    requires
        a.wf(),
    ensures
        alert_head(a, false)[0] == '[',
        alert_head(a, false).subrange(1, 20) == a.timestamp.text(),
        is_timestamp_text(a.timestamp.text()),
{
    reveal_strlit("[");
    reveal_strlit("]");
    crate::event::lemma_timestamp_text_shape(a.timestamp);
    assert(stamped(a.timestamp).len() == 21);
    assert(alert_head(a, false).subrange(1, 20) =~= a.timestamp.text());
}

/// Law: with the styling capability off, no log or statistics line holds an
/// escape character, provided the message itself carries none (the renderer
/// adds styling; messages arrive without embedded sequences).
pub proof fn lemma_plain_log_lines_no_escape(
    ts: Timestamp,
    msg: Seq<char>,
    watched: nat,
    cleaned: nat,
)
    requires
        ts.wf(),
        no_escape(msg),
    ensures
        no_escape(info_line(ts, msg, false)),
        no_escape(warning_line(ts, msg, false)),
        no_escape(error_line(ts, msg, false)),
        no_escape(stats_line(ts, watched, cleaned, false)),
{
    reveal_strlit("[");
    reveal_strlit("]");
    reveal_strlit(" ");
    reveal_strlit("[INFO]");
    reveal_strlit("[WARN]");
    reveal_strlit("[ERROR]");
    reveal_strlit("[STAT]");
    reveal_strlit(" IP-uri urmarite | Cleanup: ");
    reveal_strlit(" sterse");
    crate::event::lemma_timestamp_text_shape(ts);
    crate::text::lemma_dec_rep_no_escape(watched);
    crate::text::lemma_dec_rep_no_escape(cleaned);
    assert(no_escape(stamped(ts)));
    assert(no_escape(info_line(ts, msg, false)));
    assert(no_escape(warning_line(ts, msg, false)));
    assert(no_escape(error_line(ts, msg, false)));
    assert(no_escape(stats_line(ts, watched, cleaned, false)));
}

/// Law: with the styling capability off, no line of an alert block holds an
/// escape character, provided the source address carries none.
pub proof fn lemma_plain_alert_no_escape(a: Alert)
    requires
        a.wf(),
        no_escape(a.source_ip@),
    ensures
        forall|i: int| 0 <= i < 5 ==> no_escape(#[trigger] alert_lines(a, false)[i]),
{
    reveal_strlit("[");
    reveal_strlit("]");
    reveal_strlit(" ");
    reveal_strlit("[ALERT]");
    reveal_strlit("[IP: ");
    reveal_strlit(" detectat!");
    reveal_strlit("Fast Scan");
    reveal_strlit("Slow Scan");
    reveal_strlit("  ");
    reveal_strlit(" porturi unice in fereastra de timp");
    reveal_strlit("  Porturi: ");
    reveal_strlit(" ... (+");
    reveal_strlit(" more)");
    crate::event::lemma_timestamp_text_shape(a.timestamp);
    crate::text::lemma_dec_rep_no_escape(a.unique_ports@.len());
    assert(no_escape(repeated('-', 62)));
    assert(no_escape(alert_rule(a.scan_type, false)));
    assert(no_escape(stamped(a.timestamp)));
    assert(no_escape(scan_label(a.scan_type)));
    assert(no_escape(alert_head(a, false)));
    assert(no_escape(alert_count_line(a, false)));
    let ports = a.unique_ports@;
    lemma_joined_ports_plain(ports);
    let shown = if ports.len() > spec_port_display_cap() {
        ports.take(spec_port_display_cap() as int)
    } else {
        ports
    };
    lemma_joined_ports_plain(shown);
    if ports.len() > spec_port_display_cap() {
        crate::text::lemma_dec_rep_no_escape((ports.len() - spec_port_display_cap()) as nat);
        assert(no_escape(ports_suffix(ports.len())));
    } else {
        assert(no_escape(ports_suffix(ports.len())));
    }
    assert(no_escape(alert_ports_line(a)));
    assert(forall|i: int| 0 <= i < 5 ==> no_escape(#[trigger] alert_lines(a, false)[i]));
}

/// Law: with the styling capability off, no line of the banner holds an
/// escape character, provided the parser name and the SIEM host carry none.
pub proof fn lemma_plain_banner_no_escape(c: ConfigSnapshot)
    requires
        no_escape(c.parser@),
        no_escape(c.siem_host@),
    ensures
        forall|i: int| 0 <= i < 9 ==> no_escape(#[trigger] banner_lines(c, false)[i]),
{
    reveal_strlit("  IDS-RS  ::  Intrusion Detection System");
    reveal_strlit("  Network Scan Detector v0.1.0");
    reveal_strlit("  Parser:  ");
    reveal_strlit(" Listen:  ");
    reveal_strlit("UDP/");
    reveal_strlit("  SIEM:    ");
    reveal_strlit(" Email:   ");
    reveal_strlit(":");
    reveal_strlit("OFF");
    reveal_strlit("ON");
    reveal_strlit("  Fast:    ");
    reveal_strlit("       Slow:    ");
    reveal_strlit(">");
    reveal_strlit(" ports/");
    reveal_strlit("s");
    reveal_strlit("min");
    crate::text::lemma_upper_no_escape(c.parser@);
    crate::text::lemma_dec_rep_no_escape(c.listen_port as nat);
    crate::text::lemma_dec_rep_no_escape(c.siem_port as nat);
    crate::text::lemma_dec_rep_no_escape(c.fast_port_threshold as nat);
    crate::text::lemma_dec_rep_no_escape(c.fast_window_secs as nat);
    crate::text::lemma_dec_rep_no_escape(c.slow_port_threshold as nat);
    crate::text::lemma_dec_rep_no_escape(c.slow_window_mins as nat);
    assert(no_escape(repeated('=', 62)));
    assert(no_escape(repeated(' ', (14 - upper_seq(c.parser@).len()) as nat)));
    assert(no_escape(parser_field(c)));
    assert(no_escape(endpoint_field(c)));
    assert(no_escape(siem_field(c)));
    assert(no_escape(repeated(' ', (14 - siem_field(c).len()) as nat)));
    assert(no_escape(pad_right(siem_field(c), 14)));
    assert(no_escape(email_field(c)));
    assert(no_escape(fast_field(c)));
    assert(no_escape(slow_field(c)));
    assert(no_escape(banner_rule(false)));
    assert(no_escape(banner_title(false)));
    assert(no_escape(banner_version(false)));
    assert(no_escape(banner_parser_line(c, false)));
    assert(no_escape(banner_status_line(c, false)));
    assert(no_escape(banner_threshold_line(c, false)));
    assert(forall|i: int| 0 <= i < 9 ==> no_escape(#[trigger] banner_lines(c, false)[i]));
}

/// Law: the banner holds exactly two rule lines (the 62-character rule, in
/// the frame's styling when it is on), first and last of the framed block;
/// the content lines between them reference every configuration field — the
/// upper-cased parser name, the listening endpoint, the SIEM and email
/// statuses, and both detection thresholds — and a status field reads `OFF`
/// exactly when its enabled flag is false. All of it holds in either styling
/// mode.
pub proof fn lemma_banner_frame(c: ConfigSnapshot, styled: bool)
    ensures
        banner_lines(c, styled).len() == 9,
        banner_lines(c, styled)[1] == banner_rule(styled),
        banner_lines(c, styled)[7] == banner_rule(styled),
        forall|i: int|
            0 <= i < 9 && i != 1 && i != 7 ==> #[trigger] banner_lines(c, styled)[i]
                != banner_rule(styled),
        occurs_in(banner_lines(c, styled)[4], upper_seq(c.parser@)),
        occurs_in(banner_lines(c, styled)[4], endpoint_field(c)),
        occurs_in(banner_lines(c, styled)[5], siem_field(c)),
        occurs_in(banner_lines(c, styled)[5], email_field(c)),
        occurs_in(banner_lines(c, styled)[6], fast_field(c)),
        occurs_in(banner_lines(c, styled)[6], slow_field(c)),
        siem_field(c) == "OFF"@ <==> !c.siem_enabled,
        email_field(c) == "OFF"@ <==> !c.email_enabled,
{
    reveal_strlit("  IDS-RS  ::  Intrusion Detection System");
    reveal_strlit("  Network Scan Detector v0.1.0");
    reveal_strlit("  Parser:  ");
    reveal_strlit(" Listen:  ");
    reveal_strlit("  SIEM:    ");
    reveal_strlit(" Email:   ");
    reveal_strlit("  Fast:    ");
    reveal_strlit("       Slow:    ");
    reveal_strlit(":");
    reveal_strlit("OFF");
    reveal_strlit("ON");

    // No other banner line can be the rule: the blank lines are empty, and
    // every content line differs from the rule at an early position, whether
    // that position holds a visible character or a style code.
    let rule = banner_rule(styled);
    assert(Seq::<char>::empty().len() == 0);
    if styled {
        assert(rule[5] == '6');
        assert(banner_title(styled)[5] == '7');
        assert(rule[2] == '1');
        assert(banner_version(styled)[2] == '2');
        assert(banner_parser_line(c, styled)[0] == ' ' && rule[0] == esc_char());
        assert(banner_status_line(c, styled)[0] == ' ');
        assert(banner_threshold_line(c, styled)[0] == ' ');
    } else {
        assert(rule[0] == '=');
        assert(banner_title(styled)[0] == ' ');
        assert(banner_version(styled)[0] == ' ');
        assert(banner_parser_line(c, styled)[0] == ' ');
        assert(banner_status_line(c, styled)[0] == ' ');
        assert(banner_threshold_line(c, styled)[0] == ' ');
    }

    // Style codes only shift where a field stands in its line: a painted
    // field follows its style prefix and precedes the reset.
    let off: int = if styled {
        7
    } else {
        0
    };
    let tail: int = if styled {
        4
    } else {
        0
    };

    // The parser field starts with the upper-cased name, padding only after.
    let line4 = banner_parser_line(c, styled);
    let up = upper_seq(c.parser@);
    assert(parser_field(c).subrange(0, up.len() as int) =~= up);
    assert(line4.subrange(11 + off, 11 + off + up.len() as int) =~= up);
    assert(occurs_at(line4, up, 11 + off));
    let at_endpoint = line4.len() - tail - endpoint_field(c).len();
    assert(line4.subrange(at_endpoint as int, at_endpoint + endpoint_field(c).len()) =~= endpoint_field(
        c,
    ));
    assert(occurs_at(line4, endpoint_field(c), at_endpoint as int));

    let line5 = banner_status_line(c, styled);
    let sf = siem_field(c);
    assert(pad_right(sf, 14).subrange(0, sf.len() as int) =~= sf);
    assert(line5.subrange(11 + off, 11 + off + sf.len() as int) =~= sf);
    assert(occurs_at(line5, sf, 11 + off));
    let at_email = line5.len() - tail - email_field(c).len();
    assert(line5.subrange(at_email as int, at_email + email_field(c).len()) =~= email_field(c));
    assert(occurs_at(line5, email_field(c), at_email as int));

    let line6 = banner_threshold_line(c, styled);
    assert(line6.subrange(11 + off, 11 + off + fast_field(c).len() as int) =~= fast_field(c));
    assert(occurs_at(line6, fast_field(c), 11 + off));
    let at_slow = line6.len() - tail - slow_field(c).len();
    assert(line6.subrange(at_slow as int, at_slow + slow_field(c).len()) =~= slow_field(c));
    assert(occurs_at(line6, slow_field(c), at_slow as int));

    // A status field reads `OFF` exactly when the feature is off: an enabled
    // SIEM shows `<host>:<port>`, whose separator no position of `OFF` holds.
    if c.siem_enabled {
        lemma_dec_rep_digits(c.siem_port as nat);
        let host_len = c.siem_host@.len() as int;
        assert(sf[host_len] == ':');
        if sf == "OFF"@ {
            assert(sf.len() == 3);
            assert(0 <= host_len < 3);
            assert("OFF"@[0] == 'O' && "OFF"@[1] == 'F' && "OFF"@[2] == 'F');
            assert(false);
        }
    }
}

} // verus!
