use ids_display::clock::current_timestamp;
use ids_display::event::{Alert, ScanType, Timestamp};
use ids_display::render::{log_alert, log_error, log_info, log_stats, log_warning};
use ids_display::text::{decimal_string, to_upper_ascii};

fn ts() -> Timestamp {
    Timestamp {
        year: 2024,
        month: 11,
        day: 20,
        hour: 15,
        minute: 30,
        second: 7,
    }
}

fn alert_with_ports(scan_type: ScanType, ports: Vec<u16>) -> Alert {
    Alert {
        source_ip: String::from("10.0.0.1"),
        scan_type,
        timestamp: Timestamp {
            year: 2024,
            month: 1,
            day: 2,
            hour: 3,
            minute: 4,
            second: 5,
        },
        unique_ports: ports,
    }
}

#[test]
fn info_line_plain_exact() {
    let line = log_info(&ts(), "pornit pe portul 9000", false);
    assert_eq!(line, "[2024-11-20 15:30:07] [INFO] pornit pe portul 9000");
}

#[test]
fn warning_line_plain_exact() {
    let line = log_warning(&ts(), "pachet ignorat", false);
    assert_eq!(line, "[2024-11-20 15:30:07] [WARN] pachet ignorat");
}

#[test]
fn error_line_plain_exact() {
    let line = log_error(&ts(), "conexiune pierduta", false);
    assert_eq!(line, "[2024-11-20 15:30:07] [ERROR] conexiune pierduta");
}

#[test]
fn info_line_styled_exact() {
    let line = log_info(&ts(), "pornit", true);
    assert_eq!(
        line,
        "\u{1b}[2m[2024-11-20 15:30:07]\u{1b}[0m \u{1b}[1;34m[INFO]\u{1b}[0m pornit"
    );
}

#[test]
fn error_line_styles_message_body() {
    let line = log_error(&ts(), "eroare grava", true);
    assert_eq!(
        line,
        "\u{1b}[2m[2024-11-20 15:30:07]\u{1b}[0m \u{1b}[1;31m[ERROR]\u{1b}[0m \u{1b}[31meroare grava\u{1b}[0m"
    );
}

#[test]
fn stats_line_scenario() {
    let line = log_stats(&ts(), 42, 5, false);
    assert!(line.contains("42"));
    assert!(line.contains("5"));
    assert!(line.contains("IP-uri urmarite"));
    assert!(line.contains("Cleanup:"));
    assert!(line.contains("sterse"));
    assert_eq!(
        line,
        "[2024-11-20 15:30:07] [STAT] 42 IP-uri urmarite | Cleanup: 5 sterse"
    );
}

#[test]
fn stats_line_zero_counts() {
    let line = log_stats(&ts(), 0, 0, false);
    assert_eq!(
        line,
        "[2024-11-20 15:30:07] [STAT] 0 IP-uri urmarite | Cleanup: 0 sterse"
    );
}

#[test]
fn alert_block_plain_exact() {
    let alert = alert_with_ports(ScanType::Fast, vec![22, 80, 443]);
    let lines = log_alert(&alert, false);
    assert_eq!(lines.len(), 5);
    assert_eq!(lines[0], "-".repeat(62));
    assert_eq!(
        lines[1],
        "[2024-01-02 03:04:05] [ALERT] [IP: 10.0.0.1] Fast Scan detectat!"
    );
    assert_eq!(lines[2], "  3 porturi unice in fereastra de timp");
    assert_eq!(lines[3], "  Porturi: 22, 80, 443");
    assert_eq!(lines[4], "-".repeat(62));
}

#[test]
fn alert_thirty_ports_truncated() {
    let ports: Vec<u16> = (1..=30).collect();
    let alert = alert_with_ports(ScanType::Fast, ports);
    let lines = log_alert(&alert, false);
    let expected_list: Vec<String> = (1..=25).map(|p: u16| p.to_string()).collect();
    assert_eq!(
        lines[3],
        format!("  Porturi: {} ... (+5 more)", expected_list.join(", "))
    );
    assert_eq!(lines[2], "  30 porturi unice in fereastra de timp");
}

#[test]
fn alert_one_past_cap_hides_one() {
    let ports: Vec<u16> = (1..=26).collect();
    let alert = alert_with_ports(ScanType::Fast, ports);
    let lines = log_alert(&alert, false);
    assert!(lines[3].ends_with(" ... (+1 more)"));
    assert_eq!(lines[3].matches(", ").count(), 24);
}

#[test]
fn alert_at_cap_has_no_suffix() {
    let ports: Vec<u16> = (1..=25).collect();
    let alert = alert_with_ports(ScanType::Slow, ports);
    let lines = log_alert(&alert, false);
    assert!(!lines[3].contains("more)"));
    assert_eq!(lines[3].matches(", ").count(), 24);
}

#[test]
fn alert_slow_uses_medium_palette() {
    let alert = alert_with_ports(ScanType::Slow, vec![7, 9, 11]);
    let lines = log_alert(&alert, true);
    assert!(lines[3].contains("7, 9, 11"));
    assert!(!lines[3].contains("more)"));
    for line in &lines {
        assert!(!line.contains("\u{1b}[1;31m"), "high-urgency tag in {:?}", line);
    }
    assert!(lines[0].contains("\u{1b}[1;33m"));
    assert!(lines[1].contains("\u{1b}[1;33mSlow Scan\u{1b}[0m"));
}

#[test]
fn alert_fast_uses_high_palette() {
    let alert = alert_with_ports(ScanType::Fast, vec![7]);
    let lines = log_alert(&alert, true);
    assert!(lines[0].contains("\u{1b}[1;31m"));
    assert!(lines[1].contains("\u{1b}[1;31mFast Scan\u{1b}[0m"));
    for line in &lines {
        assert!(!line.contains("\u{1b}[1;33m"), "medium-urgency tag in {:?}", line);
    }
}

#[test]
fn plain_output_has_no_escape_bytes() {
    let alert = alert_with_ports(ScanType::Fast, (1..=30).collect());
    let mut all = Vec::new();
    all.push(log_info(&ts(), "mesaj", false));
    all.push(log_warning(&ts(), "mesaj", false));
    all.push(log_error(&ts(), "mesaj", false));
    all.push(log_stats(&ts(), 12, 3, false));
    all.extend(log_alert(&alert, false));
    for line in all {
        assert!(!line.contains('\u{1b}'), "escape byte in {:?}", line);
    }
}

#[test]
fn lines_begin_with_timestamp_pattern() {
    let alert = alert_with_ports(ScanType::Slow, vec![1]);
    let mut lines = Vec::new();
    lines.push(log_info(&ts(), "m", false));
    lines.push(log_warning(&ts(), "m", false));
    lines.push(log_error(&ts(), "m", false));
    lines.push(log_stats(&ts(), 1, 1, false));
    lines.push(log_alert(&alert, false)[1].clone());
    lines.push(log_info(&current_timestamp(), "m", false));
    for line in lines {
        let chars: Vec<char> = line.chars().collect();
        assert_eq!(chars[0], '[');
        let stamp = &chars[1..20];
        for (i, c) in stamp.iter().enumerate() {
            match i {
                4 | 7 => assert_eq!(*c, '-'),
                10 => assert_eq!(*c, ' '),
                13 | 16 => assert_eq!(*c, ':'),
                _ => assert!(c.is_ascii_digit(), "bad timestamp in {:?}", line),
            }
        }
        assert_eq!(chars[20], ']');
    }
}

#[test]
fn decimal_rendering_exact() {
    assert_eq!(decimal_string(0), "0");
    assert_eq!(decimal_string(7), "7");
    assert_eq!(decimal_string(10), "10");
    assert_eq!(decimal_string(65535), "65535");
    assert_eq!(decimal_string(1234567890), "1234567890");
}

#[test]
fn uppercase_ascii_only() {
    assert_eq!(to_upper_ascii("esp"), "ESP");
    assert_eq!(to_upper_ascii("SysLog-2"), "SYSLOG-2");
    assert_eq!(to_upper_ascii(""), "");
}
