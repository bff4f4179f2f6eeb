use ids_display::event::ConfigSnapshot;
use ids_display::render::print_banner;

fn config(siem_enabled: bool, email_enabled: bool) -> ConfigSnapshot {
    ConfigSnapshot {
        parser: String::from("esp"),
        listen_port: 9000,
        siem_enabled,
        siem_host: String::from("siem.local"),
        siem_port: 514,
        email_enabled,
        fast_port_threshold: 15,
        fast_window_secs: 10,
        slow_port_threshold: 10,
        slow_window_mins: 30,
    }
}

#[test]
fn banner_plain_exact() {
    let lines = print_banner(&config(true, false), false);
    assert_eq!(lines.len(), 9);
    assert_eq!(lines[0], "");
    assert_eq!(lines[1], "=".repeat(62));
    assert_eq!(lines[2], "  IDS-RS  ::  Intrusion Detection System");
    assert_eq!(lines[3], "  Network Scan Detector v0.1.0");
    assert_eq!(
        lines[4],
        format!("  Parser:  {:<14} Listen:  {}", "ESP", "UDP/9000")
    );
    assert_eq!(
        lines[5],
        format!("  SIEM:    {:<14} Email:   {}", "siem.local:514", "OFF")
    );
    assert_eq!(
        lines[6],
        format!(
            "  Fast:    {}       Slow:    {}",
            ">15 ports/10s", ">10 ports/30min"
        )
    );
    assert_eq!(lines[7], "=".repeat(62));
    assert_eq!(lines[8], "");
}

#[test]
fn banner_has_exactly_two_rule_lines() {
    let lines = print_banner(&config(false, true), false);
    let rule = "=".repeat(62);
    let count = lines.iter().filter(|l| **l == rule).count();
    assert_eq!(count, 2);
}

#[test]
fn banner_status_off_iff_disabled() {
    let on = print_banner(&config(true, true), false);
    assert!(on[5].contains("siem.local:514"));
    assert!(!on[5].contains("OFF"));
    assert!(on[5].contains("ON"));

    let off = print_banner(&config(false, false), false);
    assert!(off[5].contains("SIEM:    OFF"));
    assert!(off[5].contains("Email:   OFF"));
    assert!(!off[5].contains("siem.local"));
}

#[test]
fn banner_styled_has_no_padding_damage() {
    let lines = print_banner(&config(true, true), true);
    assert!(lines[1].starts_with("\u{1b}[1;36m"));
    assert!(lines[1].ends_with("\u{1b}[0m"));
    assert!(lines[4].contains("\u{1b}[1;33mESP"));
    assert!(lines[5].contains("\u{1b}[1;32msiem.local:514"));
}

#[test]
fn banner_styled_has_exactly_two_rule_lines() {
    let lines = print_banner(&config(true, true), true);
    let rule = format!("\u{1b}[1;36m{}\u{1b}[0m", "=".repeat(62));
    let count = lines.iter().filter(|l| **l == rule).count();
    assert_eq!(count, 2);
}

#[test]
fn banner_plain_has_no_escape_bytes() {
    for line in print_banner(&config(true, true), false) {
        assert!(!line.contains('\u{1b}'), "escape byte in {:?}", line);
    }
}
