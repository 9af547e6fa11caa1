use atpspy::display::{
    centered_rect, checkbox, padded_name, password_display, risk_text, spinner_frame, summarize,
    tail_start, Area,
};
use atpspy::package::{Package, RiskLevel};

fn pkg(name: &str, level: RiskLevel, selected: bool) -> Package {
    Package {
        name: name.to_string(),
        repo: "r".to_string(),
        current_version: "1".to_string(),
        new_version: "2".to_string(),
        architecture: "amd64".to_string(),
        risk_level: level,
        selected,
    }
}

#[test]
fn summary_counts() {
    let ps = vec![
        pkg("a", RiskLevel::Critical, true),
        pkg("b", RiskLevel::High, false),
        pkg("c", RiskLevel::Medium, true),
        pkg("d", RiskLevel::Low, false),
        pkg("e", RiskLevel::Low, false),
    ];
    let s = summarize(&ps);
    assert_eq!(s.total, 5);
    assert_eq!(s.high_or_critical, 2);
    assert_eq!(s.medium, 1);
    assert_eq!(s.low, 2);
    assert_eq!(s.selected, 2);
    assert_eq!(s.high_or_critical + s.medium + s.low, s.total);
    let e = summarize(&Vec::new());
    assert_eq!((e.total, e.high_or_critical, e.medium, e.low, e.selected), (0, 0, 0, 0, 0));
}

#[test]
fn checkboxes() {
    assert_eq!(checkbox(true), "[✓]");
    assert_eq!(checkbox(false), "[ ]");
}

#[test]
fn name_padding_matches_format() {
    for name in ["vim", "", "linux-image-6.5.0-14-generic-extra-long", "äöü", "exactly-twenty-eight-chars!!"] {
        assert_eq!(padded_name(name), format!("{:<28}", name), "name {:?}", name);
    }
    assert_eq!(padded_name("vim").chars().count(), 28);
}

#[test]
fn risk_texts() {
    assert_eq!(risk_text(RiskLevel::Critical), "🔴 CRITICAL");
    assert_eq!(risk_text(RiskLevel::Low), "🟢 LOW");
}

#[test]
fn password_field() {
    assert_eq!(password_display(0), "  type here...");
    assert_eq!(password_display(3), format!("  {}", "● ".repeat(3)));
}

#[test]
fn spinner_cycles() {
    let frames = ["⠋", "⠙", "⠹", "⠸", "⠼", "⠴", "⠦", "⠧", "⠇", "⠏"];
    for t in 0..25usize {
        assert_eq!(spinner_frame(t), frames[t % 10]);
    }
}

#[test]
fn log_tail() {
    assert_eq!(tail_start(3, 8), 0);
    assert_eq!(tail_start(8, 8), 0);
    assert_eq!(tail_start(20, 8), 12);
}

#[test]
fn centered_box() {
    let r = centered_rect(60, 16, Area { x: 0, y: 0, width: 100, height: 40 });
    assert_eq!(r, Area { x: 20, y: 12, width: 60, height: 16 });
    let small = centered_rect(60, 16, Area { x: 2, y: 1, width: 40, height: 10 });
    assert_eq!(small, Area { x: 2, y: 1, width: 40, height: 10 });
}

#[test]
fn centered_box_clamped_at_edge() {
    // the box would reach past u16::MAX: its width is cut there
    let r = centered_rect(60, 10, Area { x: 65500, y: 65530, width: 60, height: 10 });
    assert_eq!(r, Area { x: 65500, y: 65530, width: 35, height: 5 });
}

#[test]
fn decimal_numbers_match_format() {
    for n in [0usize, 7, 9, 10, 42, 100, 12345, usize::MAX] {
        assert_eq!(atpspy::display::decimal_string(n), format!("{}", n));
    }
}

#[test]
fn header_texts() {
    let ps = vec![
        pkg("a", RiskLevel::Critical, true),
        pkg("b", RiskLevel::High, false),
        pkg("c", RiskLevel::Medium, true),
        pkg("d", RiskLevel::Low, false),
    ];
    let h = atpspy::display::header_text(summarize(&ps));
    assert_eq!(h.total, "4 pkgs");
    assert_eq!(h.high_or_critical, "🔴 2");
    assert_eq!(h.medium, "🟡 1");
    assert_eq!(h.low, "🟢 1");
    assert_eq!(h.selected, "✓ 2 selected");
}

#[test]
fn progress_title() {
    assert_eq!(atpspy::display::progress_text(3, 12), "3/12");
    assert_eq!(atpspy::display::progress_text(0, 0), "0/0");
}

#[test]
fn details_pane() {
    let ps = vec![pkg("vim", RiskLevel::Low, false), pkg("libc6", RiskLevel::Critical, false)];
    let d = atpspy::display::details(&ps, 1).unwrap();
    assert_eq!(d.name, "libc6");
    assert_eq!(d.risk, "🔴 CRITICAL");
    assert_eq!(d.repo, "r");
    assert_eq!(d.current_version, "1");
    assert_eq!(d.new_version, "2");
    assert!(atpspy::display::details(&ps, 2).is_none());
    assert!(atpspy::display::details(&Vec::new(), 0).is_none());
    assert_eq!(atpspy::display::no_selection_text(), "NO package selected ");
}
