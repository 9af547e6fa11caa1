use atpspy::package::{Package, RiskLevel};
use atpspy::risk::{assingn_risk, is_critical, is_high, is_medium};

fn pkg(name: &str, repo: &str) -> Package {
    Package {
        name: name.to_string(),
        repo: repo.to_string(),
        current_version: "1.0".to_string(),
        new_version: "1.1".to_string(),
        architecture: "amd64".to_string(),
        risk_level: RiskLevel::Low,
        selected: false,
    }
}

fn level(name: &str, repo: &str) -> RiskLevel {
    let mut p = pkg(name, repo);
    assingn_risk(&mut p);
    p.risk_level
}

#[test]
fn symbols_and_labels() {
    assert_eq!(RiskLevel::Critical.symbol(), "🔴");
    assert_eq!(RiskLevel::High.symbol(), "🔴");
    assert_eq!(RiskLevel::Medium.symbol(), "🟡");
    assert_eq!(RiskLevel::Low.symbol(), "🟢");
    assert_eq!(RiskLevel::Critical.label(), "CRITICAL");
    assert_eq!(RiskLevel::High.label(), "HIGH");
    assert_eq!(RiskLevel::Medium.label(), "MEDIUM");
    assert_eq!(RiskLevel::Low.label(), "LOW");
}

#[test]
fn readme_critical_examples() {
    assert_eq!(level("linux-image-6.5.0-14-generic", "jammy-updates"), RiskLevel::Critical);
    assert_eq!(level("libc6", "jammy-updates"), RiskLevel::Critical);
    assert_eq!(level("grub-pc", "jammy-updates"), RiskLevel::Critical);
    assert_eq!(level("grub-efi", "jammy-updates"), RiskLevel::Critical);
}

#[test]
fn readme_high_examples() {
    assert_eq!(level("systemd", "jammy-updates"), RiskLevel::High);
    assert_eq!(level("dbus", "jammy-updates"), RiskLevel::High);
    assert_eq!(level("libssl3", "jammy-updates"), RiskLevel::High);
}

#[test]
fn readme_medium_examples() {
    assert_eq!(level("python3", "jammy-updates"), RiskLevel::Medium);
    assert_eq!(level("curl", "jammy-security"), RiskLevel::Medium);
}

#[test]
fn readme_low_examples() {
    assert_eq!(level("vim", "jammy-updates"), RiskLevel::Low);
    assert_eq!(level("git", "jammy-updates"), RiskLevel::Low);
    assert_eq!(level("wget", "jammy-updates"), RiskLevel::Low);
}

#[test]
fn critical_wins_over_security_repo() {
    assert_eq!(level("libc6", "jammy-security"), RiskLevel::Critical);
    assert_eq!(level("systemd", "jammy-security"), RiskLevel::High);
}

#[test]
fn exact_names_are_not_prefixes() {
    // only the listed names count, not names that merely start with them
    assert_eq!(level("libc6-dev", "jammy-updates"), RiskLevel::Low);
    assert_eq!(level("dbus-x11", "jammy-updates"), RiskLevel::Low);
    assert_eq!(level("linux-headers-generic", "jammy-updates"), RiskLevel::Low);
}

#[test]
fn predicates_directly() {
    assert!(is_critical(&pkg("linux-image-generic", "x")));
    assert!(!is_critical(&pkg("linux", "x")));
    assert!(is_high(&pkg("libssl-dev", "x")));
    assert!(!is_high(&pkg("libss", "x")));
    assert!(is_medium(&pkg("python3-apt", "x")));
    assert!(is_medium(&pkg("zlib1g", "noble-security,now")));
    assert!(!is_medium(&pkg("zlib1g", "noble-securit")));
}

#[test]
fn assign_risk_keeps_other_fields() {
    let mut p = pkg("libc6", "jammy-updates");
    p.selected = true;
    assingn_risk(&mut p);
    assert_eq!(p.risk_level, RiskLevel::Critical);
    assert!(p.selected);
    assert_eq!(p.name, "libc6");
    assert_eq!(p.current_version, "1.0");
}
