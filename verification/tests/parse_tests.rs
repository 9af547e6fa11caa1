use atpspy::package::RiskLevel;
use atpspy::parse::{find_char, parse_line, parse_upgradable, trim_end_matching};
use atpspy::text::{chars_of, contains, split_lines, split_words, starts_with};

const SAMPLE: &str = "Listing... Done\n\
vim/jammy-updates 2:8.2.3995-1ubuntu2.13 amd64 [upgradable from: 2:8.2.3995-1ubuntu2.12]\n\
libc6/jammy-security 2.35-0ubuntu3.6 amd64 [upgradable from: 2.35-0ubuntu3.5]\n\
\n\
python3-apt/jammy-updates 2.4.0ubuntu3 all [upgradable]\n\
broken line\n";

#[test]
fn parses_apt_listing() {
    let pkgs = parse_upgradable(SAMPLE);
    assert_eq!(pkgs.len(), 3);

    assert_eq!(pkgs[0].name, "vim");
    assert_eq!(pkgs[0].repo, "jammy-updates");
    assert_eq!(pkgs[0].new_version, "2:8.2.3995-1ubuntu2.13");
    assert_eq!(pkgs[0].architecture, "amd64");
    assert_eq!(pkgs[0].current_version, "2:8.2.3995-1ubuntu2.12");
    assert_eq!(pkgs[0].risk_level, RiskLevel::Low);
    assert!(!pkgs[0].selected);

    assert_eq!(pkgs[1].name, "libc6");
    assert_eq!(pkgs[1].repo, "jammy-security");
    assert_eq!(pkgs[1].current_version, "2.35-0ubuntu3.5");
    assert_eq!(pkgs[1].risk_level, RiskLevel::Critical);

    assert_eq!(pkgs[2].name, "python3-apt");
    assert_eq!(pkgs[2].current_version, "unknown");
    assert_eq!(pkgs[2].architecture, "all");
    assert_eq!(pkgs[2].risk_level, RiskLevel::Medium);
}

#[test]
fn empty_output_has_no_packages() {
    assert!(parse_upgradable("").is_empty());
    assert!(parse_upgradable("Listing... Done\n").is_empty());
    assert!(parse_upgradable("   \n\t\n").is_empty());
}

#[test]
fn field_without_slash_has_unknown_repo() {
    let pkgs = parse_upgradable("foo 1.0 amd64 [upgradable from: 0.9]");
    assert_eq!(pkgs.len(), 1);
    assert_eq!(pkgs[0].name, "foo");
    assert_eq!(pkgs[0].repo, "unknown");
    assert_eq!(pkgs[0].current_version, "0.9");
}

#[test]
fn only_first_slash_splits() {
    let pkgs = parse_upgradable("a/b/c 1 x y");
    assert_eq!(pkgs[0].name, "a");
    assert_eq!(pkgs[0].repo, "b/c");
}

#[test]
fn crlf_lines_and_no_final_newline() {
    let pkgs = parse_upgradable("Listing...\r\ngit/jammy 1:2 amd64 [upgradable from: 1:1]]]\r\nwget/jammy 1.21 amd64 x");
    assert_eq!(pkgs.len(), 2);
    assert_eq!(pkgs[0].name, "git");
    assert_eq!(pkgs[0].current_version, "1:1");
    assert_eq!(pkgs[1].name, "wget");
    assert_eq!(pkgs[1].current_version, "unknown");
}

#[test]
fn listing_prefix_skips_line() {
    assert!(parse_upgradable("Listing-pkg/x 1 amd64 [upgradable from: 0]").is_empty());
}

#[test]
fn parse_line_returns_none_on_short_lines() {
    assert!(parse_line(&chars_of("a/b 1 amd64")).is_none());
    assert!(parse_line(&chars_of("a/b 1 amd64 z")).is_some());
}

#[test]
fn split_lines_like_std() {
    for text in ["", "a", "a\n", "a\n\nb", "\n", "a\r\nb\r", "x\r\r\n", "a\n\n"] {
        let expected: Vec<Vec<char>> = text.lines().map(|l| l.chars().collect()).collect();
        assert_eq!(split_lines(&chars_of(text)), expected, "text {:?}", text);
    }
}

#[test]
fn split_words_like_std() {
    for text in ["", "  ", "a b", "  a\t b  ", "a\u{a0}b\u{3000}c", "x\u{2003}y\n", "a\u{85}b\u{1680}c\u{200b}d"] {
        let expected: Vec<Vec<char>> = text.split_whitespace().map(|l| l.chars().collect()).collect();
        assert_eq!(split_words(&chars_of(text)), expected, "text {:?}", text);
    }
}

#[test]
fn text_searches() {
    assert!(starts_with(&chars_of("linux-image-x"), &chars_of("linux-image")));
    assert!(!starts_with(&chars_of("linux"), &chars_of("linux-image")));
    assert!(contains(&chars_of("jammy-security"), &chars_of("security")));
    assert!(contains(&chars_of("abc"), &chars_of("")));
    assert!(!contains(&chars_of("secur"), &chars_of("security")));
    assert_eq!(find_char(&chars_of("ab/c"), '/'), 2);
    assert_eq!(find_char(&chars_of("abc"), '/'), 3);
    assert_eq!(trim_end_matching(&chars_of("1.0]]"), ']'), "1.0");
    assert_eq!(trim_end_matching(&chars_of("]]"), ']'), "");
}
