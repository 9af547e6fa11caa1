//! Reading the output of `apt list --upgradable` into packages.
//!
//! Each line looks like
//! `vim/jammy-updates 2:8.2.3995-1ubuntu2.13 amd64 [upgradable from: 2:8.2.3995-1ubuntu2.12]`:
//! the name and repository joined by a slash, the new version, the
//! architecture, and the installed version in brackets.
use vstd::prelude::*;
use crate::package::{Package, PackageView, RiskLevel, package_views};
use crate::risk::{assingn_risk, classify};
use crate::text::{
    char_seqs, chars_of, is_blank, is_whitespace, lines, split_lines, split_words, starts_with,
    string_of, string_of_range, words,
};

verus! {

/// The index of the first `c` in `s` at or after `i`, or `s.len()` if none.
pub open spec fn find_char_from(s: Seq<char>, c: char, i: int) -> int
    decreases s.len() - i,
{
    if i >= s.len() {
        s.len() as int
    } else if s[i] == c {
        i
    } else {
        find_char_from(s, c, i + 1)
    }
}

/// The package name in a `name/repository` field: all before the first slash.
pub open spec fn name_part(field: Seq<char>) -> Seq<char> {
    field.subrange(0, find_char_from(field, '/', 0))
}

/// The repository in a `name/repository` field: all after the first slash, or
/// `unknown` when the field holds no slash.
pub open spec fn repo_part(field: Seq<char>) -> Seq<char> {
    let k = find_char_from(field, '/', 0);
    if k < field.len() {
        field.subrange(k + 1, field.len() as int)
    } else {
        "unknown"@
    }
}

/// `s` without all its trailing `c` characters.
pub open spec fn trim_end_char(s: Seq<char>, c: char) -> Seq<char>
    decreases s.len(),
{
    if s.len() > 0 && s.last() == c {
        trim_end_char(s.drop_last(), c)
    } else {
        s
    }
}

/// The package that one line describes, if any. The header line
/// (`Listing...`), blank lines and lines of fewer than four words describe
/// none. The installed version is the sixth word without its closing
/// brackets, or `unknown` when the line has fewer than six words. A new
/// package is not selected, and its risk level follows from its name and
/// repository.
pub open spec fn spec_parse_line(line: Seq<char>) -> Option<PackageView> {
    let parts = words(line);
    if "Listing"@.is_prefix_of(line) || is_blank(line) || parts.len() < 4 {
        None
    } else {
        let name = name_part(parts[0]);
        let repo = repo_part(parts[0]);
        Some(
            PackageView {
                name,
                repo,
                current_version: if parts.len() >= 6 {
                    trim_end_char(parts[5], ']')
                } else {
                    "unknown"@
                },
                new_version: parts[1],
                architecture: parts[2],
                risk_level: classify(name, repo),
                selected: false,
            },
        )
    }
}

/// The packages that a sequence of lines describes, in order.
pub open spec fn parse_lines(ls: Seq<Seq<char>>) -> Seq<PackageView>
    decreases ls.len(),
{
    if ls.len() == 0 {
        Seq::empty()
    } else {
        let rest = parse_lines(ls.drop_last());
        match spec_parse_line(ls.last()) {
            Some(p) => rest.push(p),
            None => rest,
        }
    }
}

/// The packages that the output of `apt list --upgradable` describes.
pub open spec fn spec_parse_upgradable(output: Seq<char>) -> Seq<PackageView> {
    parse_lines(lines(output))
}

/// Every package read from `apt` output starts unselected, with the risk
/// level that its name and repository give; and the output yields at most one
/// package per line.
pub proof fn law_parsed_packages_are_fresh(output: Seq<char>)
    ensures
        spec_parse_upgradable(output).len() <= lines(output).len(),
        forall|i: int|
            0 <= i < spec_parse_upgradable(output).len() ==> {
                let p = #[trigger] spec_parse_upgradable(output)[i];
                &&& !p.selected
                &&& p.risk_level == classify(p.name, p.repo)
            },
{
    lemma_parse_lines_fresh(lines(output));
}

proof fn lemma_parse_lines_fresh(ls: Seq<Seq<char>>)
    ensures
        parse_lines(ls).len() <= ls.len(),
        forall|i: int|
            0 <= i < parse_lines(ls).len() ==> {
                let p = #[trigger] parse_lines(ls)[i];
                &&& !p.selected
                &&& p.risk_level == classify(p.name, p.repo)
            },
    decreases ls.len(),
{
    if ls.len() > 0 {
        lemma_parse_lines_fresh(ls.drop_last());
    }
}

proof fn lemma_find_char_from(s: Seq<char>, c: char, i: int)
    requires
        0 <= i <= s.len(),
    ensures
        i <= find_char_from(s, c, i) <= s.len(),
        find_char_from(s, c, i) < s.len() ==> s[find_char_from(s, c, i)] == c,
        forall|j: int| i <= j < find_char_from(s, c, i) ==> s[j] != c,
    decreases s.len() - i,
{
    if i < s.len() && s[i] != c {
        lemma_find_char_from(s, c, i + 1);
    }
}

/// What a parsed line's package is made of: the line has at least four
/// words; the new version and the architecture are its second and third
/// words; when the first word holds a slash, the name is what precedes the
/// first slash and the repository the whole rest of the word after it (so
/// name, slash and repository spell the first word again); when it holds
/// none, the name is the whole first word and the repository `unknown`. The
/// package is unselected.
pub proof fn law_parsed_line_fields(line: Seq<char>)
    requires
        spec_parse_line(line) is Some,
    ensures
        ({
            let p = spec_parse_line(line).unwrap();
            let ws = words(line);
            &&& ws.len() >= 4
            &&& p.new_version == ws[1]
            &&& p.architecture == ws[2]
            &&& !p.selected
            &&& !p.name.contains('/')
            &&& ws[0].contains('/') ==> p.name + "/"@ + p.repo == ws[0]
            &&& !ws[0].contains('/') ==> p.name == ws[0] && p.repo == "unknown"@
        }),
{
    reveal_strlit("/");
    let ws = words(line);
    let f = ws[0];
    let p = spec_parse_line(line).unwrap();
    lemma_find_char_from(f, '/', 0);
    let k = find_char_from(f, '/', 0);
    assert forall|j: int| 0 <= j < p.name.len() implies p.name[j] != '/' by {
        assert(p.name[j] == f[j]);
    }
    if f.contains('/') {
        let j = choose|j: int| 0 <= j < f.len() && f[j] == '/';
        assert(k < f.len());
        assert(p.name + "/"@ + p.repo =~= f);
    } else {
        if k < f.len() {
            assert(f[k] == '/');
            assert(false);
        }
        assert(p.name =~= f);
    }
}

/// Every package read from `apt` output is the package of one of its lines.
pub proof fn law_parsed_packages_come_from_lines(output: Seq<char>)
    ensures
        forall|i: int|
            #![trigger spec_parse_upgradable(output)[i]]
            0 <= i < spec_parse_upgradable(output).len() ==> exists|j: int|
                0 <= j < lines(output).len() && spec_parse_line(#[trigger] lines(output)[j])
                    == Some(spec_parse_upgradable(output)[i]),
{
    lemma_parse_lines_sources(lines(output));
}

proof fn lemma_parse_lines_sources(ls: Seq<Seq<char>>)
    ensures
        forall|i: int|
            #![trigger parse_lines(ls)[i]]
            0 <= i < parse_lines(ls).len() ==> exists|j: int|
                0 <= j < ls.len() && spec_parse_line(#[trigger] ls[j]) == Some(parse_lines(ls)[i]),
    decreases ls.len(),
{
    if ls.len() > 0 {
        let init = ls.drop_last();
        lemma_parse_lines_sources(init);
        assert forall|i: int| #![trigger parse_lines(ls)[i]] 0 <= i < parse_lines(ls).len() implies exists|j: int|
            0 <= j < ls.len() && spec_parse_line(#[trigger] ls[j]) == Some(parse_lines(ls)[i]) by {
            if i < parse_lines(init).len() {
                let j = choose|j: int|
                    0 <= j < init.len() && spec_parse_line(#[trigger] init[j]) == Some(
                        parse_lines(init)[i],
                    );
                assert(ls[j] == init[j]);
            } else {
                assert(ls[ls.len() - 1] == ls.last());
            }
        }
    }
}

/// The view of an optional package.
pub open spec fn opt_package_view(p: Option<Package>) -> Option<PackageView> {
    match p {
        Some(q) => Some(q@),
        None => None,
    }
}

/// The index of the first `c` in `s`, or `s.len()` if none.
pub fn find_char(s: &Vec<char>, c: char) -> (k: usize)
    ensures
        k == find_char_from(s@, c, 0),
        k <= s@.len(),
{
    let mut i: usize = 0;
    while i < s.len()
        invariant
            i <= s@.len(),
            find_char_from(s@, c, 0) == find_char_from(s@, c, i as int),
        decreases s@.len() - i,
    {
        if s[i] == c {
            return i;
        }
        i += 1;
    }
    i
}

/// `s` without its trailing `c` characters.
pub fn trim_end_matching(s: &Vec<char>, c: char) -> (t: String)
    ensures
        t@ == trim_end_char(s@, c),
{
    let mut end = s.len();
    assert(s@.subrange(0, end as int) == s@);
    while end > 0 && s[end - 1] == c
        invariant
            end <= s@.len(),
            trim_end_char(s@, c) == trim_end_char(s@.subrange(0, end as int), c),
        decreases end,
    {
        assert(s@.subrange(0, end as int).drop_last() == s@.subrange(0, end - 1));
        end -= 1;
    }
    string_of_range(s, 0, end)
}

/// Whether every character of `s` is whitespace.
pub fn blank(s: &Vec<char>) -> (b: bool)
    ensures
        b == is_blank(s@),
{
    let mut i: usize = 0;
    while i < s.len()
        invariant
            i <= s@.len(),
            forall|j: int| 0 <= j < i ==> crate::text::is_ws(#[trigger] s@[j]),
        decreases s@.len() - i,
    {
        if !is_whitespace(s[i]) {
            return false;
        }
        i += 1;
    }
    true
}

/// The package that one line of `apt list --upgradable` describes, if any.
pub fn parse_line(line: &Vec<char>) -> (p: Option<Package>)
    ensures
        opt_package_view(p) == spec_parse_line(line@),
{
    let parts = split_words(line);
    if starts_with(line, &chars_of("Listing")) || blank(line) || parts.len() < 4 {
        return None;
    }
    let ghost ws = words(line@);
    assert(parts@[0]@ == ws[0] && parts@[1]@ == ws[1] && parts@[2]@ == ws[2]);
    let first = &parts[0];
    let k = find_char(first, '/');
    let name = string_of_range(first, 0, k);
    let repo = if k < first.len() {
        string_of_range(first, k + 1, first.len())
    } else {
        "unknown".to_owned()
    };
    let current_version = if parts.len() >= 6 {
        assert(parts@[5]@ == ws[5]);
        trim_end_matching(&parts[5], ']')
    } else {
        "unknown".to_owned()
    };
    let mut pkg = Package {
        name,
        repo,
        current_version,
        new_version: string_of(&parts[1]),
        architecture: string_of(&parts[2]),
        risk_level: RiskLevel::Low,
        selected: false,
    };
    assingn_risk(&mut pkg);
    Some(pkg)
}

/// The packages that the output of `apt list --upgradable` describes, in the
/// order of its lines.
pub fn parse_upgradable(output: &str) -> (pkgs: Vec<Package>)
    ensures
        package_views(pkgs@) == spec_parse_upgradable(output@),
{
    let text = chars_of(output);
    let ls = split_lines(&text);
    let ghost all = char_seqs(ls@);
    let mut pkgs: Vec<Package> = Vec::new();
    let mut i: usize = 0;
    while i < ls.len()
        invariant
            i <= ls@.len(),
            all == char_seqs(ls@),
            all == lines(text@),
            text@ == output@,
            package_views(pkgs@) == parse_lines(all.take(i as int)),
        decreases ls@.len() - i,
    {
        let parsed = parse_line(&ls[i]);
        proof {
            assert(all.take(i + 1).drop_last() == all.take(i as int));
            assert(all.take(i + 1).last() == ls@[i as int]@);
        }
        match parsed {
            Some(p) => {
                proof {
                    assert(package_views(pkgs@.push(p)) == package_views(pkgs@).push(p@));
                }
                pkgs.push(p);
            },
            None => {},
        }
        i += 1;
    }
    assert(all.take(ls@.len() as int) == all);
    pkgs
}

} // verus!
