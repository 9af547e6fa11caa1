//! Which risk level a package's upgrade carries, decided by its name and the
//! repository it comes from.
use vstd::prelude::*;
use crate::package::{Package, PackageView, RiskLevel};
use crate::text::{chars_of, contains, contains_seq, seq_equals, starts_with};

verus! {

/// Core system packages: the C library, the boot loader and the kernel image.
pub open spec fn spec_is_critical(name: Seq<char>) -> bool {
    ||| name == "libc6"@
    ||| name == "grub-pc"@
    ||| name == "grub-efi"@
    ||| "linux-image"@.is_prefix_of(name)
}

/// System services and the TLS library.
pub open spec fn spec_is_high(name: Seq<char>) -> bool {
    ||| name == "systemd"@
    ||| name == "dbus"@
    ||| "libssl"@.is_prefix_of(name)
}

/// Python packages, and anything from a security repository.
pub open spec fn spec_is_medium(name: Seq<char>, repo: Seq<char>) -> bool {
    ||| "python"@.is_prefix_of(name)
    ||| contains_seq(repo, "security"@)
}

/// The risk level of a package with this name from this repository: the
/// first of critical, high and medium that applies, else low.
pub open spec fn classify(name: Seq<char>, repo: Seq<char>) -> RiskLevel {
    if spec_is_critical(name) {
        RiskLevel::Critical
    } else if spec_is_high(name) {
        RiskLevel::High
    } else if spec_is_medium(name, repo) {
        RiskLevel::Medium
    } else {
        RiskLevel::Low
    }
}

/// Only the exact names `libc6`, `grub-pc` and `grub-efi` and the names
/// beginning with `linux-image` are critical.
pub proof fn law_critical_names(name: Seq<char>, repo: Seq<char>)
    ensures
        classify(name, repo) == RiskLevel::Critical <==> (name == "libc6"@ || name == "grub-pc"@
            || name == "grub-efi"@ || "linux-image"@.is_prefix_of(name)),
{
}

/// A package is high risk only by name: exactly `systemd` or `dbus`, or a name
/// beginning with `libssl`; other names that merely begin with `systemd` or
/// `dbus` are not.
pub proof fn law_high_names(name: Seq<char>, repo: Seq<char>)
    ensures
        classify(name, repo) == RiskLevel::High ==> (name == "systemd"@ || name == "dbus"@
            || "libssl"@.is_prefix_of(name)),
        (name == "systemd"@ || name == "dbus"@ || "libssl"@.is_prefix_of(name))
            ==> classify(name, repo) == RiskLevel::High || classify(name, repo)
            == RiskLevel::Critical,
{
}

/// A package from a repository whose name holds `security`, or whose name
/// begins with `python`, is medium risk unless its name makes it critical or
/// high; a package is medium risk for no other reason.
pub proof fn law_medium_by_repo_or_python(name: Seq<char>, repo: Seq<char>)
    ensures
        (contains_seq(repo, "security"@) || "python"@.is_prefix_of(name)) ==> classify(name, repo)
            != RiskLevel::Low,
        (contains_seq(repo, "security"@) || "python"@.is_prefix_of(name)) && classify(name, repo)
            != RiskLevel::Critical && classify(name, repo) != RiskLevel::High ==> classify(
            name,
            repo,
        ) == RiskLevel::Medium,
        classify(name, repo) == RiskLevel::Medium ==> (contains_seq(repo, "security"@)
            || "python"@.is_prefix_of(name)),
{
}

pub fn is_critical(pkg: &Package) -> (b: bool)
    ensures
        b == spec_is_critical(pkg.name@),
{
    let name = chars_of(pkg.name.as_str());
    seq_equals(&name, &chars_of("libc6")) || seq_equals(&name, &chars_of("grub-pc"))
        || seq_equals(&name, &chars_of("grub-efi")) || starts_with(&name, &chars_of("linux-image"))
}

pub fn is_high(pkg: &Package) -> (b: bool)
    ensures
        b == spec_is_high(pkg.name@),
{
    let name = chars_of(pkg.name.as_str());
    seq_equals(&name, &chars_of("systemd")) || seq_equals(&name, &chars_of("dbus"))
        || starts_with(&name, &chars_of("libssl"))
}

pub fn is_medium(pkg: &Package) -> (b: bool)
    ensures
        b == spec_is_medium(pkg.name@, pkg.repo@),
{
    let name = chars_of(pkg.name.as_str());
    let repo = chars_of(pkg.repo.as_str());
    starts_with(&name, &chars_of("python")) || contains(&repo, &chars_of("security"))
}

/// Sets the package's risk level from its name and repository; nothing else
/// changes.
pub fn assingn_risk(pkg: &mut Package)
    ensures
        final(pkg)@ == (PackageView { risk_level: classify(old(pkg).name@, old(pkg).repo@), ..old(pkg)@ }),
{
    let level = if is_critical(pkg) {
        RiskLevel::Critical
    } else if is_high(pkg) {
        RiskLevel::High
    } else if is_medium(pkg) {
        RiskLevel::Medium
    } else {
        RiskLevel::Low
    };
    pkg.risk_level = level;
}

} // verus!
