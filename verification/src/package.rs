//! The data the library works on: an upgradable package and its risk level.
use vstd::prelude::*;

verus! {

/// How much an upgrade of a package can disturb the running system.
#[derive(Debug, Clone, Copy, PartialEq, Eq, Structural)]
pub enum RiskLevel {
    Low,
    Medium,
    High,
    Critical,
}

impl RiskLevel {
    /// The emoji shown beside a package of this risk level.
    pub open spec fn spec_symbol(self) -> Seq<char> {
        match self {
            RiskLevel::Critical => "🔴"@,
            RiskLevel::High => "🔴"@,
            RiskLevel::Medium => "🟡"@,
            RiskLevel::Low => "🟢"@,
        }
    }

    /// The word shown for this risk level.
    pub open spec fn spec_label(self) -> Seq<char> {
        match self {
            RiskLevel::Critical => "CRITICAL"@,
            RiskLevel::High => "HIGH"@,
            RiskLevel::Medium => "MEDIUM"@,
            RiskLevel::Low => "LOW"@,
        }
    }

    pub fn symbol(&self) -> (s: &str)
        ensures
            s@ == self.spec_symbol(),
    {
        match self {
            RiskLevel::Critical => "🔴",
            RiskLevel::High => "🔴",
            RiskLevel::Medium => "🟡",
            RiskLevel::Low => "🟢",
        }
    }

    pub fn label(&self) -> (s: &str)
        ensures
            s@ == self.spec_label(),
    {
        match self {
            RiskLevel::Critical => "CRITICAL",
            RiskLevel::High => "HIGH",
            RiskLevel::Medium => "MEDIUM",
            RiskLevel::Low => "LOW",
        }
    }
}

/// One package that `apt` can upgrade.
#[derive(Debug, Clone, PartialEq, Eq)]
pub struct Package {
    pub name: String,
    pub repo: String,
    pub current_version: String,
    pub new_version: String,
    pub architecture: String,
    pub risk_level: RiskLevel,
    pub selected: bool,
}

/// A package with its text fields taken as character sequences.
pub struct PackageView {
    pub name: Seq<char>,
    pub repo: Seq<char>,
    pub current_version: Seq<char>,
    pub new_version: Seq<char>,
    pub architecture: Seq<char>,
    pub risk_level: RiskLevel,
    pub selected: bool,
}

impl View for Package {
    type V = PackageView;

    open spec fn view(&self) -> PackageView {
        PackageView {
            name: self.name@,
            repo: self.repo@,
            current_version: self.current_version@,
            new_version: self.new_version@,
            architecture: self.architecture@,
            risk_level: self.risk_level,
            selected: self.selected,
        }
    }
}

/// The views of a sequence of packages.
pub open spec fn package_views(ps: Seq<Package>) -> Seq<PackageView> {
    ps.map_values(|p: Package| p@)
}

} // verus!
