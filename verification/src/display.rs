//! What the screens show, computed apart from drawing: the package counts in
//! the list header, the text of list rows and details, the masked password,
//! the spinner frame, which log lines fit, and where a centred box goes.
use vstd::prelude::*;
use crate::package::{Package, PackageView, RiskLevel, package_views};
use crate::text::{chars_of, push_char};

verus! {

/// How many of the packages satisfy `f`.
pub open spec fn count_matching(ps: Seq<PackageView>, f: spec_fn(PackageView) -> bool) -> nat
    decreases ps.len(),
{
    if ps.len() == 0 {
        0
    } else {
        count_matching(ps.drop_last(), f) + if f(ps.last()) {
            1nat
        } else {
            0nat
        }
    }
}

pub open spec fn is_high_or_critical(p: PackageView) -> bool {
    p.risk_level == RiskLevel::High || p.risk_level == RiskLevel::Critical
}

pub open spec fn is_medium_risk(p: PackageView) -> bool {
    p.risk_level == RiskLevel::Medium
}

pub open spec fn is_low_risk(p: PackageView) -> bool {
    p.risk_level == RiskLevel::Low
}

pub open spec fn is_selected(p: PackageView) -> bool {
    p.selected
}

/// The counts shown in the header of the package list.
#[derive(Debug, Clone, Copy, PartialEq, Eq, Structural)]
pub struct Summary {
    /// All packages.
    pub total: usize,
    /// Packages of high or critical risk.
    pub high_or_critical: usize,
    /// Packages of medium risk.
    pub medium: usize,
    /// Packages of low risk.
    pub low: usize,
    /// Selected packages.
    pub selected: usize,
}

/// Counts the packages by risk level and selection.
pub fn summarize(packages: &Vec<Package>) -> (s: Summary)
    ensures
        s.total == packages@.len(),
        s.high_or_critical == count_matching(package_views(packages@), |p| is_high_or_critical(p)),
        s.medium == count_matching(package_views(packages@), |p| is_medium_risk(p)),
        s.low == count_matching(package_views(packages@), |p| is_low_risk(p)),
        s.selected == count_matching(package_views(packages@), |p| is_selected(p)),
{
    let ghost pv = package_views(packages@);
    let mut s = Summary { total: packages.len(), high_or_critical: 0, medium: 0, low: 0, selected: 0 };
    let mut i: usize = 0;
    while i < packages.len()
        invariant
            i <= packages@.len(),
            pv == package_views(packages@),
            s.total == packages@.len(),
            s.high_or_critical == count_matching(pv.take(i as int), |p| is_high_or_critical(p)),
            s.medium == count_matching(pv.take(i as int), |p| is_medium_risk(p)),
            s.low == count_matching(pv.take(i as int), |p| is_low_risk(p)),
            s.selected == count_matching(pv.take(i as int), |p| is_selected(p)),
            s.high_or_critical <= i && s.medium <= i && s.low <= i && s.selected <= i,
        decreases packages@.len() - i,
    {
        proof {
            assert(pv.take(i + 1).drop_last() == pv.take(i as int));
            assert(pv.take(i + 1).last() == packages@[i as int]@);
        }
        match packages[i].risk_level {
            RiskLevel::High | RiskLevel::Critical => {
                s.high_or_critical = s.high_or_critical + 1;
            },
            RiskLevel::Medium => {
                s.medium = s.medium + 1;
            },
            RiskLevel::Low => {
                s.low = s.low + 1;
            },
        }
        if packages[i].selected {
            s.selected = s.selected + 1;
        }
        i += 1;
    }
    assert(pv.take(packages@.len() as int) == pv);
    s
}

/// Every package counts in exactly one of the three risk groups of the list
/// header, and no more packages are selected than there are.
pub proof fn law_risk_counts_partition(ps: Seq<PackageView>)
    ensures
        count_matching(ps, |p| is_high_or_critical(p)) + count_matching(ps, |p| is_medium_risk(p))
            + count_matching(ps, |p| is_low_risk(p)) == ps.len(),
        count_matching(ps, |p| is_selected(p)) <= ps.len(),
    decreases ps.len(),
{
    if ps.len() > 0 {
        law_risk_counts_partition(ps.drop_last());
    }
}

proof fn lemma_count_update(
    ps: Seq<PackageView>,
    i: int,
    v: PackageView,
    f: spec_fn(PackageView) -> bool,
)
    requires
        0 <= i < ps.len(),
    ensures
        count_matching(ps.update(i, v), f) + (if f(ps[i]) {
            1int
        } else {
            0int
        }) == count_matching(ps, f) + (if f(v) {
            1int
        } else {
            0int
        }),
    decreases ps.len(),
{
    if i < ps.len() - 1 {
        lemma_count_update(ps.drop_last(), i, v, f);
        assert(ps.update(i, v).drop_last() =~= ps.drop_last().update(i, v));
    } else {
        assert(ps.update(i, v).drop_last() =~= ps.drop_last());
    }
}

proof fn lemma_count_selected_is_filter(ps: Seq<PackageView>)
    ensures
        count_matching(ps, |p| is_selected(p)) == ps.filter(|p: PackageView| p.selected).len(),
    decreases ps.len(),
{
    reveal(Seq::filter);
    if ps.len() > 0 {
        lemma_count_selected_is_filter(ps.drop_last());
    }
}

/// The selected count is the number of packages whose selection is set,
/// whatever their risk: it equals the length of the selected packages, and
/// selecting one more package raises it by exactly one (deselecting one
/// lowers it by one).
pub proof fn law_selected_count(ps: Seq<PackageView>, i: int)
    requires
        0 <= i < ps.len(),
    ensures
        count_matching(ps, |p| is_selected(p)) == ps.filter(|p: PackageView| p.selected).len(),
        !ps[i].selected ==> count_matching(
            ps.update(i, PackageView { selected: true, ..ps[i] }),
            |p| is_selected(p),
        ) == count_matching(ps, |p| is_selected(p)) + 1,
        ps[i].selected ==> count_matching(
            ps.update(i, PackageView { selected: false, ..ps[i] }),
            |p| is_selected(p),
        ) + 1 == count_matching(ps, |p| is_selected(p)),
{
    lemma_count_selected_is_filter(ps);
    lemma_count_update(ps, i, PackageView { selected: true, ..ps[i] }, |p| is_selected(p));
    lemma_count_update(ps, i, PackageView { selected: false, ..ps[i] }, |p| is_selected(p));
}

/// The check box shown in front of a package.
pub fn checkbox(selected: bool) -> (b: &'static str)
    ensures
        b@ == (if selected {
            "[✓]"@
        } else {
            "[ ]"@
        }),
{
    if selected {
        "[✓]"
    } else {
        "[ ]"
    }
}

/// `n` spaces.
pub open spec fn spaces(n: nat) -> Seq<char> {
    Seq::new(n, |i: int| ' ')
}

/// `s` padded on the right with spaces to `width` characters (left as it is
/// if it is that long already), as the `{:<width}` format does.
pub open spec fn pad_right(s: Seq<char>, width: nat) -> Seq<char> {
    if s.len() < width {
        s + spaces((width - s.len()) as nat)
    } else {
        s
    }
}

/// The width of the name column of the package list.
pub const NAME_WIDTH: usize = 28;

/// A package name padded to the width of the name column.
pub fn padded_name(name: &str) -> (r: String)
    ensures
        r@ == pad_right(name@, NAME_WIDTH as nat),
{
    let chars = chars_of(name);
    let mut r = crate::text::string_of(&chars);
    let mut n = chars.len();
    while n < NAME_WIDTH
        invariant
            chars@ == name@,
            chars@.len() <= n <= NAME_WIDTH || (n == chars@.len() && n >= NAME_WIDTH),
            r@ == chars@ + spaces((n - chars@.len()) as nat),
        decreases NAME_WIDTH - n,
    {
        push_char(&mut r, ' ');
        assert(r@ =~= chars@ + spaces((n + 1 - chars@.len()) as nat));
        n += 1;
    }
    assert(chars@.len() >= NAME_WIDTH ==> r@ =~= chars@);
    r
}

/// A `String` holding `s`.
fn owned(s: &str) -> (r: String)
    ensures
        r@ == s@,
{
    s.to_owned()
}

/// Appends the characters of `t` to `r`.
fn append_str(r: &mut String, t: &str)
    ensures
        final(r)@ == old(r)@ + t@,
{
    let cs = chars_of(t);
    let mut i: usize = 0;
    while i < cs.len()
        invariant
            cs@ == t@,
            i <= cs@.len(),
            r@ == old(r)@ + cs@.subrange(0, i as int),
        decreases cs@.len() - i,
    {
        push_char(r, cs[i]);
        assert(cs@.subrange(0, i + 1) == cs@.subrange(0, i as int).push(cs@[i as int]));
        i += 1;
    }
    assert(cs@.subrange(0, cs@.len() as int) == cs@);
}

/// The risk shown in the package details: the symbol, a space, the label.
pub fn risk_text(level: RiskLevel) -> (r: String)
    ensures
        r@ == level.spec_symbol() + " "@ + level.spec_label(),
{
    let mut r = owned(level.symbol());
    append_str(&mut r, " ");
    append_str(&mut r, level.label());
    r
}

/// The character of a decimal digit.
pub open spec fn digit_char(d: nat) -> char {
    if d == 0 {
        '0'
    } else if d == 1 {
        '1'
    } else if d == 2 {
        '2'
    } else if d == 3 {
        '3'
    } else if d == 4 {
        '4'
    } else if d == 5 {
        '5'
    } else if d == 6 {
        '6'
    } else if d == 7 {
        '7'
    } else if d == 8 {
        '8'
    } else {
        '9'
    }
}

/// The decimal numeral of `n`, as `{}` formats it: no sign, no leading zeros.
pub open spec fn decimal(n: nat) -> Seq<char>
    decreases n,
{
    if n < 10 {
        seq![digit_char(n)]
    } else {
        decimal(n / 10).push(digit_char(n % 10))
    }
}

fn digit(d: usize) -> (c: char)
    requires
        d < 10,
    ensures
        c == digit_char(d as nat),
{
    if d == 0 {
        '0'
    } else if d == 1 {
        '1'
    } else if d == 2 {
        '2'
    } else if d == 3 {
        '3'
    } else if d == 4 {
        '4'
    } else if d == 5 {
        '5'
    } else if d == 6 {
        '6'
    } else if d == 7 {
        '7'
    } else if d == 8 {
        '8'
    } else {
        '9'
    }
}

/// The decimal numeral of `n`.
pub fn decimal_string(n: usize) -> (s: String)
    ensures
        s@ == decimal(n as nat),
    decreases n,
{
    if n < 10 {
        let mut s = String::new();
        push_char(&mut s, digit(n));
        assert(s@ =~= seq![digit_char(n as nat)]);
        s
    } else {
        let mut s = decimal_string(n / 10);
        push_char(&mut s, digit(n % 10));
        s
    }
}

/// The texts of the counts in the header of the package list.
#[derive(Debug, Clone, PartialEq, Eq)]
pub struct HeaderText {
    /// `<n> pkgs`
    pub total: String,
    /// `🔴 <n>`: high or critical risk
    pub high_or_critical: String,
    /// `🟡 <n>`: medium risk
    pub medium: String,
    /// `🟢 <n>`: low risk
    pub low: String,
    /// `✓ <n> selected`
    pub selected: String,
}

/// The header texts for the counts `s`.
pub fn header_text(s: Summary) -> (h: HeaderText)
    ensures
        h.total@ == decimal(s.total as nat) + " pkgs"@,
        h.high_or_critical@ == "🔴 "@ + decimal(s.high_or_critical as nat),
        h.medium@ == "🟡 "@ + decimal(s.medium as nat),
        h.low@ == "🟢 "@ + decimal(s.low as nat),
        h.selected@ == "✓ "@ + decimal(s.selected as nat) + " selected"@,
{
    let mut total = decimal_string(s.total);
    append_str(&mut total, " pkgs");
    let mut high_or_critical = owned("🔴 ");
    append_str(&mut high_or_critical, decimal_string(s.high_or_critical).as_str());
    let mut medium = owned("🟡 ");
    append_str(&mut medium, decimal_string(s.medium).as_str());
    let mut low = owned("🟢 ");
    append_str(&mut low, decimal_string(s.low).as_str());
    let mut selected = owned("✓ ");
    append_str(&mut selected, decimal_string(s.selected).as_str());
    append_str(&mut selected, " selected");
    HeaderText { total, high_or_critical, medium, low, selected }
}

/// The progress shown in the title of the upgrade screen: `<done>/<total>`.
pub fn progress_text(progress: usize, total: usize) -> (t: String)
    ensures
        t@ == decimal(progress as nat) + "/"@ + decimal(total as nat),
{
    let mut t = decimal_string(progress);
    append_str(&mut t, "/");
    append_str(&mut t, decimal_string(total).as_str());
    t
}

/// The texts of the details pane for one package.
#[derive(Debug, Clone, PartialEq, Eq)]
pub struct DetailText {
    pub name: String,
    /// The risk symbol and label, as [`risk_text`] gives them.
    pub risk: String,
    pub repo: String,
    pub current_version: String,
    pub new_version: String,
}

/// What the details pane shows when no package is highlighted.
pub fn no_selection_text() -> (t: &'static str)
    ensures
        t@ == "NO package selected "@,
{
    "NO package selected "
}

/// The details of the highlighted package: none when `idx` is past the end
/// of the list, else that package's name, risk, repository and versions.
pub fn details(packages: &Vec<Package>, idx: usize) -> (d: Option<DetailText>)
    ensures
        d is Some <==> idx < packages@.len(),
        d matches Some(t) ==> {
            let p = packages@[idx as int]@;
            &&& t.name@ == p.name
            &&& t.risk@ == p.risk_level.spec_symbol() + " "@ + p.risk_level.spec_label()
            &&& t.repo@ == p.repo
            &&& t.current_version@ == p.current_version
            &&& t.new_version@ == p.new_version
        },
{
    if idx < packages.len() {
        let p = &packages[idx];
        Some(
            DetailText {
                name: p.name.clone(),
                risk: risk_text(p.risk_level),
                repo: p.repo.clone(),
                current_version: p.current_version.clone(),
                new_version: p.new_version.clone(),
            },
        )
    } else {
        None
    }
}

/// `p` repeated `n` times.
pub open spec fn repeat(p: Seq<char>, n: nat) -> Seq<char>
    decreases n,
{
    if n == 0 {
        Seq::empty()
    } else {
        repeat(p, (n - 1) as nat) + p
    }
}

/// What the password field shows for a password of `len` bytes: a hint when
/// nothing is typed, else one dot per byte.
pub open spec fn spec_password_display(len: nat) -> Seq<char> {
    if len == 0 {
        "  type here..."@
    } else {
        "  "@ + repeat("● "@, len)
    }
}

/// The text of the password field.
pub fn password_display(len: usize) -> (r: String)
    ensures
        r@ == spec_password_display(len as nat),
{
    if len == 0 {
        return owned("  type here...");
    }
    let mut r = owned("  ");
    let mut i: usize = 0;
    while i < len
        invariant
            i <= len,
            r@ == "  "@ + repeat("● "@, i as nat),
        decreases len - i,
    {
        append_str(&mut r, "● ");
        assert(r@ =~= "  "@ + repeat("● "@, (i + 1) as nat));
        i += 1;
    }
    r
}

/// The frames of the spinner.
pub open spec fn spec_spinner_frame(k: int) -> Seq<char> {
    if k == 0 {
        "⠋"@
    } else if k == 1 {
        "⠙"@
    } else if k == 2 {
        "⠹"@
    } else if k == 3 {
        "⠸"@
    } else if k == 4 {
        "⠼"@
    } else if k == 5 {
        "⠴"@
    } else if k == 6 {
        "⠦"@
    } else if k == 7 {
        "⠧"@
    } else if k == 8 {
        "⠇"@
    } else {
        "⠏"@
    }
}

/// The spinner frame for a tick: the ten frames in turn.
pub fn spinner_frame(tick: usize) -> (f: &'static str)
    ensures
        f@ == spec_spinner_frame(tick as int % 10),
{
    let k = tick % 10;
    if k == 0 {
        "⠋"
    } else if k == 1 {
        "⠙"
    } else if k == 2 {
        "⠹"
    } else if k == 3 {
        "⠸"
    } else if k == 4 {
        "⠼"
    } else if k == 5 {
        "⠴"
    } else if k == 6 {
        "⠦"
    } else if k == 7 {
        "⠧"
    } else if k == 8 {
        "⠇"
    } else {
        "⠏"
    }
}

/// The index of the first of the last `keep` lines of a log of `len` lines
/// (0 when the whole log fits).
pub fn tail_start(len: usize, keep: usize) -> (start: usize)
    ensures
        start == (if len > keep {
            len - keep
        } else {
            0
        }),
{
    if len > keep {
        len - keep
    } else {
        0
    }
}

/// A rectangle of the terminal, in cells.
#[derive(Debug, Clone, Copy, PartialEq, Eq, Structural)]
pub struct Area {
    pub x: u16,
    pub y: u16,
    pub width: u16,
    pub height: u16,
}

/// The rectangle that `ratatui::layout::Rect::new` builds: the corner as
/// given, the size cut so that the rectangle ends within `u16`.
pub open spec fn spec_rect_new(x: u16, y: u16, width: u16, height: u16) -> Area {
    Area {
        x,
        y,
        width: if width > u16::MAX - x {
            (u16::MAX - x) as u16
        } else {
            width
        },
        height: if height > u16::MAX - y {
            (u16::MAX - y) as u16
        } else {
            height
        },
    }
}

/// `ratatui::layout::Rect::new`, whose result keeps the given corner and
/// clamps width and height so that the rectangle ends within `u16`.
#[verifier::external_body]
fn rect_new(x: u16, y: u16, width: u16, height: u16) -> (r: Area)
    ensures
        r == spec_rect_new(x, y, width, height),
{
    let r = ratatui::layout::Rect::new(x, y, width, height);
    Area { x: r.x, y: r.y, width: r.width, height: r.height }
}

/// The offset that centres a length of `inner` in a length of `outer`.
pub open spec fn center_offset(outer: u16, inner: u16) -> int {
    if outer > inner {
        (outer - inner) / 2
    } else {
        0
    }
}

pub open spec fn min_u16(a: u16, b: u16) -> u16 {
    if a < b {
        a
    } else {
        b
    }
}

/// A box of `width` by `height` centred in `area`, no larger than `area`.
pub fn centered_rect(width: u16, height: u16, area: Area) -> (r: Area)
    requires
        area.x + center_offset(area.width, width) <= u16::MAX,
        area.y + center_offset(area.height, height) <= u16::MAX,
    ensures
        r == spec_rect_new(
            (area.x + center_offset(area.width, width)) as u16,
            (area.y + center_offset(area.height, height)) as u16,
            min_u16(width, area.width),
            min_u16(height, area.height),
        ),
{
    let dx = if area.width > width {
        area.width - width
    } else {
        0
    };
    let dy = if area.height > height {
        area.height - height
    } else {
        0
    };
    let x = area.x + dx / 2;
    let y = area.y + dy / 2;
    let w = if width < area.width {
        width
    } else {
        area.width
    };
    let h = if height < area.height {
        height
    } else {
        area.height
    };
    rect_new(x, y, w, h)
}

} // verus!
