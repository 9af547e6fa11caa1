//! The decisions of the terminal application, as a state machine.
//!
//! The caller owns the terminal, the child processes and the channels. It
//! hands each key press to [`App::handle_key`] and carries out the returned
//! [`Action`]; it hands each line that the `apt update` run reports to
//! [`App::scan_message`] and each line that the `apt install` run reports to
//! [`App::upgrade_message`], and calls [`App::advance_spinner`] once per frame
//! while one of those runs is shown.
use vstd::prelude::*;
use crate::package::{Package, PackageView, package_views};
use crate::text::{
    chars_of, contains, contains_seq, push_char, pop_char, seq_equals, split_words, string_of,
    words,
};

verus! {

/// The screen that the application shows.
#[derive(Debug, Clone, Copy, PartialEq, Eq, Structural)]
pub enum Screen {
    Password,
    Scanning,
    PackageList,
    Upgrading,
}

/// A key press, as far as the application tells keys apart.
#[derive(Debug, Clone, Copy, PartialEq, Eq, Structural)]
pub enum Key {
    Char(char),
    Enter,
    Backspace,
    Esc,
    Up,
    Down,
    Other,
}

/// What the caller is to do after a key press.
#[derive(Debug, PartialEq, Eq)]
pub enum Action {
    /// Nothing beyond redrawing.
    Nothing,
    /// Leave the application.
    Quit,
    /// Run `sudo apt update` with this password.
    StartScan { password: String },
    /// Run `sudo apt install -y` on these packages with this password.
    StartUpgrade { password: String, packages: Vec<String> },
}

/// How a line reported by the `apt update` run was taken.
#[derive(Debug, Clone, Copy, PartialEq, Eq, Structural)]
pub enum ScanOutcome {
    /// The line was logged; keep listening.
    Pending,
    /// The password was refused; stop listening, the password screen is back.
    Rejected,
    /// The update went through; stop listening, read the upgradable packages.
    Accepted,
}

/// The character sequences held by a vector of strings.
pub open spec fn string_views(v: Seq<String>) -> Seq<Seq<char>> {
    v.map_values(|s: String| s@)
}

pub enum ActionView {
    Nothing,
    Quit,
    StartScan(Seq<char>),
    StartUpgrade(Seq<char>, Seq<Seq<char>>),
}

impl View for Action {
    type V = ActionView;

    open spec fn view(&self) -> ActionView {
        match self {
            Action::Nothing => ActionView::Nothing,
            Action::Quit => ActionView::Quit,
            Action::StartScan { password } => ActionView::StartScan(password@),
            Action::StartUpgrade { password, packages } => ActionView::StartUpgrade(
                password@,
                string_views(packages@),
            ),
        }
    }
}

/// The whole state of the application.
#[derive(Debug)]
pub struct App {
    pub screen: Screen,
    /// The password typed so far.
    pub password: String,
    /// The message shown under the password field.
    pub password_error: String,
    /// The lines shown while `apt update` runs.
    pub scan_logs: Vec<String>,
    /// The frame counter of the spinner.
    pub spinner_tick: usize,
    /// The upgradable packages.
    pub packages: Vec<Package>,
    /// The index of the highlighted package.
    pub selected_idx: usize,
    /// How many packages the upgrade has set up so far.
    pub upgrade_progress: usize,
    /// How many packages the upgrade installs.
    pub upgrade_total: usize,
    /// The lines shown while `apt install` runs.
    pub upgrade_logs: Vec<String>,
    /// The package that the upgrade works on.
    pub current_pkg: String,
    /// The names of the packages handed to the last upgrade request.
    pub upgrade_list: Vec<String>,
}

#[verifier::ext_equal]
pub struct AppView {
    pub screen: Screen,
    pub password: Seq<char>,
    pub password_error: Seq<char>,
    pub scan_logs: Seq<Seq<char>>,
    pub spinner_tick: usize,
    pub packages: Seq<PackageView>,
    pub selected_idx: usize,
    pub upgrade_progress: usize,
    pub upgrade_total: usize,
    pub upgrade_logs: Seq<Seq<char>>,
    pub current_pkg: Seq<char>,
    pub upgrade_list: Seq<Seq<char>>,
}

impl View for App {
    type V = AppView;

    open spec fn view(&self) -> AppView {
        AppView {
            screen: self.screen,
            password: self.password@,
            password_error: self.password_error@,
            scan_logs: string_views(self.scan_logs@),
            spinner_tick: self.spinner_tick,
            packages: package_views(self.packages@),
            selected_idx: self.selected_idx,
            upgrade_progress: self.upgrade_progress,
            upgrade_total: self.upgrade_total,
            upgrade_logs: string_views(self.upgrade_logs@),
            current_pkg: self.current_pkg@,
            upgrade_list: string_views(self.upgrade_list@),
        }
    }
}

/// The state at start: the password screen, with everything empty.
pub open spec fn spec_initial() -> AppView {
    AppView {
        screen: Screen::Password,
        password: Seq::empty(),
        password_error: Seq::empty(),
        scan_logs: Seq::empty(),
        spinner_tick: 0,
        packages: Seq::empty(),
        selected_idx: 0,
        upgrade_progress: 0,
        upgrade_total: 0,
        upgrade_logs: Seq::empty(),
        current_pkg: Seq::empty(),
        upgrade_list: Seq::empty(),
    }
}

/// The highlighted index after moving down: one further, unless it is the
/// last package (or there is none).
pub open spec fn index_down(idx: usize, len: nat) -> usize {
    if idx < len - 1 {
        (idx + 1) as usize
    } else {
        idx
    }
}

/// The highlighted index after moving up: one back, unless it is the first.
pub open spec fn index_up(idx: usize) -> usize {
    if idx > 0 {
        (idx - 1) as usize
    } else {
        idx
    }
}

/// `p` with its selection set to `sel`.
pub open spec fn with_selection(p: PackageView, sel: bool) -> PackageView {
    PackageView { selected: sel, ..p }
}

/// All packages with their selection set to `sel`.
pub open spec fn select_all(ps: Seq<PackageView>, sel: bool) -> Seq<PackageView> {
    ps.map_values(|p: PackageView| with_selection(p, sel))
}

/// The packages with the selection of the one at `idx` flipped (none, if
/// `idx` is past the end).
pub open spec fn toggle_at(ps: Seq<PackageView>, idx: usize) -> Seq<PackageView> {
    if idx < ps.len() {
        ps.update(idx as int, with_selection(ps[idx as int], !ps[idx as int].selected))
    } else {
        ps
    }
}

/// The names of the selected packages, in order.
pub open spec fn selected_names(ps: Seq<PackageView>) -> Seq<Seq<char>>
    decreases ps.len(),
{
    if ps.len() == 0 {
        Seq::empty()
    } else {
        let rest = selected_names(ps.drop_last());
        if ps.last().selected {
            rest.push(ps.last().name)
        } else {
            rest
        }
    }
}

/// A key pressed on the password screen: characters extend the password,
/// backspace takes its last character away, enter starts `apt update`, escape
/// quits.
pub open spec fn spec_password_key(s: AppView, key: Key) -> (AppView, ActionView) {
    match key {
        Key::Char(c) => (AppView { password: s.password.push(c), ..s }, ActionView::Nothing),
        Key::Enter => (
            AppView {
                password_error: Seq::empty(),
                screen: Screen::Scanning,
                scan_logs: seq!["Running sudo at update...."@],
                spinner_tick: 0,
                ..s
            },
            ActionView::StartScan(s.password),
        ),
        Key::Backspace => (
            AppView {
                password: if s.password.len() > 0 {
                    s.password.drop_last()
                } else {
                    s.password
                },
                ..s
            },
            ActionView::Nothing,
        ),
        Key::Esc => (s, ActionView::Quit),
        _ => (s, ActionView::Nothing),
    }
}

/// The upgrade request: the selected packages' names become the upgrade
/// list; if there is any, the upgrade screen opens on the first of them.
pub open spec fn spec_request_upgrade(s: AppView) -> (AppView, ActionView) {
    let list = selected_names(s.packages);
    if list.len() > 0 {
        (
            AppView {
                upgrade_list: list,
                upgrade_total: list.len() as usize,
                upgrade_progress: 0,
                upgrade_logs: seq!["Starting upgrade..."@],
                spinner_tick: 0,
                current_pkg: list[0],
                screen: Screen::Upgrading,
                ..s
            },
            ActionView::StartUpgrade(s.password, list),
        )
    } else {
        (AppView { upgrade_list: list, ..s }, ActionView::Nothing)
    }
}

/// A key pressed on the package list: down or `j` and up or `k` move the
/// highlight, space flips the highlighted package's selection, `a` selects
/// all, `d` none, `u` requests the upgrade, `q` or escape quits.
pub open spec fn spec_list_key(s: AppView, key: Key) -> (AppView, ActionView) {
    if key == Key::Down || key == Key::Char('j') {
        (
            AppView { selected_idx: index_down(s.selected_idx, s.packages.len()), ..s },
            ActionView::Nothing,
        )
    } else if key == Key::Up || key == Key::Char('k') {
        (AppView { selected_idx: index_up(s.selected_idx), ..s }, ActionView::Nothing)
    } else if key == Key::Char(' ') {
        (AppView { packages: toggle_at(s.packages, s.selected_idx), ..s }, ActionView::Nothing)
    } else if key == Key::Char('a') {
        (AppView { packages: select_all(s.packages, true), ..s }, ActionView::Nothing)
    } else if key == Key::Char('d') {
        (AppView { packages: select_all(s.packages, false), ..s }, ActionView::Nothing)
    } else if key == Key::Char('u') {
        spec_request_upgrade(s)
    } else if key == Key::Char('q') || key == Key::Esc {
        (s, ActionView::Quit)
    } else {
        (s, ActionView::Nothing)
    }
}

/// A key pressed on the upgrade screen: escape or `q` quits; enter goes back
/// to the package list once the upgrade is complete.
pub open spec fn spec_upgrading_key(s: AppView, key: Key) -> (AppView, ActionView) {
    if key == Key::Esc || key == Key::Char('q') {
        (s, ActionView::Quit)
    } else if key == Key::Enter && s.upgrade_progress >= s.upgrade_total {
        (AppView { screen: Screen::PackageList, spinner_tick: 0, ..s }, ActionView::Nothing)
    } else {
        (s, ActionView::Nothing)
    }
}

/// A key press on any screen; on the scanning screen only escape and `q`
/// count, and both quit.
pub open spec fn spec_handle_key(s: AppView, key: Key) -> (AppView, ActionView) {
    match s.screen {
        Screen::Password => spec_password_key(s, key),
        Screen::PackageList => spec_list_key(s, key),
        Screen::Upgrading => spec_upgrading_key(s, key),
        Screen::Scanning => if key == Key::Esc || key == Key::Char('q') {
            (s, ActionView::Quit)
        } else {
            (s, ActionView::Nothing)
        },
    }
}

/// A line that `sudo` prints when it refuses the password.
pub open spec fn reports_auth_failure(line: Seq<char>) -> bool {
    ||| contains_seq(line, "incorrect password"@)
    ||| contains_seq(line, "Sorry"@)
    ||| contains_seq(line, "try again"@)
    ||| contains_seq(line, "authentication failure"@)
    ||| contains_seq(line, "not in the sudoers"@)
}

/// Some logged line reports that the password was refused.
pub open spec fn scan_failed(logs: Seq<Seq<char>>) -> bool {
    exists|i: int| 0 <= i < logs.len() && reports_auth_failure(#[trigger] logs[i])
}

/// A line reported by the `apt update` run. The end marker `__DONE__` leads
/// back to the password screen, with the password cleared, when some logged
/// line reports a refused password, and else on to the package list; the
/// failure marker `__ERROR__` leads back to the password screen with an error
/// message; any other line is logged.
pub open spec fn spec_scan_message(s: AppView, msg: Seq<char>) -> (AppView, ScanOutcome) {
    if msg == "__DONE__"@ {
        if scan_failed(s.scan_logs) {
            (
                AppView {
                    scan_logs: s.scan_logs.push("❌ Wrong password!"@),
                    screen: Screen::Password,
                    password: Seq::empty(),
                    ..s
                },
                ScanOutcome::Rejected,
            )
        } else {
            (
                AppView {
                    scan_logs: s.scan_logs.push("Done! Loading packages..."@),
                    screen: Screen::PackageList,
                    ..s
                },
                ScanOutcome::Accepted,
            )
        }
    } else if msg == "__ERROR__"@ {
        (
            AppView {
                scan_logs: s.scan_logs.push("❌ Authentication failed!"@),
                password_error: "❌ Wrong password! Try again."@,
                screen: Screen::Password,
                password: Seq::empty(),
                ..s
            },
            ScanOutcome::Rejected,
        )
    } else {
        (AppView { scan_logs: s.scan_logs.push(msg), ..s }, ScanOutcome::Pending)
    }
}

/// A line in which `apt` reports that it unpacks or sets up a package.
pub open spec fn reports_package_step(msg: Seq<char>) -> bool {
    contains_seq(msg, "Setting up"@) || contains_seq(msg, "Unpacking"@)
}

/// The third word of `msg`, or nothing if it has fewer words.
pub open spec fn third_word(msg: Seq<char>) -> Seq<char> {
    if words(msg).len() > 2 {
        words(msg)[2]
    } else {
        Seq::empty()
    }
}

/// A line reported by the `apt install` run. The end marker `__DONE__`
/// completes the progress and logs the closing lines; any other line is
/// logged, and one that reports a package step advances the progress (never
/// past the total) and names the current package by its third word. The
/// result tells whether the run is over.
pub open spec fn spec_upgrade_message(s: AppView, msg: Seq<char>) -> (AppView, bool) {
    if msg == "__DONE__"@ {
        (
            AppView {
                upgrade_logs: s.upgrade_logs.push(""@).push("✅ All packages upgraded!"@).push(
                    "Press Enter to go back..."@,
                ),
                upgrade_progress: s.upgrade_total,
                ..s
            },
            true,
        )
    } else if reports_package_step(msg) {
        (
            AppView {
                upgrade_logs: s.upgrade_logs.push(msg),
                upgrade_progress: if s.upgrade_progress < s.upgrade_total {
                    (s.upgrade_progress + 1) as usize
                } else {
                    s.upgrade_progress
                },
                current_pkg: third_word(msg),
                ..s
            },
            false,
        )
    } else {
        (AppView { upgrade_logs: s.upgrade_logs.push(msg), ..s }, false)
    }
}

/// Escape quits from every screen; `q` quits from every screen but the
/// password screen, where it is typed into the password.
pub proof fn law_escape_quits(s: AppView)
    ensures
        spec_handle_key(s, Key::Esc).1 == ActionView::Quit,
        s.screen != Screen::Password ==> spec_handle_key(s, Key::Char('q')).1
            == ActionView::Quit,
        s.screen == Screen::Password ==> spec_handle_key(s, Key::Char('q')).0.password
            == s.password.push('q'),
{
}

/// The end marker of the `apt update` run is a refusal exactly when some
/// logged line, wherever it stands in the log, holds one of `sudo`'s refusal
/// phrases; otherwise it is an acceptance.
pub proof fn law_refusal_anywhere_in_log(s: AppView)
    ensures
        (exists|i: int|
            0 <= i < s.scan_logs.len() && {
                let l = #[trigger] s.scan_logs[i];
                ||| contains_seq(l, "incorrect password"@)
                ||| contains_seq(l, "Sorry"@)
                ||| contains_seq(l, "try again"@)
                ||| contains_seq(l, "authentication failure"@)
                ||| contains_seq(l, "not in the sudoers"@)
            }) <==> spec_scan_message(s, "__DONE__"@).1 == ScanOutcome::Rejected,
        spec_scan_message(s, "__DONE__"@).1 != ScanOutcome::Pending,
{
}

/// Once a logged line reports a refused password, every further logged line
/// keeps the end marker a refusal.
pub proof fn law_refusal_stays_with_more_lines(s: AppView, msg: Seq<char>)
    requires
        spec_scan_message(s, "__DONE__"@).1 == ScanOutcome::Rejected,
        spec_scan_message(s, msg).1 == ScanOutcome::Pending,
    ensures
        spec_scan_message(spec_scan_message(s, msg).0, "__DONE__"@).1 == ScanOutcome::Rejected,
{
    let t = spec_scan_message(s, msg).0;
    let i = choose|i: int| 0 <= i < s.scan_logs.len() && reports_auth_failure(#[trigger] s.scan_logs[i]);
    assert(t.scan_logs[i] == s.scan_logs[i]);
}

/// A line of the `apt install` run that is not the end marker and holds
/// neither `Setting up` nor `Unpacking` is only logged: progress, current
/// package and everything else stay as they were. A line that holds one of
/// them is logged, advances the progress by one unless it is complete, and
/// names its third word (or nothing) as the current package.
pub proof fn law_only_package_steps_advance(s: AppView, msg: Seq<char>)
    requires
        msg != "__DONE__"@,
    ensures
        !contains_seq(msg, "Setting up"@) && !contains_seq(msg, "Unpacking"@)
            ==> spec_upgrade_message(s, msg) == (AppView { upgrade_logs: s.upgrade_logs.push(msg), ..s }, false),
        contains_seq(msg, "Setting up"@) || contains_seq(msg, "Unpacking"@) ==> {
            let t = spec_upgrade_message(s, msg).0;
            &&& t.upgrade_logs == s.upgrade_logs.push(msg)
            &&& t.upgrade_progress == if s.upgrade_progress < s.upgrade_total {
                s.upgrade_progress + 1
            } else {
                s.upgrade_progress as int
            }
            &&& t.current_pkg == if words(msg).len() > 2 {
                words(msg)[2]
            } else {
                Seq::empty()
            }
            &&& !spec_upgrade_message(s, msg).1
        },
{
}

/// The highlighted index points at a package, or is 0.
pub open spec fn highlight_in_range(s: AppView) -> bool {
    s.selected_idx == 0 || s.selected_idx < s.packages.len()
}

/// No key press moves the highlight off the package list.
pub proof fn law_key_keeps_highlight_in_range(s: AppView, key: Key)
    requires
        highlight_in_range(s),
    ensures
        highlight_in_range(spec_handle_key(s, key).0),
{
}

/// No key press and no line from either `apt` run sets the upgrade progress
/// past the upgrade total.
pub proof fn law_progress_within_total(s: AppView, key: Key, msg: Seq<char>)
    requires
        s.upgrade_progress <= s.upgrade_total,
    ensures
        spec_handle_key(s, key).0.upgrade_progress <= spec_handle_key(s, key).0.upgrade_total,
        spec_scan_message(s, msg).0.upgrade_progress <= spec_scan_message(s, msg).0.upgrade_total,
        spec_upgrade_message(s, msg).0.upgrade_progress <= spec_upgrade_message(
            s,
            msg,
        ).0.upgrade_total,
{
}

/// On the package list, moving down and then up brings the highlight back,
/// unless it was on the last package.
pub proof fn law_down_then_up(s: AppView)
    requires
        s.screen == Screen::PackageList,
        s.selected_idx + 1 < s.packages.len(),
        s.packages.len() <= usize::MAX,
    ensures
        spec_handle_key(spec_handle_key(s, Key::Down).0, Key::Up).0 == s,
{
    let d = spec_handle_key(s, Key::Down).0;
    assert(d == (AppView { selected_idx: (s.selected_idx + 1) as usize, ..s }));
    let u = spec_handle_key(d, Key::Up).0;
    assert(u == (AppView { selected_idx: index_up(d.selected_idx), ..d }));
    assert(u =~= s);
}

/// On the package list, pressing space twice leaves the selection as it was.
pub proof fn law_toggle_twice(s: AppView)
    requires
        s.screen == Screen::PackageList,
    ensures
        spec_handle_key(spec_handle_key(s, Key::Char(' ')).0, Key::Char(' ')).0 == s,
{
    let once = spec_handle_key(s, Key::Char(' ')).0;
    let twice = spec_handle_key(once, Key::Char(' ')).0;
    if s.selected_idx < s.packages.len() {
        assert(twice.packages =~= s.packages);
    }
    assert(twice =~= s);
}

/// On the password screen, a typed character followed by backspace leaves
/// the state as it was.
pub proof fn law_backspace_undoes_typing(s: AppView, c: char)
    requires
        s.screen == Screen::Password,
    ensures
        spec_handle_key(spec_handle_key(s, Key::Char(c)).0, Key::Backspace).0 == s,
{
    assert(s.password.push(c).drop_last() =~= s.password);
    assert(spec_handle_key(spec_handle_key(s, Key::Char(c)).0, Key::Backspace).0 =~= s);
}

proof fn lemma_selected_names_all(ps: Seq<PackageView>)
    ensures
        selected_names(select_all(ps, true)) == ps.map_values(|p: PackageView| p.name),
        selected_names(select_all(ps, false)) == Seq::<Seq<char>>::empty(),
    decreases ps.len(),
{
    if ps.len() > 0 {
        lemma_selected_names_all(ps.drop_last());
        assert(select_all(ps, true).drop_last() =~= select_all(ps.drop_last(), true));
        assert(select_all(ps, false).drop_last() =~= select_all(ps.drop_last(), false));
        assert(ps.map_values(|p: PackageView| p.name) =~= ps.drop_last().map_values(
            |p: PackageView| p.name,
        ).push(ps.last().name));
    } else {
        assert(ps.map_values(|p: PackageView| p.name) =~= Seq::<Seq<char>>::empty());
    }
}

/// On a non-empty package list, selecting all and then requesting the
/// upgrade asks to upgrade every package, in list order, and opens the
/// upgrade screen.
pub proof fn law_select_all_then_upgrade(s: AppView)
    requires
        s.screen == Screen::PackageList,
        s.packages.len() > 0,
        s.packages.len() <= usize::MAX,
    ensures
        ({
            let (t, a) = spec_handle_key(spec_handle_key(s, Key::Char('a')).0, Key::Char('u'));
            &&& a == ActionView::StartUpgrade(
                s.password,
                s.packages.map_values(|p: PackageView| p.name),
            )
            &&& t.screen == Screen::Upgrading
            &&& t.upgrade_total == s.packages.len()
            &&& t.upgrade_progress == 0
        }),
{
    lemma_selected_names_all(s.packages);
}

/// After deselecting all, an upgrade request does nothing but record an empty
/// upgrade list.
pub proof fn law_deselect_all_then_upgrade(s: AppView)
    requires
        s.screen == Screen::PackageList,
    ensures
        ({
            let d = spec_handle_key(s, Key::Char('d')).0;
            let (t, a) = spec_handle_key(d, Key::Char('u'));
            &&& a == ActionView::Nothing
            &&& t == (AppView { upgrade_list: Seq::empty(), ..d })
        }),
{
    lemma_selected_names_all(s.packages);
}

/// While `apt update` runs, every key but escape and `q` is ignored.
pub proof fn law_scanning_ignores_keys(s: AppView, key: Key)
    requires
        s.screen == Screen::Scanning,
        key != Key::Esc,
        key != Key::Char('q'),
    ensures
        spec_handle_key(s, key) == (s, ActionView::Nothing),
{
}

/// A refused password always brings back the password screen with the
/// password cleared; an accepted one always opens the package list.
pub proof fn law_scan_outcome_screens(s: AppView, msg: Seq<char>)
    ensures
        spec_scan_message(s, msg).1 == ScanOutcome::Rejected ==> spec_scan_message(s, msg).0.screen
            == Screen::Password && spec_scan_message(s, msg).0.password.len() == 0,
        spec_scan_message(s, msg).1 == ScanOutcome::Accepted ==> spec_scan_message(s, msg).0.screen
            == Screen::PackageList,
        spec_scan_message(s, msg).1 == ScanOutcome::Pending ==> spec_scan_message(s, msg).0 == (
        AppView { scan_logs: s.scan_logs.push(msg), ..s }),
{
}

/// Once the upgrade run reports its end, enter on the upgrade screen goes
/// back to the package list.
pub proof fn law_finished_upgrade_returns_to_list(s: AppView)
    requires
        s.screen == Screen::Upgrading,
    ensures
        spec_handle_key(spec_upgrade_message(s, "__DONE__"@).0, Key::Enter).0.screen
            == Screen::PackageList,
{
}

proof fn lemma_string_views_push(v: Seq<String>, x: String)
    ensures
        string_views(v.push(x)) == string_views(v).push(x@),
{
    assert(string_views(v.push(x)) =~= string_views(v).push(x@));
}

/// A vector holding one string.
fn one_line(s: &str) -> (v: Vec<String>)
    ensures
        string_views(v@) == seq![s@],
{
    let mut v: Vec<String> = Vec::new();
    v.push(s.to_owned());
    assert(string_views(v@) =~= seq![s@]);
    v
}

/// The names of the selected packages, in order.
pub fn selected_package_names(ps: &Vec<Package>) -> (names: Vec<String>)
    ensures
        string_views(names@) == selected_names(package_views(ps@)),
{
    let mut names: Vec<String> = Vec::new();
    let mut i: usize = 0;
    while i < ps.len()
        invariant
            i <= ps@.len(),
            string_views(names@) == selected_names(package_views(ps@).take(i as int)),
        decreases ps@.len() - i,
    {
        proof {
            let pv = package_views(ps@);
            assert(pv.take(i + 1).drop_last() == pv.take(i as int));
            assert(pv.take(i + 1).last() == ps@[i as int]@);
        }
        if ps[i].selected {
            let n = ps[i].name.clone();
            proof {
                lemma_string_views_push(names@, n);
            }
            names.push(n);
        }
        i += 1;
    }
    assert(package_views(ps@).take(ps@.len() as int) == package_views(ps@));
    names
}

impl App {
    /// The application as it starts: on the password screen, with nothing typed.
    pub fn new() -> (app: App)
        ensures
            app@ == spec_initial(),
    {
        let app = App {
            screen: Screen::Password,
            password: String::new(),
            password_error: String::new(),
            scan_logs: Vec::new(),
            spinner_tick: 0,
            packages: Vec::new(),
            selected_idx: 0,
            upgrade_progress: 0,
            upgrade_total: 0,
            upgrade_logs: Vec::new(),
            current_pkg: String::new(),
            upgrade_list: Vec::new(),
        };
        assert(app@ =~= spec_initial());
        app
    }

    fn password_key(&mut self, key: Key) -> (a: Action)
        requires
            old(self).screen == Screen::Password,
        ensures
            final(self)@ == spec_password_key(old(self)@, key).0,
            a@ == spec_password_key(old(self)@, key).1,
    {
        match key {
            Key::Char(c) => {
                push_char(&mut self.password, c);
                Action::Nothing
            },
            Key::Enter => {
                self.password_error = String::new();
                self.screen = Screen::Scanning;
                self.scan_logs = one_line("Running sudo at update....");
                self.spinner_tick = 0;
                Action::StartScan { password: self.password.clone() }
            },
            Key::Backspace => {
                let _ = pop_char(&mut self.password);
                Action::Nothing
            },
            Key::Esc => Action::Quit,
            _ => Action::Nothing,
        }
    }

    fn request_upgrade(&mut self) -> (a: Action)
        ensures
            final(self)@ == spec_request_upgrade(old(self)@).0,
            a@ == spec_request_upgrade(old(self)@).1,
    {
        let list = selected_package_names(&self.packages);
        if list.len() > 0 {
            self.upgrade_total = list.len();
            self.upgrade_progress = 0;
            self.upgrade_logs = one_line("Starting upgrade...");
            self.spinner_tick = 0;
            self.current_pkg = list[0].clone();
            self.screen = Screen::Upgrading;
            let packages = list.clone();
            proof {
                assert(string_views(packages@) =~= string_views(list@));
            }
            self.upgrade_list = list;
            Action::StartUpgrade { password: self.password.clone(), packages }
        } else {
            self.upgrade_list = list;
            Action::Nothing
        }
    }

    fn set_all_selected(&mut self, sel: bool)
        ensures
            final(self)@ == (AppView { packages: select_all(old(self)@.packages, sel), ..old(self)@ }),
    {
        let ghost start = package_views(self.packages@);
        let mut i: usize = 0;
        while i < self.packages.len()
            invariant
                i <= self.packages@.len(),
                self.packages@.len() == start.len(),
                forall|j: int|
                    0 <= j < i ==> #[trigger] package_views(self.packages@)[j] == with_selection(
                        start[j],
                        sel,
                    ),
                forall|j: int|
                    i <= j < start.len() ==> #[trigger] package_views(self.packages@)[j]
                        == start[j],
                self.screen == old(self).screen,
                self.password == old(self).password,
                self.password_error == old(self).password_error,
                self.scan_logs == old(self).scan_logs,
                self.spinner_tick == old(self).spinner_tick,
                self.selected_idx == old(self).selected_idx,
                self.upgrade_progress == old(self).upgrade_progress,
                self.upgrade_total == old(self).upgrade_total,
                self.upgrade_logs == old(self).upgrade_logs,
                self.current_pkg == old(self).current_pkg,
                self.upgrade_list == old(self).upgrade_list,
                start == package_views(old(self).packages@),
            decreases self.packages@.len() - i,
        {
            let ghost before = self.packages@;
            self.packages[i].selected = sel;
            proof {
                assert(self.packages@.len() == before.len());
                assert(self.packages@[i as int]@ == with_selection(before[i as int]@, sel));
                assert forall|j: int| 0 <= j < before.len() && j != i implies self.packages@[j]
                    == before[j] by {}
                assert(package_views(before)[i as int] == start[i as int]);
                assert forall|j: int| 0 <= j < i + 1 implies #[trigger] package_views(
                    self.packages@,
                )[j] == with_selection(start[j], sel) by {
                    if j < i {
                        assert(package_views(before)[j] == with_selection(start[j], sel));
                    }
                }
                assert forall|j: int| i + 1 <= j < start.len() implies #[trigger] package_views(
                    self.packages@,
                )[j] == start[j] by {
                    assert(package_views(before)[j] == start[j]);
                }
            }
            i += 1;
        }
        assert(package_views(self.packages@) =~= select_all(start, sel));
    }

    fn list_key(&mut self, key: Key) -> (a: Action)
        requires
            old(self).screen == Screen::PackageList,
        ensures
            final(self)@ == spec_list_key(old(self)@, key).0,
            a@ == spec_list_key(old(self)@, key).1,
    {
        if key == Key::Down || key == Key::Char('j') {
            let len = self.packages.len();
            if len > 0 && self.selected_idx < len - 1 {
                self.selected_idx = self.selected_idx + 1;
            }
            Action::Nothing
        } else if key == Key::Up || key == Key::Char('k') {
            if self.selected_idx > 0 {
                self.selected_idx = self.selected_idx - 1;
            }
            Action::Nothing
        } else if key == Key::Char(' ') {
            let idx = self.selected_idx;
            if idx < self.packages.len() {
                let sel = self.packages[idx].selected;
                self.packages[idx].selected = !sel;
                proof {
                    assert(package_views(self.packages@) =~= toggle_at(
                        package_views(old(self).packages@),
                        idx,
                    ));
                }
            }
            Action::Nothing
        } else if key == Key::Char('a') {
            self.set_all_selected(true);
            Action::Nothing
        } else if key == Key::Char('d') {
            self.set_all_selected(false);
            Action::Nothing
        } else if key == Key::Char('u') {
            self.request_upgrade()
        } else if key == Key::Char('q') || key == Key::Esc {
            Action::Quit
        } else {
            Action::Nothing
        }
    }

    fn upgrading_key(&mut self, key: Key) -> (a: Action)
        requires
            old(self).screen == Screen::Upgrading,
        ensures
            final(self)@ == spec_upgrading_key(old(self)@, key).0,
            a@ == spec_upgrading_key(old(self)@, key).1,
    {
        if key == Key::Esc || key == Key::Char('q') {
            Action::Quit
        } else if key == Key::Enter && self.upgrade_progress >= self.upgrade_total {
            self.screen = Screen::PackageList;
            self.spinner_tick = 0;
            Action::Nothing
        } else {
            Action::Nothing
        }
    }

    /// Takes one key press and says what the caller is to do.
    pub fn handle_key(&mut self, key: Key) -> (a: Action)
        ensures
            final(self)@ == spec_handle_key(old(self)@, key).0,
            a@ == spec_handle_key(old(self)@, key).1,
    {
        match self.screen {
            Screen::Password => self.password_key(key),
            Screen::PackageList => self.list_key(key),
            Screen::Upgrading => self.upgrading_key(key),
            Screen::Scanning => if key == Key::Esc || key == Key::Char('q') {
                Action::Quit
            } else {
                Action::Nothing
            },
        }
    }
}

/// Whether some line of `logs` reports that the password was refused.
pub fn scan_has_auth_failure(logs: &Vec<String>) -> (b: bool)
    ensures
        b == scan_failed(string_views(logs@)),
{
    let m1 = chars_of("incorrect password");
    let m2 = chars_of("Sorry");
    let m3 = chars_of("try again");
    let m4 = chars_of("authentication failure");
    let m5 = chars_of("not in the sudoers");
    let mut i: usize = 0;
    while i < logs.len()
        invariant
            i <= logs@.len(),
            m1@ == "incorrect password"@,
            m2@ == "Sorry"@,
            m3@ == "try again"@,
            m4@ == "authentication failure"@,
            m5@ == "not in the sudoers"@,
            forall|j: int| 0 <= j < i ==> !reports_auth_failure(#[trigger] string_views(logs@)[j]),
        decreases logs@.len() - i,
    {
        let line = chars_of(logs[i].as_str());
        if contains(&line, &m1) || contains(&line, &m2) || contains(&line, &m3) || contains(
            &line,
            &m4,
        ) || contains(&line, &m5) {
            assert(reports_auth_failure(string_views(logs@)[i as int]));
            return true;
        }
        i += 1;
    }
    false
}

/// The third whitespace-separated word of `s`, or an empty string.
pub fn third_word_of(s: &Vec<char>) -> (w: String)
    ensures
        w@ == third_word(s@),
{
    let ws = split_words(s);
    if ws.len() > 2 {
        assert(ws@[2]@ == words(s@)[2]);
        string_of(&ws[2])
    } else {
        String::new()
    }
}

/// Whether a line of the `apt install` run's error output is `sudo`'s own
/// password prompt, which is kept out of the upgrade log.
pub fn is_sudo_prompt(line: &str) -> (b: bool)
    ensures
        b == contains_seq(line@, "[sudo]"@),
{
    contains(&chars_of(line), &chars_of("[sudo]"))
}

impl App {
    /// Takes one line reported by the `apt update` run.
    pub fn scan_message(&mut self, msg: &str) -> (o: ScanOutcome)
        ensures
            final(self)@ == spec_scan_message(old(self)@, msg@).0,
            o == spec_scan_message(old(self)@, msg@).1,
    {
        let m = chars_of(msg);
        if seq_equals(&m, &chars_of("__DONE__")) {
            if scan_has_auth_failure(&self.scan_logs) {
                let line = "❌ Wrong password!".to_owned();
                proof {
                    lemma_string_views_push(self.scan_logs@, line);
                }
                self.scan_logs.push(line);
                self.screen = Screen::Password;
                self.password = String::new();
                ScanOutcome::Rejected
            } else {
                let line = "Done! Loading packages...".to_owned();
                proof {
                    lemma_string_views_push(self.scan_logs@, line);
                }
                self.scan_logs.push(line);
                self.screen = Screen::PackageList;
                ScanOutcome::Accepted
            }
        } else if seq_equals(&m, &chars_of("__ERROR__")) {
            let line = "❌ Authentication failed!".to_owned();
            proof {
                lemma_string_views_push(self.scan_logs@, line);
            }
            self.scan_logs.push(line);
            self.password_error = "❌ Wrong password! Try again.".to_owned();
            self.screen = Screen::Password;
            self.password = String::new();
            ScanOutcome::Rejected
        } else {
            let line = msg.to_owned();
            proof {
                lemma_string_views_push(self.scan_logs@, line);
            }
            self.scan_logs.push(line);
            ScanOutcome::Pending
        }
    }

    /// Replaces the package list with the packages that the output of
    /// `apt list --upgradable` describes.
    pub fn load_packages(&mut self, output: &str)
        ensures
            final(self)@ == (AppView {
                packages: crate::parse::spec_parse_upgradable(output@),
                ..old(self)@
            }),
    {
        self.packages = crate::parse::parse_upgradable(output);
    }

    fn push_upgrade_log(&mut self, line: &str)
        ensures
            final(self)@ == (AppView {
                upgrade_logs: old(self)@.upgrade_logs.push(line@),
                ..old(self)@
            }),
    {
        let l = line.to_owned();
        proof {
            lemma_string_views_push(self.upgrade_logs@, l);
        }
        self.upgrade_logs.push(l);
    }

    /// Takes one line reported by the `apt install` run; tells whether the run
    /// is over.
    pub fn upgrade_message(&mut self, msg: &str) -> (done: bool)
        ensures
            final(self)@ == spec_upgrade_message(old(self)@, msg@).0,
            done == spec_upgrade_message(old(self)@, msg@).1,
    {
        let m = chars_of(msg);
        if seq_equals(&m, &chars_of("__DONE__")) {
            self.push_upgrade_log("");
            self.push_upgrade_log("✅ All packages upgraded!");
            self.push_upgrade_log("Press Enter to go back...");
            self.upgrade_progress = self.upgrade_total;
            true
        } else {
            self.push_upgrade_log(msg);
            if contains(&m, &chars_of("Setting up")) || contains(&m, &chars_of("Unpacking")) {
                if self.upgrade_progress < self.upgrade_total {
                    self.upgrade_progress = self.upgrade_progress + 1;
                }
                self.current_pkg = third_word_of(&m);
            }
            false
        }
    }

    /// Moves the spinner on by one frame.
    pub fn advance_spinner(&mut self)
        requires
            old(self).spinner_tick < usize::MAX,
        ensures
            final(self)@ == (AppView { spinner_tick: (old(self).spinner_tick + 1) as usize, ..old(self)@ }),
    {
        self.spinner_tick = self.spinner_tick + 1;
    }
}

} // verus!
