# atpspy

The verified core of ATPspy, a terminal dashboard that shows which `apt`
packages can be upgraded, how risky each upgrade is, and upgrades the ones
the user selects.

- `src/` is the library, checked by Verus:
  - `text.rs`: whitespace, words, lines, prefixes and substrings of text;
  - `package.rs`: `Package` and `RiskLevel`;
  - `risk.rs`: the risk classification by name and repository;
  - `parse.rs`: reading `apt list --upgradable` output into packages;
  - `app.rs`: the application's state machine (keys, `apt` output lines);
  - `display.rs`: what the screens show (counts, rows, password mask,
    spinner, log tails, centred boxes).
- `app/` is the terminal program: it draws with ratatui, reads keys with
  crossterm, runs `sudo apt` in threads and hands everything it reads to the
  library.
- `tests/` runs the library on concrete inputs.
