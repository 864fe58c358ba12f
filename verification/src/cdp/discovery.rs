//! Where installed browsers are looked for, which one headless runs use,
//! the per-user data directory, and the environment facts that decide
//! whether Chromium's sandbox is switched off.

use vstd::prelude::*;
use crate::cdp::error::CdpError;
use crate::cdp::launch::BrowserKind;
use crate::cdp::launch::BrowserPreference;
use crate::paths::{join, join_path, PathStyle};
use crate::text::{chars_of, has_prefix, split_whitespace, split_ws, starts_with, string_of};

verus! {

/// The operating system discovery runs on.
pub enum HostOs {
    Windows,
    Linux,
    Other,
}

/// The installed Chrome executable below a Windows base directory.
pub open spec fn chrome_rel() -> Seq<char> {
    "Google\\Chrome\\Application\\chrome.exe"@
}

/// The installed Edge executable below a Windows base directory.
pub open spec fn edge_rel() -> Seq<char> {
    "Microsoft\\Edge\\Application\\msedge.exe"@
}

/// The given directories, in order, skipping the absent ones.
pub open spec fn present(a: Option<Seq<char>>, b: Option<Seq<char>>, c: Option<Seq<char>>) -> Seq<Seq<char>> {
    (match a { Some(x) => seq![x], None => Seq::empty() })
        + (match b { Some(x) => seq![x], None => Seq::empty() })
        + (match c { Some(x) => seq![x], None => Seq::empty() })
}

/// Where a browser is looked for when no registry entry names it. On
/// Windows: below `ProgramFiles`, `ProgramFiles(x86)` and `LOCALAPPDATA`
/// for Chrome, and `ProgramFiles(x86)`, `ProgramFiles`, `LOCALAPPDATA` for
/// Edge (absent ones skipped). On Linux: four fixed Chrome/Chromium paths,
/// none for Edge. Elsewhere: nowhere.
pub open spec fn spec_well_known_paths(
    kind: BrowserKind,
    os: HostOs,
    program_files: Option<Seq<char>>,
    program_files_x86: Option<Seq<char>>,
    local_app_data: Option<Seq<char>>,
) -> Seq<Seq<char>> {
    match os {
        HostOs::Windows => match kind {
            BrowserKind::Chrome => present(program_files, program_files_x86, local_app_data).map_values(
                |b: Seq<char>| join(b, chrome_rel(), PathStyle::Windows)),
            BrowserKind::Edge => present(program_files_x86, program_files, local_app_data).map_values(
                |b: Seq<char>| join(b, edge_rel(), PathStyle::Windows)),
        },
        HostOs::Linux => match kind {
            BrowserKind::Chrome => seq![
                "/usr/bin/google-chrome"@,
                "/usr/bin/google-chrome-stable"@,
                "/usr/bin/chromium"@,
                "/usr/bin/chromium-browser"@
            ],
            BrowserKind::Edge => Seq::empty(),
        },
        HostOs::Other => Seq::empty(),
    }
}

/// The character sequences of optional text.
pub open spec fn opt_view(o: Option<&str>) -> Option<Seq<char>> {
    match o {
        Some(s) => Some(s@),
        None => None,
    }
}

fn push_joined(out: &mut Vec<String>, base: Option<&str>, rel: &str)
    ensures
        final(out)@.map_values(|x: String| x@) == old(out)@.map_values(|x: String| x@) + match base {
            Some(b) => seq![join(b@, rel@, PathStyle::Windows)],
            None => Seq::<Seq<char>>::empty(),
        },
{
    match base {
        Some(b) => {
            let p = join_path(b, rel, &PathStyle::Windows);
            out.push(p);
            assert(final(out)@.map_values(|x: String| x@) =~= old(out)@.map_values(|x: String| x@) + seq![join(b@, rel@, PathStyle::Windows)]);
        },
        None => {
            assert(old(out)@.map_values(|x: String| x@) + Seq::<Seq<char>>::empty() =~= old(out)@.map_values(|x: String| x@));
        },
    }
}

/// The well-known install locations of `kind` on `os`, given the values of
/// `ProgramFiles`, `ProgramFiles(x86)` and `LOCALAPPDATA`.
pub fn well_known_paths(
    kind: BrowserKind,
    os: &HostOs,
    program_files: Option<&str>,
    program_files_x86: Option<&str>,
    local_app_data: Option<&str>,
) -> (r: Vec<String>)
    ensures
        r@.map_values(|x: String| x@) == spec_well_known_paths(
            kind, *os, opt_view(program_files), opt_view(program_files_x86), opt_view(local_app_data)),
{
    let mut paths: Vec<String> = Vec::new();
    match os {
        HostOs::Windows => {
            let (a, b, c, rel) = match kind {
                BrowserKind::Chrome => (program_files, program_files_x86, local_app_data, "Google\\Chrome\\Application\\chrome.exe"),
                BrowserKind::Edge => (program_files_x86, program_files, local_app_data, "Microsoft\\Edge\\Application\\msedge.exe"),
            };
            push_joined(&mut paths, a, rel);
            push_joined(&mut paths, b, rel);
            push_joined(&mut paths, c, rel);
            proof {
                let bases = present(opt_view(a), opt_view(b), opt_view(c));
                assert(paths@.map_values(|x: String| x@) =~= bases.map_values(|d: Seq<char>| join(d, rel@, PathStyle::Windows)));
            }
        },
        HostOs::Linux => {
            match kind {
                BrowserKind::Chrome => {
                    paths.push("/usr/bin/google-chrome".to_owned());
                    paths.push("/usr/bin/google-chrome-stable".to_owned());
                    paths.push("/usr/bin/chromium".to_owned());
                    paths.push("/usr/bin/chromium-browser".to_owned());
                },
                BrowserKind::Edge => {},
            }
            assert(paths@.map_values(|x: String| x@) =~= spec_well_known_paths(
                kind, *os, opt_view(program_files), opt_view(program_files_x86), opt_view(local_app_data)));
        },
        HostOs::Other => {
            assert(paths@.map_values(|x: String| x@) =~= Seq::<Seq<char>>::empty());
        },
    }
    paths
}

/// The index of the first `true` in `flags`, if any.
pub open spec fn first_true(flags: Seq<bool>) -> Option<int>
    decreases flags.len(),
{
    if flags.len() == 0 {
        None
    } else if flags[0] {
        Some(0)
    } else {
        match first_true(flags.skip(1)) {
            Some(i) => Some(i + 1),
            None => None,
        }
    }
}

proof fn lemma_first_true(flags: Seq<bool>)
    ensures
        match first_true(flags) {
            Some(k) => 0 <= k < flags.len() && flags[k] && forall|j: int| 0 <= j < k ==> !flags[j],
            None => forall|j: int| 0 <= j < flags.len() ==> !flags[j],
        },
    decreases flags.len(),
{
    if flags.len() > 0 && !flags[0] {
        lemma_first_true(flags.skip(1));
        assert forall|j: int| 1 <= j < flags.len() implies flags[j] == flags.skip(1)[j - 1] by {}
    }
}

/// Looks through `candidates` in order, recording each one checked in
/// `checked`, and stops at the first that is a file (`is_file[i]` says
/// whether `candidates[i]` is); `None` when none is.
pub fn find_browser(candidates: &Vec<String>, is_file: &Vec<bool>, checked: &mut Vec<String>) -> (r: Option<String>)
    requires
        is_file.len() == candidates.len(),
    ensures
        match first_true(is_file@) {
            Some(k) => r matches Some(p) && p@ == candidates@[k]@
                && final(checked)@.map_values(|x: String| x@) == old(checked)@.map_values(|x: String| x@)
                    + candidates@.take(k + 1).map_values(|x: String| x@),
            None => r is None
                && final(checked)@.map_values(|x: String| x@) == old(checked)@.map_values(|x: String| x@)
                    + candidates@.map_values(|x: String| x@),
        },
{
    let ghost start = old(checked)@.map_values(|x: String| x@);
    let mut i: usize = 0;
    while i < candidates.len()
        invariant
            is_file.len() == candidates.len(),
            i <= candidates.len(),
            forall|j: int| 0 <= j < i ==> !is_file@[j],
            start == old(checked)@.map_values(|x: String| x@),
            checked@.map_values(|x: String| x@) == start + candidates@.take(i as int).map_values(|x: String| x@),
        decreases candidates.len() - i,
    {
        let ghost before = checked@.map_values(|x: String| x@);
        checked.push(candidates[i].clone());
        assert(checked@.map_values(|x: String| x@) =~= before.push(candidates@[i as int]@));
        assert(candidates@.take(i + 1).map_values(|x: String| x@)
            =~= candidates@.take(i as int).map_values(|x: String| x@).push(candidates@[i as int]@));
        if is_file[i] {
            proof {
                lemma_first_true(is_file@);
                match first_true(is_file@) {
                    Some(k) => {
                        assert(k == i) by {
                            if k < i {
                                assert(!is_file@[k]);
                            }
                        }
                    },
                    None => {
                        assert(!is_file@[i as int]);
                    },
                }
            }
            return Some(candidates[i].clone());
        }
        i += 1;
    }
    assert(candidates@.take(candidates.len() as int) =~= candidates@);
    proof {
        lemma_first_true(is_file@);
        if let Some(k) = first_true(is_file@) {
            assert(!is_file@[k]);
        }
    }
    None
}

/// Where a headless session's browser comes from.
pub enum HeadlessSource {
    /// The `TRUEWRIGHT_CHROME_PATH` override, via discovery.
    Override,
    /// The managed headless shell (cached, else downloaded), falling back
    /// to an installed browser when it cannot be had.
    ManagedShell,
    /// An installed browser.
    Installed,
}

/// Picks where a headless session's browser comes from: an override wins;
/// otherwise `Auto` tries the managed shell first.
pub fn headless_source(chrome_path_override_set: bool, preference: BrowserPreference) -> (r: HeadlessSource)
    ensures
        chrome_path_override_set ==> r is Override,
        !chrome_path_override_set && preference is Auto ==> r is ManagedShell,
        !chrome_path_override_set && preference is Installed ==> r is Installed,
{
    if chrome_path_override_set {
        return HeadlessSource::Override;
    }
    match preference {
        BrowserPreference::Auto => HeadlessSource::ManagedShell,
        BrowserPreference::Installed => HeadlessSource::Installed,
    }
}

/// What a headless session uses once the managed shell was tried: the
/// shell when it was cached or its download succeeded, else an installed
/// browser (a shell that cannot be had never fails the launch by itself).
pub fn after_shell_attempt(cached: bool, download_ok: bool) -> (r: HeadlessSource)
    ensures
        cached || download_ok ==> r is ManagedShell,
        !cached && !download_ok ==> r is Installed,
{
    if cached || download_ok {
        HeadlessSource::ManagedShell
    } else {
        HeadlessSource::Installed
    }
}

/// The per-user data directory: `LOCALAPPDATA` on Windows; elsewhere
/// `XDG_DATA_HOME`, else `$HOME/.local/share`.
pub open spec fn spec_profile_base_dir(
    windows: bool,
    local_app_data: Option<Seq<char>>,
    xdg_data_home: Option<Seq<char>>,
    home: Option<Seq<char>>,
) -> Option<Seq<char>> {
    if windows {
        local_app_data
    } else {
        match xdg_data_home {
            Some(x) => Some(x),
            None => match home {
                Some(h) => Some(join(join(h, ".local"@, PathStyle::Unix), "share"@, PathStyle::Unix)),
                None => None,
            },
        }
    }
}

/// The per-user data directory root, or `LaunchFailed` naming the variable
/// that is missing.
pub fn profile_base_dir(
    windows: bool,
    local_app_data: Option<&str>,
    xdg_data_home: Option<&str>,
    home: Option<&str>,
) -> (r: Result<String, CdpError>)
    ensures
        match spec_profile_base_dir(windows, opt_view(local_app_data), opt_view(xdg_data_home), opt_view(home)) {
            Some(d) => r matches Ok(p) && p@ == d,
            None => r matches Err(CdpError::LaunchFailed(m)) && m@ == if windows {
                "LOCALAPPDATA is not set"@
            } else {
                "neither XDG_DATA_HOME nor HOME is set"@
            },
        },
{
    if windows {
        return match local_app_data {
            Some(d) => Ok(d.to_owned()),
            None => Err(CdpError::LaunchFailed("LOCALAPPDATA is not set".to_owned())),
        };
    }
    match xdg_data_home {
        Some(x) => Ok(x.to_owned()),
        None => match home {
            Some(h) => {
                let a = join_path(h, ".local", &PathStyle::Unix);
                Ok(join_path(a.as_str(), "share", &PathStyle::Unix))
            },
            None => Err(CdpError::LaunchFailed("neither XDG_DATA_HOME nor HOME is set".to_owned())),
        },
    }
}

/// The index of the first `c` in `s`, if any.
pub open spec fn first_char(s: Seq<char>, c: char) -> Option<int>
    decreases s.len(),
{
    if s.len() == 0 {
        None
    } else if s[0] == c {
        Some(0)
    } else {
        match first_char(s.skip(1), c) {
            Some(i) => Some(i + 1),
            None => None,
        }
    }
}

pub proof fn lemma_first_char(s: Seq<char>, c: char)
    ensures
        match first_char(s, c) {
            Some(k) => 0 <= k < s.len() && s[k] == c && forall|j: int| 0 <= j < k ==> s[j] != c,
            None => forall|j: int| 0 <= j < s.len() ==> s[j] != c,
        },
    decreases s.len(),
{
    if s.len() > 0 && s[0] != c {
        lemma_first_char(s.skip(1), c);
        assert forall|j: int| 1 <= j < s.len() implies s[j] == s.skip(1)[j - 1] by {}
    }
}

proof fn lemma_first_char_at(s: Seq<char>, c: char, k: int)
    requires
        0 <= k < s.len(),
        s[k] == c,
        forall|j: int| 0 <= j < k ==> s[j] != c,
    ensures
        first_char(s, c) == Some(k),
{
    lemma_first_char(s, c);
    match first_char(s, c) {
        Some(q) => {
            assert(q == k) by {
                if q < k {
                    assert(s[q] != c);
                } else if q > k {
                    assert(s[k] != c);
                }
            }
        },
        None => {
            assert(s[k] != c);
        },
    }
}

/// The lines of `s` as `str::lines` splits them on `\n` (a final `\n`
/// ends the last line rather than starting an empty one).
pub open spec fn lines_of(s: Seq<char>) -> Seq<Seq<char>>
    decreases s.len(),
{
    match first_char(s, '\n') {
        Some(p) => {
            proof {
                lemma_first_char(s, '\n');
            }
            seq![s.take(p)] + lines_of(s.skip(p + 1))
        },
        None => if s.len() == 0 { Seq::empty() } else { seq![s] },
    }
}

/// Whether a token is how `u32` parsing writes zero: an optional `+`, then
/// one or more `0` digits.
pub open spec fn zero_token(t: Seq<char>) -> bool {
    let digits = unsigned_digits(t);
    digits.len() > 0 && forall|i: int| 0 <= i < digits.len() ==> digits[i] == '0'
}

/// A token without its leading `+`, if it has one.
pub open spec fn unsigned_digits(t: Seq<char>) -> Seq<char> {
    if t.len() > 0 && t[0] == '+' { t.skip(1) } else { t }
}

/// What a line of `/proc/self/status` says about running as root: for the
/// `Uid:` line, whether its first field (the real uid) is zero; for any
/// other line, nothing.
pub open spec fn uid_line_verdict(line: Seq<char>) -> Option<bool> {
    if has_prefix(line, "Uid:"@) {
        let fields = split_ws(line.skip(4));
        Some(fields.len() > 0 && zero_token(fields[0]))
    } else {
        None
    }
}

/// The verdict of the first line that gives one, or `false`.
pub open spec fn first_verdict(lines: Seq<Seq<char>>) -> bool
    decreases lines.len(),
{
    if lines.len() == 0 {
        false
    } else {
        match uid_line_verdict(lines[0]) {
            Some(b) => b,
            None => first_verdict(lines.skip(1)),
        }
    }
}

fn zero_token_exec(t: &str) -> (r: bool)
    ensures
        r == zero_token(t@),
{
    let v = chars_of(t);
    let start: usize = if v.len() > 0 && v[0] == '+' { 1 } else { 0 };
    if start >= v.len() {
        proof {
            let digits = unsigned_digits(v@);
            assert(digits.len() == 0);
        }
        return false;
    }
    let mut i = start;
    while i < v.len()
        invariant
            start <= i <= v.len(),
            start == (if v@.len() > 0 && v@[0] == '+' { 1usize } else { 0usize }),
            v@ == t@,
            forall|j: int| start <= j < i ==> v@[j] == '0',
        decreases v.len() - i,
    {
        if v[i] != '0' {
            proof {
                let digits = unsigned_digits(v@);
                assert(digits[i - start] != '0');
            }
            return false;
        }
        i += 1;
    }
    proof {
        let digits = unsigned_digits(v@);
        assert forall|j: int| 0 <= j < digits.len() implies digits[j] == '0' by {
            assert(digits[j] == v@[j + start]);
        }
    }
    true
}

fn line_verdict(line: &Vec<char>) -> (r: Option<bool>)
    ensures
        r == uid_line_verdict(line@),
{
    let prefix = chars_of("Uid:");
    if !starts_with(line, &prefix) {
        return None;
    }
    proof {
        reveal_strlit("Uid:");
    }
    let rest = string_of(line, 4, line.len());
    let fields = split_whitespace(rest.as_str());
    assert(rest@ =~= line@.skip(4));
    if fields.len() == 0 {
        return Some(false);
    }
    let z = zero_token_exec(fields[0].as_str());
    assert(fields@.map_values(|x: String| x@)[0] == fields@[0]@);
    Some(z)
}

/// Whether `/proc/self/status` (its text) says the process runs as root:
/// its `Uid:` line's real uid parses as zero. No such line reads as not
/// root.
pub fn running_as_root(status: &str) -> (r: bool)
    ensures
        r == first_verdict(lines_of(status@)),
{
    let v = chars_of(status);
    let mut i: usize = 0;
    assert(v@.skip(0) =~= v@);
    while i < v.len()
        invariant
            i <= v@.len(),
            v@ == status@,
            first_verdict(lines_of(v@)) == first_verdict(lines_of(v@.skip(i as int))),
        decreases v.len() - i,
    {
        let ghost rest = v@.skip(i as int);
        let mut j = i;
        while j < v.len() && v[j] != '\n'
            invariant
                i <= j <= v@.len(),
                forall|k: int| i <= k < j ==> v@[k] != '\n',
            decreases v.len() - j,
        {
            j += 1;
        }
        let line = string_of(&v, i, j);
        let lv = chars_of(line.as_str());
        let verdict = line_verdict(&lv);
        proof {
            lemma_first_char(rest, '\n');
            if j < v.len() {
                lemma_first_char_at(rest, '\n', j - i);
                assert(rest.take(j - i) =~= v@.subrange(i as int, j as int));
                assert(rest.skip(j - i + 1) =~= v@.skip(j + 1));
                assert(lines_of(rest) == seq![rest.take(j - i)] + lines_of(rest.skip(j - i + 1)));
            } else {
                assert forall|k: int| 0 <= k < rest.len() implies rest[k] != '\n' by {
                    assert(rest[k] == v@[k + i]);
                }
                assert(first_char(rest, '\n') is None);
                assert(rest =~= v@.subrange(i as int, j as int));
                assert(lines_of(rest) == seq![rest]);
                assert(v@.skip(j as int) =~= Seq::<char>::empty());
                assert(lines_of(v@.skip(j as int)) =~= Seq::<Seq<char>>::empty());
            }
            let ls = lines_of(rest);
            assert(ls.len() > 0);
            assert(ls[0] == v@.subrange(i as int, j as int));
            assert(first_verdict(ls) == match uid_line_verdict(ls[0]) {
                Some(b) => b,
                None => first_verdict(ls.skip(1)),
            });
            if j < v.len() {
                assert(ls.skip(1) =~= lines_of(v@.skip(j + 1)));
            } else {
                assert(ls.skip(1) =~= Seq::<Seq<char>>::empty());
            }
            assert(lv@ == ls[0]);
            assert(verdict == uid_line_verdict(ls[0]));
            assert(first_verdict(lines_of(v@)) == first_verdict(ls));
        }
        if let Some(b) = verdict {
            return b;
        }
        if j >= v.len() {
            proof {
                assert(first_verdict(Seq::<Seq<char>>::empty()) == false);
            }
            return false;
        }
        i = j + 1;
    }
    proof {
        assert(v@.skip(i as int) =~= Seq::<char>::empty());
        assert(lines_of(Seq::<char>::empty()) =~= Seq::<Seq<char>>::empty());
    }
    false
}

/// Whether this looks like a container or CI run: the `container` or `CI`
/// variable is set, or the Docker or Podman marker file exists.
pub fn in_container_or_ci(container_var_set: bool, ci_var_set: bool, dockerenv_exists: bool, containerenv_exists: bool) -> (r: bool)
    ensures
        r == (container_var_set || ci_var_set || dockerenv_exists || containerenv_exists),
{
    container_var_set || ci_var_set || dockerenv_exists || containerenv_exists
}

/// Extra Chrome flags from `TRUEWRIGHT_CHROME_ARGS`: its whitespace-
/// separated tokens, none when it is unset.
pub fn chrome_args_from_env(raw: Option<&str>) -> (r: Vec<String>)
    ensures
        r@.map_values(|x: String| x@) == match raw {
            Some(s) => split_ws(s@),
            None => Seq::<Seq<char>>::empty(),
        },
{
    match raw {
        Some(s) => split_whitespace(s),
        None => {
            let r: Vec<String> = Vec::new();
            assert(r@.map_values(|x: String| x@) =~= Seq::<Seq<char>>::empty());
            r
        },
    }
}

} // verus!
