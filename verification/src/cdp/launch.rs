//! Browser discovery results and the launch command line.

use vstd::prelude::*;
use crate::cdp::error::CdpError;
use crate::paths::{join, join_path, PathStyle};
use crate::text::{
    all_ws, chars_of, eq_ascii_ci, eq_ignore_ascii_case, find, find_first, join_seqs, join_strings,
    occurs_at, split_whitespace, split_ws, str_eq, string_of, trim, trim_chars,
};

verus! {

/// The Chromium browsers discovery looks for.
#[derive(Debug, Clone, Copy, PartialEq, Eq, Structural)]
pub enum BrowserKind {
    Chrome,
    Edge,
}

/// The executable's file name on Windows.
pub open spec fn spec_exe_name(k: BrowserKind) -> Seq<char> {
    match k {
        BrowserKind::Chrome => "chrome.exe"@,
        BrowserKind::Edge => "msedge.exe"@,
    }
}

/// The browser's display name.
pub open spec fn spec_label(k: BrowserKind) -> Seq<char> {
    match k {
        BrowserKind::Chrome => "Chrome"@,
        BrowserKind::Edge => "Edge"@,
    }
}

impl BrowserKind {
    /// The executable's file name on Windows.
    pub fn exe_name(self) -> (r: &'static str)
        ensures
            r@ == spec_exe_name(self),
    {
        match self {
            BrowserKind::Chrome => "chrome.exe",
            BrowserKind::Edge => "msedge.exe",
        }
    }

    /// The browser's display name.
    pub fn label(self) -> (r: &'static str)
        ensures
            r@ == spec_label(self),
    {
        match self {
            BrowserKind::Chrome => "Chrome",
            BrowserKind::Edge => "Edge",
        }
    }
}

/// A browser found on this machine (or the managed headless shell).
#[derive(Debug, Clone)]
pub struct DiscoveredBrowser {
    pub kind: BrowserKind,
    pub path: String,
    /// The managed `chrome-headless-shell`, which is headless-only.
    pub is_headless_shell: bool,
}

/// Which binary headless sessions should use.
pub enum BrowserPreference {
    /// The managed headless shell when it can be had, else the installed
    /// browser.
    Auto,
    /// Always the installed browser.
    Installed,
}

impl Default for BrowserPreference {
    fn default() -> (r: Self)
        ensures
            r is Auto,
    {
        BrowserPreference::Auto
    }
}

/// The result of honouring a `TRUEWRIGHT_CHROME_PATH` override: that path
/// as the only (full Chrome) browser when it names a file, else the error
/// naming the override.
pub fn override_discovery(path: &str, is_file: bool) -> (r: Result<Vec<DiscoveredBrowser>, CdpError>)
    ensures
        is_file ==> (r matches Ok(found) && found.len() == 1 && found@[0].kind is Chrome
            && found@[0].path@ == path@ && !found@[0].is_headless_shell),
        !is_file ==> (r matches Err(CdpError::NoBrowserFound { checked })
            && checked@ == "TRUEWRIGHT_CHROME_PATH="@ + path@),
{
    if is_file {
        let mut v: Vec<DiscoveredBrowser> = Vec::new();
        v.push(DiscoveredBrowser { kind: BrowserKind::Chrome, path: path.to_owned(), is_headless_shell: false });
        Ok(v)
    } else {
        let mut checked = "TRUEWRIGHT_CHROME_PATH=".to_owned();
        checked.append(path);
        Err(CdpError::NoBrowserFound { checked })
    }
}

/// The discovery result: the browsers found, or, when none was, the error
/// listing every location checked, comma-separated.
pub fn discovery_result(found: Vec<DiscoveredBrowser>, checked: &Vec<String>) -> (r: Result<Vec<DiscoveredBrowser>, CdpError>)
    ensures
        found.len() > 0 ==> r == Ok::<Vec<DiscoveredBrowser>, CdpError>(found),
        found.len() == 0 ==> (r matches Err(CdpError::NoBrowserFound { checked: c })
            && c@ == join_seqs(checked@.map_values(|x: String| x@), ", "@)),
{
    if found.len() == 0 {
        Err(CdpError::NoBrowserFound { checked: join_strings(checked, ", ") })
    } else {
        Ok(found)
    }
}

/// Whether launch adds `--no-sandbox` by itself: when running as root or
/// inside a container or CI.
pub fn sandbox_should_be_disabled(running_as_root: bool, in_container_or_ci: bool) -> (r: bool)
    ensures
        r == (running_as_root || in_container_or_ci),
{
    running_as_root || in_container_or_ci
}

/// Whether a launch talks CDP over `--remote-debugging-pipe`: on Unix,
/// unless `TRUEWRIGHT_CDP_TRANSPORT` is `websocket` or `ws` (any case).
pub fn use_cdp_pipe(is_unix: bool, transport: Option<&str>) -> (r: bool)
    ensures
        r == (is_unix && !(transport matches Some(t) && (eq_ascii_ci(t@, "websocket"@) || eq_ascii_ci(t@, "ws"@)))),
{
    if !is_unix {
        return false;
    }
    match transport {
        Some(t) => !(eq_ignore_ascii_case(t, "websocket") || eq_ignore_ascii_case(t, "ws")),
        None => true,
    }
}

/// Splits a raw `TRUEWRIGHT_CHROME_ARGS` value into flags on whitespace.
pub fn split_chrome_args(raw: &str) -> (r: Vec<String>)
    ensures
        r@.map_values(|x: String| x@) == split_ws(raw@),
{
    split_whitespace(raw)
}

/// The isolated profile directory for `profile_name` under the per-user
/// data directory `base`: `<base>/truewright/profiles/<profile_name>`.
pub open spec fn spec_user_data_dir(base: Seq<char>, profile_name: Seq<char>, style: PathStyle) -> Seq<char> {
    join(join(join(base, "truewright"@, style), "profiles"@, style), profile_name, style)
}

/// The isolated profile directory a launch uses.
pub fn user_data_dir(base: &str, profile_name: &str, style: &PathStyle) -> (r: String)
    ensures
        r@ == spec_user_data_dir(base@, profile_name@, *style),
{
    let a = join_path(base, "truewright", style);
    let b = join_path(a.as_str(), "profiles", style);
    join_path(b.as_str(), profile_name, style)
}

/// Chrome's automation-oriented flags for headless runs.
pub open spec fn automation_flags() -> Seq<Seq<char>> {
    seq![
        "--allow-pre-commit-input"@,
        "--disable-back-forward-cache"@,
        "--disable-breakpad"@,
        "--disable-client-side-phishing-detection"@,
        "--disable-component-extensions-with-background-pages"@,
        "--disable-component-update"@,
        "--disable-default-apps"@,
        "--disable-field-trial-config"@,
        "--disable-hang-monitor"@,
        "--disable-infobars"@,
        "--disable-ipc-flooding-protection"@,
        "--disable-popup-blocking"@,
        "--disable-prompt-on-repost"@,
        "--disable-search-engine-choice-screen"@,
        "--disable-sync"@,
        "--force-color-profile=srgb"@,
        "--hide-scrollbars"@,
        "--metrics-recording-only"@,
        "--no-service-autorun"@,
        "--no-startup-window"@,
        "--password-store=basic"@,
        "--use-mock-keychain"@,
        "--disable-features=AvoidUnnecessaryBeforeUnloadCheckSync,DestroyProfileOnBrowserClose,DialMediaRouteProvider,GlobalMediaControls,HttpsUpgrades,MediaRouter,PaintHolding,Translate,OptimizationHints,ThirdPartyStoragePartitioning"@
    ]
}

fn push_automation_flags(v: &mut Vec<String>)
    ensures
        final(v)@.map_values(|x: String| x@) == old(v)@.map_values(|x: String| x@) + automation_flags(),
{
    v.push("--allow-pre-commit-input".to_owned());
    v.push("--disable-back-forward-cache".to_owned());
    v.push("--disable-breakpad".to_owned());
    v.push("--disable-client-side-phishing-detection".to_owned());
    v.push("--disable-component-extensions-with-background-pages".to_owned());
    v.push("--disable-component-update".to_owned());
    v.push("--disable-default-apps".to_owned());
    v.push("--disable-field-trial-config".to_owned());
    v.push("--disable-hang-monitor".to_owned());
    v.push("--disable-infobars".to_owned());
    v.push("--disable-ipc-flooding-protection".to_owned());
    v.push("--disable-popup-blocking".to_owned());
    v.push("--disable-prompt-on-repost".to_owned());
    v.push("--disable-search-engine-choice-screen".to_owned());
    v.push("--disable-sync".to_owned());
    v.push("--force-color-profile=srgb".to_owned());
    v.push("--hide-scrollbars".to_owned());
    v.push("--metrics-recording-only".to_owned());
    v.push("--no-service-autorun".to_owned());
    v.push("--no-startup-window".to_owned());
    v.push("--password-store=basic".to_owned());
    v.push("--use-mock-keychain".to_owned());
    v.push("--disable-features=AvoidUnnecessaryBeforeUnloadCheckSync,DestroyProfileOnBrowserClose,DialMediaRouteProvider,GlobalMediaControls,HttpsUpgrades,MediaRouter,PaintHolding,Translate,OptimizationHints,ThirdPartyStoragePartitioning".to_owned());
    assert(final(v)@.map_values(|x: String| x@) =~= old(v)@.map_values(|x: String| x@) + automation_flags());
}

/// The flags every launch starts with, after `--user-data-dir`.
pub open spec fn base_flags() -> Seq<Seq<char>> {
    seq![
        "--no-first-run"@,
        "--no-default-browser-check"@,
        "--disable-background-networking"@,
        "--disable-backgrounding-occluded-windows"@,
        "--disable-renderer-backgrounding"@,
        "--disable-background-timer-throttling"@
    ]
}

/// The reduced-footprint flags of a headless launch.
pub open spec fn headless_flags() -> Seq<Seq<char>> {
    seq![
        "--disable-dev-shm-usage"@,
        "--disable-software-rasterizer"@,
        "--disable-extensions"@,
        "--mute-audio"@,
        "--disable-gpu"@
    ]
}

/// The flags that pick the CDP transport.
pub open spec fn transport_flags(use_pipe: bool) -> Seq<Seq<char>> {
    if use_pipe {
        seq!["--remote-debugging-pipe"@]
    } else {
        seq!["--remote-debugging-port=0"@, "--remote-allow-origins=*"@]
    }
}

/// Whether `flags` holds `flag`.
pub open spec fn has_flag(flags: Seq<Seq<char>>, flag: Seq<char>) -> bool {
    exists|i: int| 0 <= i < flags.len() && flags[i] == flag
}

/// The browser's command line: the profile directory, the base flags, the
/// transport flags; when headless the reduced-footprint and automation
/// flags and (for a full browser) `--headless`; `--no-sandbox` when it is
/// to be added automatically and was not requested; then every requested
/// flag in order, last, so that a request wins over a default.
pub open spec fn spec_launch_args(
    user_data_dir: Seq<char>,
    use_pipe: bool,
    headless: bool,
    is_headless_shell: bool,
    auto_no_sandbox: bool,
    requested: Seq<Seq<char>>,
) -> Seq<Seq<char>> {
    seq!["--user-data-dir="@ + user_data_dir] + base_flags() + transport_flags(use_pipe)
        + (if headless {
            headless_flags() + automation_flags() + (if !is_headless_shell { seq!["--headless"@] } else { Seq::empty() })
        } else {
            Seq::empty()
        })
        + (if auto_no_sandbox && !has_flag(requested, "--no-sandbox"@) { seq!["--no-sandbox"@] } else { Seq::empty() })
        + requested
}

fn push_flag(v: &mut Vec<String>, f: &str)
    ensures
        final(v)@.map_values(|x: String| x@) == old(v)@.map_values(|x: String| x@).push(f@),
{
    v.push(f.to_owned());
    assert(final(v)@.map_values(|x: String| x@) =~= old(v)@.map_values(|x: String| x@).push(f@));
}

fn requested_has_no_sandbox(requested: &Vec<String>) -> (r: bool)
    ensures
        r == has_flag(requested@.map_values(|x: String| x@), "--no-sandbox"@),
{
    let ghost views = requested@.map_values(|x: String| x@);
    let mut i: usize = 0;
    while i < requested.len()
        invariant
            i <= requested.len(),
            views == requested@.map_values(|x: String| x@),
            forall|j: int| 0 <= j < i ==> views[j] != "--no-sandbox"@,
        decreases requested.len() - i,
    {
        if str_eq(requested[i].as_str(), "--no-sandbox") {
            assert(views[i as int] == "--no-sandbox"@);
            return true;
        }
        i += 1;
    }
    false
}

/// Builds the browser's command line (everything after the executable).
pub fn launch_args(
    user_data_dir: &str,
    use_pipe: bool,
    headless: bool,
    is_headless_shell: bool,
    auto_no_sandbox: bool,
    requested: &Vec<String>,
) -> (r: Vec<String>)
    ensures
        r@.map_values(|x: String| x@) == spec_launch_args(
            user_data_dir@, use_pipe, headless, is_headless_shell, auto_no_sandbox,
            requested@.map_values(|x: String| x@),
        ),
{
    let mut args: Vec<String> = Vec::new();
    let mut first = "--user-data-dir=".to_owned();
    first.append(user_data_dir);
    args.push(first);
    args.push("--no-first-run".to_owned());
    args.push("--no-default-browser-check".to_owned());
    args.push("--disable-background-networking".to_owned());
    args.push("--disable-backgrounding-occluded-windows".to_owned());
    args.push("--disable-renderer-backgrounding".to_owned());
    args.push("--disable-background-timer-throttling".to_owned());
    assert(args@.map_values(|x: String| x@) =~= seq!["--user-data-dir="@ + user_data_dir@] + base_flags());
    let ghost a1 = args@.map_values(|x: String| x@);
    if use_pipe {
        push_flag(&mut args, "--remote-debugging-pipe");
    } else {
        push_flag(&mut args, "--remote-debugging-port=0");
        push_flag(&mut args, "--remote-allow-origins=*");
    }
    assert(args@.map_values(|x: String| x@) =~= a1 + transport_flags(use_pipe));
    let ghost a2 = args@.map_values(|x: String| x@);
    if headless {
        args.push("--disable-dev-shm-usage".to_owned());
        args.push("--disable-software-rasterizer".to_owned());
        args.push("--disable-extensions".to_owned());
        args.push("--mute-audio".to_owned());
        args.push("--disable-gpu".to_owned());
        assert(args@.map_values(|x: String| x@) =~= a2 + headless_flags());
        push_automation_flags(&mut args);
        if !is_headless_shell {
            push_flag(&mut args, "--headless");
        }
    }
    assert(args@.map_values(|x: String| x@) =~= a2 + (if headless {
        headless_flags() + automation_flags() + (if !is_headless_shell { seq!["--headless"@] } else { Seq::<Seq<char>>::empty() })
    } else {
        Seq::<Seq<char>>::empty()
    }));
    let ghost a3 = args@.map_values(|x: String| x@);
    let asked = requested_has_no_sandbox(requested);
    if auto_no_sandbox && !asked {
        push_flag(&mut args, "--no-sandbox");
    }
    let ghost a4 = args@.map_values(|x: String| x@);
    assert(a4 =~= a3 + (if auto_no_sandbox && !has_flag(requested@.map_values(|x: String| x@), "--no-sandbox"@) {
        seq!["--no-sandbox"@]
    } else {
        Seq::<Seq<char>>::empty()
    }));
    let mut i: usize = 0;
    while i < requested.len()
        invariant
            i <= requested.len(),
            args@.map_values(|x: String| x@) == a4 + requested@.map_values(|x: String| x@).take(i as int),
        decreases requested.len() - i,
    {
        let ghost before = args@.map_values(|x: String| x@);
        let f = requested[i].clone();
        assert(f@ == requested@[i as int]@);
        args.push(f);
        assert(args@.map_values(|x: String| x@) =~= before.push(requested@[i as int]@));
        assert(requested@.map_values(|x: String| x@).take(i + 1) =~= requested@.map_values(|x: String| x@).take(i as int).push(requested@[i as int]@));
        assert(args@.map_values(|x: String| x@) =~= a4 + requested@.map_values(|x: String| x@).take(i + 1));
        i += 1;
    }
    assert(requested@.map_values(|x: String| x@).take(requested.len() as int) =~= requested@.map_values(|x: String| x@));
    args
}

/// The caller's flags end the command line, in the order given, so under
/// Chrome's last-flag-wins rule any of them overrides a default.
pub proof fn requested_flags_come_last(
    user_data_dir: Seq<char>,
    use_pipe: bool,
    headless: bool,
    is_headless_shell: bool,
    auto_no_sandbox: bool,
    requested: Seq<Seq<char>>,
)
    ensures
        ({
            let args = spec_launch_args(user_data_dir, use_pipe, headless, is_headless_shell, auto_no_sandbox, requested);
            args.len() >= requested.len() && args.skip(args.len() - requested.len()) == requested
        }),
{
    let args = spec_launch_args(user_data_dir, use_pipe, headless, is_headless_shell, auto_no_sandbox, requested);
    let prefix = args.take(args.len() - requested.len());
    assert(args.skip(args.len() - requested.len()) =~= requested);
}

/// Every launch names a CDP transport the engine can drive: over the pipe
/// the command line holds `--remote-debugging-pipe`; otherwise it holds
/// `--remote-debugging-port=0` followed by `--remote-allow-origins=*`, so
/// the browser opens a DevTools endpoint that accepts the engine. Both
/// come before every requested flag.
pub proof fn every_launch_names_a_transport(
    user_data_dir: Seq<char>,
    use_pipe: bool,
    headless: bool,
    is_headless_shell: bool,
    auto_no_sandbox: bool,
    requested: Seq<Seq<char>>,
)
    ensures
        ({
            let args = spec_launch_args(user_data_dir, use_pipe, headless, is_headless_shell, auto_no_sandbox, requested);
            &&& use_pipe ==> has_flag(args.take(args.len() - requested.len()), "--remote-debugging-pipe"@)
            &&& !use_pipe ==> exists|i: int| 0 <= i && i + 1 < args.len() - requested.len()
                && #[trigger] args[i] == "--remote-debugging-port=0"@ && args[i + 1] == "--remote-allow-origins=*"@
        }),
{
    let args = spec_launch_args(user_data_dir, use_pipe, headless, is_headless_shell, auto_no_sandbox, requested);
    let k: int = 1 + base_flags().len() as int;
    let prefix = seq!["--user-data-dir="@ + user_data_dir] + base_flags() + transport_flags(use_pipe);
    assert(args.take(prefix.len() as int) =~= prefix);
    assert(args.len() >= prefix.len() + requested.len());
    if use_pipe {
        assert(args[k] == "--remote-debugging-pipe"@);
        assert(args.take(args.len() - requested.len())[k] == args[k]);
    } else {
        assert(args[k] == "--remote-debugging-port=0"@);
        assert(args[k + 1] == "--remote-allow-origins=*"@);
    }
}

/// The DevTools WebSocket URL in a `DevToolsActivePort` file's text: the
/// port on the first line and the path on the second, each trimmed, both
/// non-empty.
pub open spec fn spec_devtools_url(contents: Seq<char>) -> Option<Seq<char>> {
    if contents.len() == 0 {
        None
    } else {
        match find_first(contents, seq!['\n']) {
            None => None,
            Some(k) => {
                let port_line = contents.take(k);
                let rest = contents.skip(k + 1);
                if rest.len() == 0 {
                    None
                } else {
                    let path_line = match find_first(rest, seq!['\n']) {
                        Some(m) => rest.take(m),
                        None => rest,
                    };
                    let port = trim(port_line);
                    let path = trim(path_line);
                    if port.len() > 0 && path.len() > 0 {
                        Some("ws://127.0.0.1:"@ + port + path)
                    } else {
                        None
                    }
                }
            },
        }
    }
}

/// Reads the DevTools WebSocket URL out of a `DevToolsActivePort` file.
pub fn devtools_url(contents: &str) -> (r: Option<String>)
    ensures
        match (r, spec_devtools_url(contents@)) {
            (Some(u), Some(v)) => u@ == v,
            (None, None) => true,
            _ => false,
        },
{
    let v = chars_of(contents);
    if v.len() == 0 {
        return None;
    }
    let mut nl: Vec<char> = Vec::new();
    nl.push('\n');
    assert(nl@ =~= seq!['\n']);
    match find(&v, &nl) {
        None => None,
        Some(k) => {
            assert(occurs_at(v@, nl@, k as int));
            let n = v.len();
            assert(k + 1 <= n);
            if k + 1 == v.len() {
                assert(v@.skip(k + 1).len() == 0);
                return None;
            }
            let port_s = string_of(&v, 0, k);
            assert(v@.subrange(0, k as int) =~= v@.take(k as int));
            let rest_s = string_of(&v, k + 1, v.len());
            let rest = chars_of(rest_s.as_str());
            assert(rest@ =~= v@.skip(k + 1));
            let path_s = match find(&rest, &nl) {
                Some(m) => {
                    assert(occurs_at(rest@, nl@, m as int));
                    let s = string_of(&rest, 0, m);
                    assert(rest@.subrange(0, m as int) =~= rest@.take(m as int));
                    s
                },
                None => {
                    let s = string_of(&rest, 0, rest.len());
                    assert(rest@.subrange(0, rest@.len() as int) =~= rest@);
                    s
                },
            };
            let pv = chars_of(port_s.as_str());
            let port = trim_chars(&pv);
            let qv = chars_of(path_s.as_str());
            let path = trim_chars(&qv);
            if port.len() > 0 && path.len() > 0 {
                let mut url = "ws://127.0.0.1:".to_owned();
                let ps = string_of(&port, 0, port.len());
                let qs = string_of(&path, 0, path.len());
                assert(port@.subrange(0, port@.len() as int) =~= port@);
                assert(path@.subrange(0, path@.len() as int) =~= path@);
                url.append(ps.as_str());
                url.append(qs.as_str());
                Some(url)
            } else {
                None
            }
        },
    }
}

} // verus!
