use aib::cdp::connection::{outgoing_message, route_incoming, CommandTable, IncomingMessage, ProtocolError, Route};
use aib::cdp::discovery::{
    after_shell_attempt, chrome_args_from_env, find_browser, headless_source, in_container_or_ci, profile_base_dir, running_as_root,
    well_known_paths, HeadlessSource, HostOs,
};
use aib::cdp::download::{
    browsers_dir, cached_shell_path, extracted_shell, select_download, shell_path_for, DownloadEntry, Platform,
};
use aib::cdp::error::CdpError;
use aib::cdp::launch::{
    devtools_url, launch_args, sandbox_should_be_disabled, split_chrome_args, use_cdp_pipe, user_data_dir,
    BrowserKind, BrowserPreference,
};
use aib::cdp::os_input::{char_inputs, closest_window, press_key, WindowHint, WindowRect};
use aib::cdp::protocol::runtime::EvaluateParams;
use aib::cdp::protocol::{CdpEvent, Command};
use aib::cdp::transport::{frame_message, FrameBuffer};
use aib::paths::PathStyle;
use aib::cdp::ops::{ attach_params, char_event, create_target_params, evaluate_outcome, fail_params, fulfill_params, is_load_milestone, key_events, navigation_timeout, screenshot_bytes, };
use aib::cdp::protocol::runtime::{EvaluateResponse, RemoteObject, RemoteValue};
use aib::cdp::session::is_subscribed_event;

#[test]
fn shell_path_is_platform_shaped() {
    let s = shell_path_for("/base/140.0.0.0", &Platform::Linux64);
    assert!(s.contains("chrome-headless-shell-"));
    assert!(s.ends_with(Platform::Linux64.exe()));
    assert_eq!(s, "/base/140.0.0.0/chrome-headless-shell-linux64/chrome-headless-shell");
    let w = shell_path_for(r"C:\b\140", &Platform::Win64);
    assert_eq!(w, r"C:\b\140\chrome-headless-shell-win64\chrome-headless-shell.exe");
}

#[test]
fn cached_shell_reads_the_trimmed_marker() {
    assert_eq!(
        cached_shell_path("/d/aib/browsers", " 140.0.1\n", &Platform::Linux64),
        "/d/aib/browsers/140.0.1/chrome-headless-shell-linux64/chrome-headless-shell"
    );
    assert_eq!(browsers_dir("/d", &Platform::Linux64), "/d/aib/browsers");
}

#[test]
fn download_is_chosen_by_platform() {
    let entries = vec![
        DownloadEntry { platform: "linux64".into(), url: "https://x/l.zip".into() },
        DownloadEntry { platform: "win64".into(), url: "https://x/w.zip".into() },
    ];
    assert_eq!(select_download(&entries, &Platform::Win64).ok(), Some("https://x/w.zip".to_string()));
    assert!(matches!(select_download(&entries, &Platform::Unsupported),
        Err(CdpError::Other(m)) if m == "no chrome-headless-shell download for unsupported"));
    assert!(extracted_shell("/p".into(), true).is_ok());
    assert!(matches!(extracted_shell("/p".into(), false), Err(CdpError::Other(m)) if m == "shell archive extracted but /p is missing"));
}

#[test]
fn split_chrome_args_tokenizes_on_whitespace() {
    assert_eq!(
        split_chrome_args("--no-sandbox --window-size=1440,900 --kiosk"),
        vec!["--no-sandbox".to_string(), "--window-size=1440,900".to_string(), "--kiosk".to_string()]
    );
    assert_eq!(split_chrome_args("  --a    --b  "), vec!["--a".to_string(), "--b".to_string()]);
    assert!(split_chrome_args("").is_empty());
    assert!(split_chrome_args("   ").is_empty());
    assert!(chrome_args_from_env(None).is_empty());
    assert_eq!(chrome_args_from_env(Some("--x")), vec!["--x".to_string()]);
}

#[test]
fn well_known_paths_are_kind_specific() {
    for os in [HostOs::Windows, HostOs::Linux] {
        let chrome = well_known_paths(BrowserKind::Chrome, &os, Some(r"C:\PF"), Some(r"C:\PF86"), Some(r"C:\L"));
        let edge = well_known_paths(BrowserKind::Edge, &os, Some(r"C:\PF"), Some(r"C:\PF86"), Some(r"C:\L"));
        assert!(!chrome.is_empty());
        assert!(chrome.iter().all(|p| p.to_lowercase().contains("chrom")));
        assert!(edge.iter().all(|p| p.contains("Edge")));
    }
    let edge = well_known_paths(BrowserKind::Edge, &HostOs::Windows, Some(r"C:\PF"), None, Some(r"C:\L"));
    assert_eq!(edge, vec![r"C:\PF\Microsoft\Edge\Application\msedge.exe".to_string(), r"C:\L\Microsoft\Edge\Application\msedge.exe".to_string()]);
}

#[test]
fn profile_base_dir_resolves_to_an_absolute_path() {
    let base = profile_base_dir(false, None, None, Some("/home/u")).ok().expect("resolves");
    assert!(base.starts_with('/'));
    assert_eq!(base, "/home/u/.local/share");
    assert_eq!(profile_base_dir(false, None, Some("/x"), Some("/home/u")).ok(), Some("/x".to_string()));
    assert!(matches!(profile_base_dir(true, None, None, Some("/h")), Err(CdpError::LaunchFailed(m)) if m == "LOCALAPPDATA is not set"));
    assert!(matches!(profile_base_dir(false, None, None, None), Err(CdpError::LaunchFailed(m)) if m == "neither XDG_DATA_HOME nor HOME is set"));
}

#[test]
fn find_browser_stops_at_the_first_file_and_records_what_it_checked() {
    let candidates = vec!["/a".to_string(), "/b".to_string(), "/c".to_string()];
    let mut checked = vec!["registry".to_string()];
    let found = find_browser(&candidates, &vec![false, true, true], &mut checked);
    assert_eq!(found, Some("/b".to_string()));
    assert_eq!(checked, vec!["registry".to_string(), "/a".to_string(), "/b".to_string()]);
    let mut none = Vec::new();
    assert!(find_browser(&candidates, &vec![false, false, false], &mut none).is_none());
    assert_eq!(none.len(), 3);
}

#[test]
fn root_is_read_from_the_uid_line() {
    assert!(running_as_root("Name:\tx\nUid:\t0\t0\t0\t0\nGid:\t0\n"));
    assert!(!running_as_root("Name:\tx\nUid:\t1000\t1000\t1000\t1000\n"));
    assert!(!running_as_root("Name:\tx\n"));
    assert!(running_as_root("Uid:\t+00 5"));
    assert!(!running_as_root("Uid:\n"));
    assert!(in_container_or_ci(false, true, false, false));
    assert!(!in_container_or_ci(false, false, false, false));
    assert!(sandbox_should_be_disabled(false, true));
}

#[test]
fn headless_browser_source_follows_the_override_then_preference() {
    assert!(matches!(headless_source(true, BrowserPreference::Auto), HeadlessSource::Override));
    assert!(matches!(headless_source(false, BrowserPreference::Auto), HeadlessSource::ManagedShell));
    assert!(matches!(headless_source(false, BrowserPreference::Installed), HeadlessSource::Installed));
    assert!(matches!(BrowserPreference::default(), BrowserPreference::Auto));
}

#[test]
fn transport_choice_and_launch_flags() {
    assert!(use_cdp_pipe(true, None));
    assert!(!use_cdp_pipe(true, Some("WebSocket")));
    assert!(!use_cdp_pipe(false, None));
    let dir = user_data_dir("/d", "default", &PathStyle::Unix);
    assert_eq!(dir, "/d/truewright/profiles/default");
    let args = launch_args(&dir, true, true, false, true, &vec!["--kiosk".to_string()]);
    assert_eq!(args[0], "--user-data-dir=/d/truewright/profiles/default");
    assert!(args.contains(&"--remote-debugging-pipe".to_string()));
    assert!(args.contains(&"--headless".to_string()));
    assert!(args.contains(&"--no-sandbox".to_string()));
    assert_eq!(args.last().map(String::as_str), Some("--kiosk"));
    let with_own = launch_args(&dir, false, false, false, true, &vec!["--no-sandbox".to_string()]);
    assert_eq!(with_own.iter().filter(|a| *a == "--no-sandbox").count(), 1);
}

#[test]
fn devtools_endpoint_reads_existing_port_file() {
    assert_eq!(
        devtools_url("12345\n/devtools/browser/abc-123\n"),
        Some("ws://127.0.0.1:12345/devtools/browser/abc-123".to_string())
    );
    assert_eq!(devtools_url("12345\n"), None);
}

#[test]
fn replies_and_events_are_routed() {
    let reply = route_incoming(IncomingMessage { id: Some(7), session_id: None, method: None, params: "null".into(), result: Some("{\"foo\":\"bar\"}".into()), error: None });
    assert!(matches!(reply, Route::Reply { id: 7, outcome: Ok(t) } if t == "{\"foo\":\"bar\"}"));
    let err = route_incoming(IncomingMessage { id: Some(8), session_id: None, method: None, params: "null".into(), result: None, error: Some(ProtocolError { code: -32601, message: "not found".into() }) });
    assert!(matches!(err, Route::Reply { id: 8, outcome: Err(CdpError::Protocol { code: -32601, message }) } if message == "not found"));
    let ev = route_incoming(IncomingMessage { id: None, session_id: Some("S".into()), method: Some("Page.loadEventFired".into()), params: "{}".into(), result: None, error: None });
    assert!(matches!(ev, Route::Event { method, .. } if method == "Page.loadEventFired"));
}

#[test]
fn closed_connections_fail_every_command() {
    let mut t = CommandTable::new();
    let a = t.begin().ok().expect("open");
    let b = t.begin().ok().expect("open");
    assert_eq!((a, b), (1, 2));
    assert!(t.finish(a));
    assert!(!t.finish(a));
    assert_eq!(t.close(), vec![b]);
    assert!(matches!(t.begin(), Err(CdpError::Disconnected)));
}

#[test]
fn outgoing_commands_are_json() {
    let m = outgoing_message(3, "Browser.getVersion", "{}", None);
    assert_eq!(m, "{\"id\":3,\"method\":\"Browser.getVersion\",\"params\":{}}");
    let s = outgoing_message(4, "Page.navigate", "{\"url\":\"x\"}", Some("S1"));
    let v: serde_json::Value = serde_json::from_str(&s).expect("valid JSON");
    assert_eq!(v["sessionId"], "S1");
    assert_eq!(v["params"]["url"], "x");
    let e = outgoing_message(5, "A.b", "{}", Some("s\"\\\n\u{1}é"));
    assert_eq!(e, "{\"id\":5,\"method\":\"A.b\",\"params\":{},\"sessionId\":\"s\\\"\\\\\\n\\u0001é\"}");
}

#[test]
fn pipe_frames_on_nul_and_buffers_partial_messages() {
    let mut buf = FrameBuffer::new();
    buf.extend(b"{\"a\":1}\0{\"b\":2}\0");
    assert_eq!(buf.next_frame().as_deref(), Some("{\"a\":1}"));
    assert_eq!(buf.next_frame().as_deref(), Some("{\"b\":2}"));
    assert_eq!(buf.next_frame(), None);
    buf.extend(b"\0\0{\"c\"");
    assert_eq!(buf.next_frame(), None);
    buf.extend(b":3}\0");
    assert_eq!(buf.next_frame().as_deref(), Some("{\"c\":3}"));
    assert_eq!(frame_message("hello"), b"hello\0".to_vec());
}

#[test]
fn windows_are_picked_by_closeness_to_the_hint() {
    let hint = WindowHint { left: 100, top: 100, width: 800, height: 600 };
    let rects = vec![
        WindowRect { left: 0, top: 0, right: 500, bottom: 400 },
        WindowRect { left: 101, top: 100, right: 901, bottom: 700 },
        WindowRect { left: 99, top: 100, right: 899, bottom: 700 },
    ];
    assert_eq!(closest_window(&rects, &hint), Some(1));
    assert_eq!(closest_window(&vec![], &hint), None);
    let keys = press_key(13);
    assert_eq!((keys[0].code, keys[0].key_up, keys[1].key_up), (13, false, true));
    assert_eq!(char_inputs('a').len(), 2);
    let emoji = char_inputs('😀');
    assert_eq!(emoji.len(), 4);
    assert_eq!((emoji[0].code, emoji[2].code), (0xD83D, 0xDE00));
}

#[test]
fn commands_and_events_carry_their_method_names() {
    assert_eq!(<aib::cdp::protocol::page::Navigate as Command>::METHOD, "Page.navigate");
    assert_eq!(<aib::cdp::protocol::fetch::RequestPaused as CdpEvent>::METHOD, "Fetch.requestPaused");
    let p = EvaluateParams::new("1+1");
    assert_eq!(p.expression, "1+1");
    assert_eq!((p.return_by_value, p.await_promise), (Some(true), Some(true)));
}

#[test]
fn page_commands_are_built_from_plain_values() {
    let keys = key_events("Enter", "Enter", 13);
    assert_eq!((keys[0].kind.as_str(), keys[1].kind.as_str()), ("keyDown", "keyUp"));
    assert_eq!(keys[1].windows_virtual_key_code, Some(13));
    assert_eq!(char_event('é').text.as_deref(), Some("é"));
    let f = fulfill_params("r1", 201, vec![("a".into(), "1".into())], Some("Ym9keQ==".into()));
    assert_eq!((f.response_code, f.response_headers[0].name.as_str(), f.body.as_deref()), (201, "a", Some("Ym9keQ==")));
    assert_eq!(fail_params("r2").error_reason, "Failed");
    assert_eq!(create_target_params("about:blank", "C").browser_context_id.as_deref(), Some("C"));
    assert!(attach_params("T").flatten);
    assert!(is_load_milestone("load"));
    assert!(!is_load_milestone("DOMContentLoaded"));
    assert!(matches!(navigation_timeout(30000), CdpError::Timeout { millis: 30000 }));
    let thrown = EvaluateResponse {
        result: RemoteObject { kind: "object".into(), subtype: None, value: None, description: None },
        exception_details: Some("{\"text\":\"Uncaught\"}".into()),
    };
    assert!(matches!(evaluate_outcome(thrown), Err(CdpError::Other(m)) if m == "evaluate threw: {\"text\":\"Uncaught\"}"));
    let ok = EvaluateResponse {
        result: RemoteObject { kind: "string".into(), subtype: None, value: Some(RemoteValue::Str("Example".into())), description: None },
        exception_details: None,
    };
    assert!(matches!(evaluate_outcome(ok), Ok(Some(RemoteValue::Str(t))) if t == "Example"));
    assert_eq!(screenshot_bytes("iVBO").ok(), Some(vec![0x89, 0x50, 0x4e]));
    assert!(matches!(screenshot_bytes("%%"), Err(CdpError::Other(m)) if m.starts_with("invalid screenshot base64: ")));
}

#[test]
fn subscriptions_match_the_exact_method() {
    assert!(is_subscribed_event("Page.lifecycleEvent", "Page.lifecycleEvent"));
    assert!(!is_subscribed_event("Page.loadEventFired", "Page.lifecycleEvent"));
}

#[test]
fn a_shell_that_cannot_be_had_falls_back_to_an_installed_browser() {
    assert!(matches!(after_shell_attempt(true, false), HeadlessSource::ManagedShell));
    assert!(matches!(after_shell_attempt(false, true), HeadlessSource::ManagedShell));
    assert!(matches!(after_shell_attempt(false, false), HeadlessSource::Installed));
}
