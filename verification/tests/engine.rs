use aib::engine::console::{console_text, exception_text, trace_path};
use aib::engine::error::EngineError;
use aib::engine::keys::lookup;
use aib::engine::network::{
    cassette_path, finished_entry, profile_path, unknown_cassette, unparsable_cassette, Cassette, CassetteEntry,
    PendingRequests, ReplayQueue,
};
use aib::engine::recording::{
    capped_duration_ms, frame_file_name, frame_jpeg, preview_index, screencast_params, RecordingOptions,
};
use aib::engine::session::{
    assert_text_check, click_summary, key_for_press, navigate_summary, persona, persona_or_trained, press_summary,
    type_summary, PageRegistry, PersonaPreset, PersonaSource,
};
use aib::engine::snapshot::{render, SnapshotResult, WalkerNode};
use aib::engine::trace_view::{html_escape, render_html, TraceRow};
use aib::engine::training::{check_fit_data, is_training_report, BINDING_NAME};
use aib::engine::yaml_runner::{action_to_step, export_steps, step_kind, take_debug_quoted, Step, TraceItem};
use aib::cdp::protocol::runtime::{RemoteObject, RemoteValue};
use aib::paths::PathStyle;
use aib::engine::yaml_runner::{step_key_kind, StepKind, ONE_KEY_MESSAGE};
use aib::engine::yaml_runner::{after_step, completed_run, start_run, step_failed, unparsable_script, wait_timeout_ms, RunNext};
use aib::engine::session::{wait_for_verdict, WaitVerdict};
use aib::engine::session::{advance_clock_expression, clock_advanced, clock_script, seed_script, training_suppression_expression};
use aib::text::replace_str;

#[test]
fn action_to_step_round_trips_each_kind() {
    assert!(matches!(
        action_to_step("navigate https://example.com"),
        Some(Step::Navigate(url)) if url == "https://example.com"
    ));
    assert!(matches!(action_to_step("click e6"), Some(Step::Click(r)) if r == "e6"));
    assert!(matches!(
        action_to_step(r#"type e6 "hello@example.com""#),
        Some(Step::Type { ref_id, text, submit: false }) if ref_id == "e6" && text == "hello@example.com"
    ));
    assert!(matches!(action_to_step("press Enter"), Some(Step::Press(k)) if k == "Enter"));
    assert!(matches!(
        action_to_step(r#"assert text="Sign up" present=true => pass"#),
        Some(Step::Assert { text, present: true }) if text == "Sign up"
    ));
    assert!(matches!(
        action_to_step(r#"assert text="nope" present=false => fail"#),
        Some(Step::Assert { text, present: false }) if text == "nope"
    ));
}

#[test]
fn action_to_step_handles_escaped_quotes_in_typed_text() {
    let step = action_to_step(r#"type e6 "say \"hi\"""#).expect("should parse");
    match step {
        Step::Type { text, .. } => assert_eq!(text, "say \"hi\""),
        _ => panic!("expected Type"),
    }
}

#[test]
fn action_to_step_rejects_unknown_summaries() {
    assert!(action_to_step("hover e1").is_none());
    assert!(action_to_step(r#"type e6 "unterminated"#).is_none());
}

#[test]
fn take_debug_quoted_returns_the_text_and_the_rest() {
    let (text, rest) = take_debug_quoted(r#""a\"b" tail"#).expect("quoted");
    assert_eq!(text, "a\"b");
    assert_eq!(rest, " tail");
    assert!(take_debug_quoted("no quote").is_none());
}

#[test]
fn non_ascii_text_reads_back_as_itself() {
    let quoted = format!("{:?} x", "é – naïve ✓");
    let (text, rest) = take_debug_quoted(&quoted).expect("quoted");
    assert_eq!(text, "é – naïve ✓");
    assert_eq!(rest, " x");
    let t = type_summary("e6", "café \"au lait\"");
    assert!(matches!(action_to_step(&t), Some(Step::Type { ref_id, text, submit: false }) if ref_id == "e6" && text == "café \"au lait\""));
    let a = assert_text_check("Grüße", "Grüße", true).summary;
    assert!(matches!(action_to_step(&a), Some(Step::Assert { text, present: true }) if text == "Grüße"));
}

#[test]
fn export_skips_console_and_exception_entries() {
    let entries = vec![
        TraceItem::Action { text: "navigate https://example.com".to_string() },
        TraceItem::Console { level: "log".to_string(), text: "hello".to_string() },
        TraceItem::Exception { text: "boom".to_string() },
        TraceItem::Action { text: "click e6".to_string() },
    ];
    let steps = export_steps(&entries);
    assert_eq!(steps.len(), 2);
    assert!(matches!(&steps[0], Step::Navigate(u) if u == "https://example.com"));
    assert!(matches!(&steps[1], Step::Click(r) if r == "e6"));
    assert_eq!(step_kind(&steps[0]), "navigate");
}

#[test]
fn summaries_read_back_as_the_same_steps() {
    let t = type_summary("e6", "say \"hi\"");
    assert_eq!(t, r#"type e6 "say \"hi\"""#);
    assert!(matches!(action_to_step(&t), Some(Step::Type { ref_id, text, .. }) if ref_id == "e6" && text == "say \"hi\""));
    assert!(matches!(action_to_step(&navigate_summary("https://x")), Some(Step::Navigate(u)) if u == "https://x"));
    assert!(matches!(action_to_step(&click_summary("e2")), Some(Step::Click(r)) if r == "e2"));
    assert!(matches!(action_to_step(&press_summary("Tab")), Some(Step::Press(k)) if k == "Tab"));
    let held = assert_text_check("Sign up now", "Sign up", true).summary;
    assert!(matches!(action_to_step(&held), Some(Step::Assert { text, present: true }) if text == "Sign up"));
    let broken = assert_text_check("Sign up now", "say \"no\"", false).summary;
    assert!(matches!(action_to_step(&broken), Some(Step::Assert { text, present: false }) if text == "say \"no\""));
}

#[test]
fn renders_role_name_value_and_ref() {
    let result = SnapshotResult {
        url: "https://example.com".into(),
        title: "Example".into(),
        tree: Some(WalkerNode {
            tag: "body".into(),
            role: "generic".into(),
            name: None,
            value: None,
            checked: None,
            disabled: false,
            hidden: false,
            element_ref: None,
            children: vec![WalkerNode {
                tag: "input".into(),
                role: "textbox".into(),
                name: Some("Card number".into()),
                value: Some("4242".into()),
                checked: None,
                disabled: false,
                hidden: false,
                element_ref: Some("e6".into()),
                children: vec![],
            }],
        }),
    };
    let rendered = render(&result);
    assert!(rendered.contains("page: \"Example\" url: https://example.com"));
    assert!(rendered.contains("  - textbox \"Card number\" value=\"4242\" [e6]"));
}

#[test]
fn renders_empty_tree() {
    let result = SnapshotResult { url: "x".into(), title: "t".into(), tree: None };
    let rendered = render(&result);
    assert_eq!(rendered, "page: \"t\" url: x\n");
}

#[test]
fn lookup_knows_named_keys_only() {
    let enter = lookup("Enter").expect("Enter is known");
    assert_eq!(enter.key, "Enter");
    assert_eq!(enter.code, "Enter");
    assert_eq!(enter.windows_virtual_key_code, 13);
    assert!(lookup("Hyper").is_none());
    assert!(matches!(key_for_press("Hyper"), Err(EngineError::UnknownKey(k)) if k == "Hyper"));
}

#[test]
fn by_name_rejects_unknown_persona() {
    assert!(matches!(persona("careful"), Ok(PersonaPreset::Careful)));
    assert!(matches!(persona("average"), Ok(PersonaPreset::Average)));
    assert!(matches!(persona("fast"), Ok(PersonaPreset::Fast)));
    assert!(matches!(persona("reckless"), Err(EngineError::UnknownPersona(n)) if n == "reckless"));
}

#[test]
fn persona_and_trained_profile_are_exclusive() {
    assert!(matches!(persona_or_trained(Some("fast"), Some("me")), Err(EngineError::AmbiguousPersona)));
    assert!(matches!(persona_or_trained(None, Some("me")), Ok(PersonaSource::Trained(n)) if n == "me"));
    assert!(matches!(persona_or_trained(None, None), Ok(PersonaSource::Preset(PersonaPreset::Average))));
    assert!(matches!(persona_or_trained(Some("x"), None), Err(EngineError::UnknownPersona(_))));
}

#[test]
fn closing_the_active_popup_returns_to_the_launch_page() {
    let mut reg = PageRegistry::new("P");
    reg.insert("Q");
    reg.switch_to("Q").expect("Q is attached");
    assert_eq!(reg.active_id(), "Q");
    reg.forget("Q");
    assert_eq!(reg.active_id(), "P");
    assert!(!reg.contains("Q"));
    assert!(matches!(reg.switch_to("Z"), Err(EngineError::UnknownPage(p)) if p == "Z"));
    assert!(reg.should_attach("page", Some("ctx"), "ctx", "R"));
    assert!(!reg.should_attach("iframe", Some("ctx"), "ctx", "R"));
    assert!(!reg.should_attach("page", Some("other"), "ctx", "R"));
    assert!(!reg.should_attach("page", Some("ctx"), "ctx", "P"));
}

#[test]
fn assertion_failure_carries_a_snapshot_excerpt() {
    let pass = assert_text_check("hello world", "world", true);
    assert!(pass.result.is_ok());
    assert_eq!(pass.summary, "assert text=\"world\" present=true => pass");
    let long = "x".repeat(600);
    let fail = assert_text_check(&long, "y", true);
    assert_eq!(fail.summary, "assert text=\"y\" present=true => fail");
    match fail.result {
        Err(EngineError::AssertionFailed { text, present, snapshot_excerpt }) => {
            assert_eq!(text, "y");
            assert!(present);
            assert_eq!(snapshot_excerpt.chars().count(), 500);
        }
        _ => panic!("expected failure"),
    }
    assert!(assert_text_check("abc", "z", false).result.is_ok());
}

fn row(item: TraceItem) -> TraceRow {
    TraceRow { item, elapsed_ms: 0, png: vec![] }
}

#[test]
fn entry_kinds_get_distinct_styling_classes() {
    let html = render_html(&vec![
        row(TraceItem::Console { level: "log".into(), text: "c".into() }),
        row(TraceItem::Exception { text: "e".into() }),
        row(TraceItem::Action { text: "a".into() }),
    ]);
    assert!(html.contains("row console"));
    assert!(html.contains("row exception"));
    assert!(html.contains("row action"));
}

#[test]
fn failed_assert_actions_get_a_distinct_fail_class() {
    let html = render_html(&vec![row(TraceItem::Action { text: "assert text=\"X\" present=true => fail".into() })]);
    assert!(html.contains("row action fail"));
}

#[test]
fn text_is_html_escaped() {
    let html = render_html(&vec![row(TraceItem::Console { level: "log".into(), text: "<script>alert(1)</script>".into() })]);
    assert!(!html.contains("<script>alert"));
    assert!(html.contains("&lt;script&gt;"));
    assert_eq!(html_escape("a&b\"c"), "a&amp;b&quot;c");
}

#[test]
fn screenshot_rows_embed_the_png_as_base64() {
    let html = render_html(&vec![TraceRow { item: TraceItem::Screenshot { path: "s.png".into() }, elapsed_ms: 1500, png: b"png".to_vec() }]);
    assert!(html.contains("data:image/png;base64,cG5n"));
    assert!(html.contains("+1500ms"));
    assert!(html.contains("1 entries"));
}

fn entry(method: &str, url: &str, body: &str) -> CassetteEntry {
    CassetteEntry { method: method.into(), url: url.into(), status: 200, headers: vec![], body_base64: body.into() }
}

#[test]
fn replay_answers_each_request_in_recorded_order_then_fails() {
    let cassette = Cassette { entries: vec![entry("GET", "https://a", "MQ=="), entry("GET", "https://b", "Mg=="), entry("GET", "https://a", "Mw==")] };
    let mut q = ReplayQueue::new(cassette);
    assert_eq!(q.serve("GET", "https://a").expect("first a").body_base64, "MQ==");
    assert_eq!(q.serve("GET", "https://a").expect("second a").body_base64, "Mw==");
    assert!(q.serve("GET", "https://a").is_none());
    assert!(q.serve("POST", "https://b").is_none());
    assert_eq!(q.serve("GET", "https://b").expect("b").body_base64, "Mg==");
}

#[test]
fn recording_correlates_by_request_id() {
    let mut p = PendingRequests::new();
    p.request_started("1", "GET".into(), "https://a".into());
    p.request_started("2", "POST".into(), "https://b".into());
    p.response_received("1", 404, vec![("x-k".into(), "v".into())]);
    p.response_received("9", 500, vec![]);
    let done = p.loading_finished("1").expect("1 was pending");
    assert_eq!(done.method, "GET");
    assert_eq!(done.status, 404);
    assert_eq!(done.headers, vec![("x-k".to_string(), "v".to_string())]);
    assert!(p.loading_finished("1").is_none());
    let two = p.loading_finished("2").expect("2 was pending");
    assert_eq!(two.status, 0);
    let e = finished_entry(done, "hi".into(), false);
    assert_eq!(e.body_base64, "aGk=");
    assert_eq!(e.url, "https://a");
    let kept = finished_entry(two, "AAEC".into(), true);
    assert_eq!(kept.body_base64, "AAEC");
}

#[test]
fn cassette_and_profile_files_live_under_aib() {
    assert_eq!(cassette_path("/d", "login", &PathStyle::Unix), "/d/aib/network/login.json");
    assert_eq!(profile_path("/d", "me", &PathStyle::Unix), "/d/aib/profiles/human/me.json");
    assert_eq!(profile_path(r"C:\U", "me", &PathStyle::Windows), r"C:\U\aib\profiles\human\me.json");
    assert_eq!(trace_path("/d", "t1", &PathStyle::Unix), "/d/aib/traces/t1.jsonl");
}

#[test]
fn loading_an_unsaved_cassette_is_a_typed_error() {
    let err = unknown_cassette("definitely-never-recorded-xyz");
    assert!(matches!(err, EngineError::UnknownCassette(name) if name == "definitely-never-recorded-xyz"));
    assert!(matches!(unparsable_cassette("c", "eof"), EngineError::Network(m) if m == "failed to parse cassette \"c\": eof"));
}

#[test]
fn console_arguments_render_by_value_description_or_type() {
    let args = vec![
        RemoteObject { kind: "string".into(), subtype: None, value: Some(RemoteValue::Str("hi".into())), description: None },
        RemoteObject { kind: "number".into(), subtype: None, value: Some(RemoteValue::Json("42".into())), description: Some("42".into()) },
        RemoteObject { kind: "object".into(), subtype: None, value: None, description: Some("Object".into()) },
        RemoteObject { kind: "undefined".into(), subtype: None, value: None, description: None },
    ];
    assert_eq!(console_text(&args), "hi 42 Object <undefined>");
    assert_eq!(exception_text(Some("Error: boom".into()), "Uncaught".into()), "Error: boom");
    assert_eq!(exception_text(None, "Uncaught".into()), "Uncaught");
}

#[test]
fn recordings_are_capped_and_frames_numbered_from_one() {
    let o = RecordingOptions::default();
    assert_eq!(o.max_duration_ms, 30000);
    assert_eq!(o.quality, 60);
    assert_eq!(capped_duration_ms(&RecordingOptions { max_duration_ms: 90000, quality: 60 }), 30000);
    assert_eq!(capped_duration_ms(&RecordingOptions { max_duration_ms: 1000, quality: 60 }), 1000);
    let p = screencast_params(&o);
    assert_eq!(p.format.as_deref(), Some("jpeg"));
    assert_eq!(p.quality, Some(60));
    assert_eq!(p.every_nth_frame, Some(3));
    assert_eq!(frame_file_name(0), "frame_0001.jpg");
    assert_eq!(frame_file_name(2), "frame_0003.jpg");
    assert_eq!(frame_file_name(12344), "frame_12345.jpg");
    assert_eq!(preview_index(3), 1);
    assert_eq!(frame_jpeg("AAEC"), Some(vec![0, 1, 2]));
    assert_eq!(frame_jpeg("***"), None);
}

#[test]
fn too_little_training_data_is_refused() {
    match check_fit_data(2, 10) {
        Err(EngineError::Training(m)) => assert_eq!(
            m,
            "not enough training data to fit a persona: 2 usable mouse movement(s) (need 3), 10 keystroke(s) (need 5)"
        ),
        _ => panic!("expected refusal"),
    }
    assert!(matches!(check_fit_data(5, 4), Err(EngineError::Training(_))));
    let s = check_fit_data(3, 5).ok().expect("enough");
    assert_eq!((s.movements_used, s.keystrokes_used), (3, 5));
    assert!(is_training_report(BINDING_NAME));
    assert!(!is_training_report("other"));
}

#[test]
fn yaml_step_keys_name_exactly_one_known_kind() {
    assert!(matches!(step_key_kind(1, "wait_for"), Ok(StepKind::WaitFor)));
    assert!(matches!(step_key_kind(2, "click"), Err(m) if m == ONE_KEY_MESSAGE));
    assert!(matches!(step_key_kind(0, ""), Err(m) if m == ONE_KEY_MESSAGE));
    assert!(matches!(step_key_kind(1, "hover"), Err(m)
        if m == "unknown step kind \"hover\" (expected one of: navigate, click, type, press, wait_for, assert)"));
}

#[test]
fn a_failing_step_is_reported_by_number_and_kind() {
    let step = Step::Press("Enter".into());
    match step_failed(1, 3, &step, "unknown key".into()) {
        EngineError::YamlStepFailed { step_number, total_steps, step_kind, message } => {
            assert_eq!((step_number, total_steps), (2, 3));
            assert_eq!(step_kind, "press");
            assert_eq!(message, "unknown key");
        }
        _ => panic!("expected a step failure"),
    }
    let s = completed_run(4);
    assert_eq!((s.steps_run, s.total_steps), (4, 4));
    assert!(matches!(unparsable_script("bad"), EngineError::YamlRunner(m) if m == "failed to parse YAML script: bad"));
    assert_eq!(wait_timeout_ms(None), 5000);
    assert_eq!(wait_timeout_ms(Some(10)), 10);
}

#[test]
fn wait_for_polls_until_found_or_deadline() {
    assert!(matches!(wait_for_verdict("Welcome back", "back", false, 100), WaitVerdict::Found));
    assert!(matches!(wait_for_verdict("Loading", "back", false, 100), WaitVerdict::Poll));
    assert!(matches!(wait_for_verdict("Loading", "back", true, 100),
        WaitVerdict::TimedOut(EngineError::WaitTimeout { text, timeout_ms: 100 }) if text == "back"));
}

#[test]
fn init_scripts_fill_in_their_placeholders() {
    assert_eq!(seed_script("seed=%SEED%; again %SEED%", 7), "seed=7; again 7");
    assert_eq!(seed_script("%SEED%", (1u64 << 32) + 5), "5");
    assert_eq!(clock_script("t0=%START_TIME_MS%", 1700000000000), "t0=1700000000000");
    assert_eq!(
        advance_clock_expression(250),
        "typeof window.__aibAdvanceClock === 'function' ? (window.__aibAdvanceClock(250), true) : false"
    );
    assert!(clock_advanced(Some(true)).is_ok());
    assert!(matches!(clock_advanced(Some(false)), Err(EngineError::Clock(_))));
    assert!(matches!(clock_advanced(None), Err(EngineError::Clock(_))));
    assert_eq!(training_suppression_expression(true), "window.__aibSuppressTraining = true");
}

#[test]
fn text_replacement_is_left_to_right_without_overlap() {
    assert_eq!(replace_str("aaa", "aa", "b"), "ba");
    assert_eq!(replace_str("no match", "zz", "y"), "no match");
    assert_eq!(replace_str("", "x", "y"), "");
}

#[test]
fn a_run_goes_step_by_step_and_stops_at_the_first_failure() {
    assert!(matches!(start_run(0), RunNext::Done(s) if s.steps_run == 0 && s.total_steps == 0));
    assert!(matches!(start_run(3), RunNext::Step(0)));
    let click = Step::Click("e6".to_string());
    assert!(matches!(after_step(0, 3, &click, Ok(())), RunNext::Step(1)));
    assert!(matches!(after_step(2, 3, &click, Ok(())), RunNext::Done(s) if s.steps_run == 3 && s.total_steps == 3));
    match after_step(1, 3, &click, Err("stale ref".to_string())) {
        RunNext::Stop(EngineError::YamlStepFailed { step_number, total_steps, step_kind, message }) => {
            assert_eq!((step_number, total_steps, step_kind.as_str(), message.as_str()), (2, 3, "click", "stale ref"));
        }
        _ => panic!("expected a stop"),
    }
}
