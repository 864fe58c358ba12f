use aib::agent::error::AgentError;
use aib::agent::harness::{
    extract_field, inline_image_b64, inline_screenshot_event, interpreted_screenshot_events, screenshot_route,
    snapshots_to_elide, truncate_chars, unavailable_screenshot_event, CallVerdict, ScreenshotRoute, StepLoop,
    TurnVerdict, NO_VISION_TEXT,
};
use aib::agent::prompt::system_prompt;
use aib::agent::skills::{default_search_dirs, resolve, resolve_one, skill_path, strip_front_matter, Skill};
use aib::agent::tools::{
    assert_outcome, list_pages_outcome, ok_or_error, plan_tool_call, ref_action_outcome, run_yaml_outcome,
    screenshot_outcome, text_or_error, tool_defs, ToolAction, ToolOutcome, ToolPlan,
};
use aib::agent::types::AgentEvent;
use aib::agent::vision::{vision_guidance, DEFAULT_VISION_GUIDANCE};
use aib::engine::session::PageInfo;
use aib::engine::yaml_runner::RunSummary;
use aib::paths::PathStyle;

fn text_of(o: ToolOutcome) -> String {
    match o {
        ToolOutcome::Text(t) => t,
        ToolOutcome::Screenshot { .. } => panic!("expected text"),
    }
}

#[test]
fn truncate_chars_is_utf8_safe_and_leaves_short_strings_alone() {
    assert_eq!(truncate_chars("short", 10), "short");
    let long = "a".repeat(500);
    let truncated = truncate_chars(&long, 10);
    assert!(truncated.starts_with("aaaaaaaaaa"));
    assert!(truncated.contains("500 chars total"));
    let emoji = "😀".repeat(50);
    let _ = truncate_chars(&emoji, 10);
}

#[test]
fn truncate_chars_counts_characters_not_bytes() {
    let emoji = "😀".repeat(12);
    assert_eq!(truncate_chars(&emoji, 10), format!("{}... (12 chars total)", "😀".repeat(10)));
    assert_eq!(truncate_chars(&"😀".repeat(10), 10), "😀".repeat(10));
}

#[test]
fn prune_snapshots_elides_all_but_the_most_recent() {
    let elided = snapshots_to_elide(&vec![0, 1, 2], 1);
    assert_eq!(elided, vec![0, 1]);
}

#[test]
fn prune_snapshots_is_a_no_op_when_under_the_limit() {
    let elided = snapshots_to_elide(&vec![0], 2);
    assert!(elided.is_empty());
}

#[test]
fn extract_field_reads_a_string_field_and_handles_malformed_json() {
    assert_eq!(extract_field(r#"{"summary":"done"}"#, "summary"), Some("done".to_string()));
    assert_eq!(extract_field("not json", "summary"), None);
    assert_eq!(extract_field(r#"{"other":"x"}"#, "summary"), None);
}

#[test]
fn prompt_includes_task_skills_and_guidance_in_order() {
    let skills = vec![Skill {
        name: "checkout-flow".to_string(),
        body: "Always verify the cart total before submitting.".to_string(),
    }];
    let prompt = system_prompt("Buy the cheapest item", &skills, Some("Use the test credit card."));
    let task_pos = prompt.find("Buy the cheapest item").expect("task present");
    let skill_pos = prompt.find("Always verify the cart total").expect("skill present");
    let guidance_pos = prompt.find("Use the test credit card").expect("guidance present");
    assert!(task_pos < skill_pos && skill_pos < guidance_pos, "expected task, then skills, then guidance");
    assert!(prompt.contains("task_complete") && prompt.contains("task_failed"), "termination contract must be present");
}

#[test]
fn empty_guidance_is_omitted_not_rendered_as_an_empty_section() {
    let prompt = system_prompt("do something", &[], Some(""));
    assert!(!prompt.contains("## Caller guidance"));
}

#[test]
fn front_matter_block_is_stripped() {
    let raw = "---\ndescription: test skill\n---\nActual body text here.";
    assert_eq!(strip_front_matter(raw), "Actual body text here.");
}

#[test]
fn body_without_front_matter_is_returned_unchanged() {
    let raw = "Just a plain skill body, no front matter.";
    assert_eq!(strip_front_matter(raw), raw);
}

#[test]
fn front_matter_closed_only_by_trailing_dashes_leaves_an_empty_body() {
    assert_eq!(strip_front_matter("---\nkey: v\n---   \n"), "");
    assert_eq!(strip_front_matter("---\nkey: v\nno close"), "---\nkey: v\nno close");
}

#[test]
fn resolves_a_skill_from_the_first_matching_directory() {
    let skills = resolve(
        &vec!["checkout-flow".to_string()],
        &vec![vec![Some("Always verify the total before submitting.".to_string())]],
    )
    .expect("resolves");
    assert_eq!(skills.len(), 1);
    assert_eq!(skills[0].name, "checkout-flow");
    assert!(skills[0].body.contains("verify the total"));
}

#[test]
fn missing_skill_errors_clearly_rather_than_silently_skipping() {
    let err = resolve(&vec!["does-not-exist".to_string()], &vec![vec![None]]).err().expect("must error");
    assert!(matches!(err, AgentError::UnknownSkill(name) if name == "does-not-exist"));
}

#[test]
fn first_directory_in_search_order_wins_on_a_name_collision() {
    let skill = resolve_one("dup", &vec![Some("from first dir".to_string()), Some("from second dir".to_string())])
        .ok()
        .expect("resolves");
    assert_eq!(skill.body, "from first dir");
}

#[test]
fn default_search_dirs_put_project_local_first() {
    let dirs = default_search_dirs("/home/u/.local/share/truewright", &vec!["/extra/a".to_string()], &PathStyle::Unix);
    assert_eq!(
        dirs,
        vec![
            "./.truewright/skills".to_string(),
            "/home/u/.local/share/truewright/skills".to_string(),
            "/extra/a".to_string()
        ]
    );
    assert_eq!(skill_path("/s", "dup", &PathStyle::Unix), "/s/dup.md");
}

#[test]
fn tool_defs_offer_fourteen_tools_in_order() {
    let defs = tool_defs();
    let names: Vec<&str> = defs.iter().map(|d| d.name.as_str()).collect();
    assert_eq!(
        names,
        vec![
            "navigate", "snapshot", "click", "right_click", "type", "press", "wait_for", "assert", "screenshot",
            "list_pages", "switch_page", "run_yaml", "task_complete", "task_failed"
        ]
    );
    for d in &defs {
        let v: serde_json::Value = serde_json::from_str(&d.parameters).expect("schema is JSON");
        assert_eq!(v["type"], "object");
    }
    let type_schema: serde_json::Value = serde_json::from_str(&defs[4].parameters).unwrap();
    assert_eq!(type_schema["required"], serde_json::Value::from(vec!["ref", "text"]));
}

#[test]
fn every_required_parameter_is_a_declared_property_and_only_ending_tools_are_unplanned() {
    for d in tool_defs() {
        let v: serde_json::Value = serde_json::from_str(&d.parameters).expect("schema is JSON");
        assert_eq!(v["type"], "object");
        let props = v["properties"].as_object().expect("properties object");
        for r in v["required"].as_array().cloned().unwrap_or_default() {
            assert!(props.contains_key(r.as_str().expect("name")), "{} requires undeclared {}", d.name, r);
        }
        let ending = d.name == "task_complete" || d.name == "task_failed";
        let plan = plan_tool_call(&d.name, "{}", true);
        assert_eq!(matches!(plan, Err(AgentError::UnknownTool(_))), ending, "{}", d.name);
    }
}

#[test]
fn malformed_arguments_are_answered_not_fatal() {
    match plan_tool_call("navigate", "{not json", true) {
        Ok(ToolPlan::Reply(t)) => assert!(t.starts_with("error: invalid arguments JSON: ")),
        _ => panic!("expected a reply"),
    }
}

#[test]
fn missing_session_is_fatal_after_argument_parsing() {
    assert!(matches!(plan_tool_call("navigate", r#"{"url":"x"}"#, false), Err(AgentError::NoSession)));
    assert!(matches!(plan_tool_call("navigate", "nope", false), Ok(ToolPlan::Reply(_))));
}

#[test]
fn missing_required_argument_is_named() {
    match plan_tool_call("navigate", "{}", true) {
        Ok(ToolPlan::Reply(t)) => assert_eq!(t, "error: missing required argument \"url\""),
        _ => panic!("expected a reply"),
    }
    match plan_tool_call("type", r#"{"ref":"e1"}"#, true) {
        Ok(ToolPlan::Reply(t)) => assert_eq!(t, "error: missing required argument \"text\""),
        _ => panic!("expected a reply"),
    }
}

#[test]
fn unknown_tool_is_fatal() {
    assert!(matches!(plan_tool_call("fly", "{}", true), Err(AgentError::UnknownTool(n)) if n == "fly"));
}

#[test]
fn optional_arguments_take_their_defaults() {
    match plan_tool_call("type", r#"{"ref":"e6","text":"hi"}"#, true) {
        Ok(ToolPlan::Run(ToolAction::Type { ref_id, text, submit })) => {
            assert_eq!(ref_id, "e6");
            assert_eq!(text, "hi");
            assert!(!submit);
        }
        _ => panic!("expected a type action"),
    }
    match plan_tool_call("wait_for", r#"{"text":"Done"}"#, true) {
        Ok(ToolPlan::Run(ToolAction::WaitFor { text, timeout_ms })) => {
            assert_eq!(text, "Done");
            assert_eq!(timeout_ms, 5000);
        }
        _ => panic!("expected a wait"),
    }
    match plan_tool_call("wait_for", r#"{"text":"Done","timeout_ms":1200}"#, true) {
        Ok(ToolPlan::Run(ToolAction::WaitFor { timeout_ms, .. })) => assert_eq!(timeout_ms, 1200),
        _ => panic!("expected a wait"),
    }
    match plan_tool_call("assert", r#"{"text":"X"}"#, true) {
        Ok(ToolPlan::Run(ToolAction::Assert { present, .. })) => assert!(present),
        _ => panic!("expected an assert"),
    }
    match plan_tool_call("screenshot", "{}", true) {
        Ok(ToolPlan::Run(ToolAction::Screenshot { guidance })) => assert!(guidance.is_none()),
        _ => panic!("expected a screenshot"),
    }
}

#[test]
fn action_results_are_worded_per_tool() {
    assert_eq!(text_of(text_or_error(Ok("snap".to_string()))), "snap");
    assert_eq!(text_of(text_or_error(Err("boom".to_string()))), "error: boom");
    assert_eq!(text_of(ref_action_outcome(Ok(()))), "ok");
    assert_eq!(
        text_of(ref_action_outcome(Err("stale".to_string()))),
        "error: stale. Take a fresh snapshot if the ref may be stale."
    );
    assert_eq!(text_of(ok_or_error(Err("unknown key".to_string()))), "error: unknown key");
    assert_eq!(text_of(assert_outcome(Ok(()))), "assertion passed");
    assert_eq!(text_of(assert_outcome(Err("x".to_string()))), "assertion failed: x");
    match screenshot_outcome(Ok(vec![1, 2]), Some("look".to_string())) {
        ToolOutcome::Screenshot { bytes, guidance } => {
            assert_eq!(bytes, vec![1, 2]);
            assert_eq!(guidance.as_deref(), Some("look"));
        }
        _ => panic!("expected a screenshot"),
    }
    assert_eq!(
        text_of(run_yaml_outcome(Ok(RunSummary { steps_run: 3, total_steps: 3 }))),
        "RunSummary { steps_run: 3, total_steps: 3 }"
    );
}

#[test]
fn list_pages_lines_mark_the_active_page() {
    let pages = vec![
        PageInfo { page_id: "A".to_string(), url: "https://a".to_string(), title: "Home \"x\"".to_string(), active: true },
        PageInfo { page_id: "B".to_string(), url: "about:blank".to_string(), title: String::new(), active: false },
    ];
    assert_eq!(
        text_of(list_pages_outcome(Ok(pages))),
        "A https://a \"Home \\\"x\\\"\" (active)\nB about:blank \"\""
    );
    assert_eq!(text_of(list_pages_outcome(Ok(vec![]))), "no pages");
}

#[test]
fn step_budget_and_time_budget_end_the_run() {
    let mut l = StepLoop::new(2, 3);
    assert!(matches!(l.begin_step(false), Ok((AgentEvent::Step { n: 1, max: 2 }, _))));
    assert!(matches!(l.begin_step(false), Ok((AgentEvent::Step { n: 2, max: 2 }, _))));
    assert!(matches!(l.begin_step(false), Err(AgentError::MaxStepsExceeded(2))));
    let mut t = StepLoop::new(5, 3);
    assert!(matches!(t.begin_step(true), Err(AgentError::TaskTimeout)));
}

#[test]
fn chatter_is_nudged_once_then_stops() {
    let mut l = StepLoop::new(10, 3);
    assert!(matches!(l.on_turn(0), Ok(TurnVerdict::Nudge)));
    assert!(matches!(l.on_turn(0), Err(AgentError::NoProgress)));
    let mut m = StepLoop::new(10, 3);
    assert!(matches!(m.on_turn(0), Ok(TurnVerdict::Nudge)));
    assert!(matches!(m.on_turn(2), Ok(TurnVerdict::RunTools)));
    assert!(matches!(m.on_turn(0), Ok(TurnVerdict::Nudge)));
}

#[test]
fn termination_calls_finish_the_task() {
    let mut l = StepLoop::new(10, 3);
    let _ = l.begin_step(false);
    match l.on_tool_call("task_complete", r#"{"summary":"bought it"}"#) {
        (AgentEvent::ToolCall { name, .. }, CallVerdict::Finish(o)) => {
            assert_eq!(name, "task_complete");
            assert!(o.passed);
            assert_eq!(o.summary, "bought it");
            assert_eq!(o.steps_used, 1);
        }
        _ => panic!("expected a finish"),
    }
    match l.on_tool_call("task_failed", "{}") {
        (_, CallVerdict::Finish(o)) => {
            assert!(!o.passed);
            assert_eq!(o.summary, "");
        }
        _ => panic!("expected a finish"),
    }
    assert!(matches!(l.on_tool_call("click", r#"{"ref":"e1"}"#), (_, CallVerdict::Execute)));
}

#[test]
fn snapshot_results_are_remembered_and_pruned_oldest_first() {
    let mut l = StepLoop::new(10, 1);
    let _ = l.begin_step(false);
    let ev = l.on_text_result("navigate", "page: \"x\"", 3);
    assert!(matches!(ev, AgentEvent::ToolResult { ok: true, .. }));
    let _ = l.on_text_result("click", "ok", 4);
    let _ = l.on_text_result("snapshot", "page: \"y\"", 5);
    let ev = l.on_text_result("click", "error: stale ref", 6);
    assert!(matches!(ev, AgentEvent::ToolResult { ok: false, .. }));
    match l.begin_step(false) {
        Ok((_, elide)) => assert_eq!(elide, vec![3]),
        _ => panic!("expected a step"),
    }
}

#[test]
fn screenshots_route_by_who_can_see() {
    assert!(matches!(screenshot_route(true, false), ScreenshotRoute::Inline));
    assert!(matches!(screenshot_route(false, true), ScreenshotRoute::Interpret));
    assert!(matches!(screenshot_route(false, false), ScreenshotRoute::Unavailable));
    assert_eq!(inline_image_b64(b"png"), "cG5n");
    assert_eq!(inline_image_b64(b""), "");
    assert_eq!(inline_image_b64(b"M"), "TQ==");
    assert_eq!(inline_image_b64(b"Ma"), "TWE=");
    assert_eq!(inline_image_b64(&[0xfb, 0xff, 0x3e, 0x01]), "+/8+AQ==");
    assert!(matches!(inline_screenshot_event("screenshot"), AgentEvent::ToolResult { ok: true, summary, .. } if summary == "screenshot (inline)"));
    match interpreted_screenshot_events("screenshot", "a red button") {
        (AgentEvent::Vision { chars }, AgentEvent::ToolResult { ok, summary, .. }) => {
            assert_eq!(chars, 12);
            assert!(ok);
            assert_eq!(summary, "a red button");
        }
        _ => panic!("expected vision events"),
    }
    assert!(matches!(unavailable_screenshot_event("screenshot"), AgentEvent::ToolResult { ok: false, summary, .. } if summary == NO_VISION_TEXT));
}

#[test]
fn empty_or_absent_guidance_falls_back_to_the_default() {
    assert_eq!(vision_guidance(None), DEFAULT_VISION_GUIDANCE);
    assert_eq!(vision_guidance(Some("")), DEFAULT_VISION_GUIDANCE);
    assert_eq!(vision_guidance(Some("find the cart")), "find the cart");
}
