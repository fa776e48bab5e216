use momolite::json::JsonValue;
use momolite::links::scene_vocabulary_links;
use momolite::llm::{
    build_enrich_prompt, build_llm_request_json, build_prompt, build_scene_lesson_prompt, clean_llm_json_text,
    compute_coverage, enrich_word_list, extract_json_object_text, llm_profile_name, missing_core_words,
    normalize_base_url, normalize_reasoning_effort, normalize_text, normalize_wire_api, parse_enriched_entries,
    parse_llm_content, parse_scene_payload, plan_scene_lessons, provider_default_model,
    provider_default_reasoning_effort, provider_default_url, provider_default_wire_api, resolve_llm_fields,
    scene_batch_status, scene_batch_title, scene_batch_topics, scene_lesson_title, scene_plan_step,
    select_support_targets, tally_plan, text_from_json_value, validate_llm_settings, PlanOutcome, SceneAttempt,
    SceneBatchTally, ScenePayloadLine, SceneReply, SceneStep, VocabularyTarget,
};

fn to_json(v: &serde_json::Value) -> JsonValue {
    match v {
        serde_json::Value::Null => JsonValue::Null,
        serde_json::Value::Bool(b) => JsonValue::Bool(*b),
        serde_json::Value::Number(n) => JsonValue::Number(n.to_string()),
        serde_json::Value::String(s) => JsonValue::Str(s.clone()),
        serde_json::Value::Array(a) => JsonValue::Array(a.iter().map(to_json).collect()),
        serde_json::Value::Object(o) => JsonValue::Object(o.iter().map(|(k, x)| (k.clone(), to_json(x))).collect()),
    }
}

fn json(text: &str) -> JsonValue {
    to_json(&serde_json::from_str::<serde_json::Value>(text).expect("test JSON"))
}

fn member<'a>(v: &'a JsonValue, key: &str) -> &'a JsonValue {
    match v {
        JsonValue::Object(m) => &m.iter().find(|(k, _)| k == key).expect("member").1,
        _ => panic!("not an object"),
    }
}

fn element(v: &JsonValue, i: usize) -> &JsonValue {
    match v {
        JsonValue::Array(a) => &a[i],
        _ => panic!("not an array"),
    }
}

fn target(id: &str, text: &str) -> VocabularyTarget {
    VocabularyTarget {
        id: id.to_string(),
        text: text.to_string(),
        normalized_text: text.to_lowercase(),
        meaning: "释义".to_string(),
        difficulty: "B1".to_string(),
        weak_score: 3,
    }
}

fn line(english: &str) -> ScenePayloadLine {
    ScenePayloadLine { speaker: "A".to_string(), english: english.to_string(), chinese: "中文".to_string() }
}

#[test]
fn parses_scene_payload_from_plain_json() {
    let payload = parse_scene_payload(
        r#"{
            "title": "办公室计划",
            "scenario": "两个人讨论是否继续一个计划。",
            "lines": [
                {
                    "speaker": "A",
                    "english": "We may have to abandon the plan.",
                    "chinese": "我们可能得放弃这个计划。"
                }
            ]
        }"#,
    )
    .expect("parse payload");

    assert_eq!(payload.title, "办公室计划");
    assert_eq!(payload.lines.len(), 1);
    assert!(payload.lines[0].english.contains("abandon"));
}

#[test]
fn parses_chat_completion_content_array() {
    let response = json(
        r#"{"choices": [{"message": {"content": [{"type": "text", "text": "{\"title\":\"t\",\"scenario\":\"s\",\"lines\":[]}"}]}}]}"#,
    );
    let content = parse_llm_content(&response).expect("parse content array");
    assert!(content.contains("\"title\""));
}

#[test]
fn parses_responses_api_output_content() {
    let response = json(
        r#"{"output": [{"content": [{"type": "output_text", "text": "{\"title\":\"t\",\"scenario\":\"s\",\"lines\":[]}"}]}]}"#,
    );
    let content = parse_llm_content(&response).expect("parse responses output");
    assert!(content.contains("\"scenario\""));
}

#[test]
fn normalizes_provider_endpoint_and_temperature() {
    assert_eq!(
        normalize_base_url("https://ark.cn-beijing.volces.com/api/v3", "chat_completions"),
        "https://ark.cn-beijing.volces.com/api/v3/chat/completions"
    );
    assert_eq!(normalize_base_url("https://way.ydata.vip/v1", "responses"), "https://way.ydata.vip/v1/responses");
}

#[test]
fn builds_responses_request_for_gpt2_gateway() {
    let request = build_llm_request_json("gpt-5.4", "responses", "high", true, JsonValue::Number("0.4".to_string()), "hello");
    assert_eq!(member(&request, "model"), &JsonValue::Str("gpt-5.4".to_string()));
    assert_eq!(member(member(&request, "reasoning"), "effort"), &JsonValue::Str("high".to_string()));
    assert_eq!(member(&request, "store"), &JsonValue::Bool(false));
    assert_eq!(member(element(member(&request, "input"), 0), "role"), &JsonValue::Str("user".to_string()));
}

#[test]
fn builds_chat_request_with_temperature() {
    let request = build_llm_request_json("gpt-4.1-mini", "chat_completions", "medium", false, JsonValue::Number("0.4".to_string()), "hi");
    assert_eq!(member(&request, "temperature"), &JsonValue::Number("0.4".to_string()));
    assert_eq!(member(member(&request, "response_format"), "type"), &JsonValue::Str("json_object".to_string()));
    assert_eq!(member(element(member(&request, "messages"), 0), "role"), &JsonValue::Str("system".to_string()));
    assert_eq!(member(element(member(&request, "messages"), 1), "content"), &JsonValue::Str("hi".to_string()));
}

#[test]
fn validates_volcengine_endpoint_id() {
    let error = validate_llm_settings("volcengine_ark", "doubao-seed-2.0-pro", "chat_completions").expect_err("reject base model name");
    assert!(error.contains("ep-"));
    validate_llm_settings("volcengine_ark", "ep-20260428000000-test", "chat_completions").expect("accept endpoint id");
}

#[test]
fn rejects_blank_model_and_unknown_protocol() {
    assert_eq!(validate_llm_settings("gpt2", "  ", "responses").err(), Some("LLM Model 不能为空。".to_string()));
    assert_eq!(
        validate_llm_settings("gpt2", "gpt-5.4", "grpc").err(),
        Some("wire_api must be chat_completions or responses".to_string())
    );
}

#[test]
fn parses_scene_payload_from_json_code_fence() {
    let payload = parse_scene_payload(
        r#"```json
        {
          "title": "学习安排",
          "scenario": "两个同学安排复习。",
          "lines": [
            {
              "speaker": "B",
              "english": "Let's review the weak words first.",
              "chinese": "我们先复习薄弱词吧。"
            }
          ]
        }
        ```"#,
    )
    .expect("parse fenced payload");

    assert_eq!(payload.scenario, "两个同学安排复习。");
    assert_eq!(payload.lines[0].speaker, "B");
}

#[test]
fn rejects_scene_text_that_is_not_json() {
    let error = parse_scene_payload("sorry, no scene today").err().expect("error");
    assert!(error.starts_with("LLM returned invalid scene JSON: "));
    let error = parse_scene_payload(r#"{"title": "t"}"#).err().expect("error");
    assert_eq!(error, "LLM returned invalid scene JSON");
}

#[test]
fn saves_scene_lines_and_vocabulary_offsets() {
    let targets = vec![target("word_1", "abandon")];
    let lines = vec![line("We cannot abandon the plan yet.")];
    let links = scene_vocabulary_links(&lines, &targets).expect("links");
    assert_eq!(links.len(), 1);
    assert_eq!(links[0].matched_text, "abandon");
    assert_eq!(links[0].start_offset, 10);
    assert_eq!(links[0].end_offset, 17);
    assert_eq!(links[0].target_index, 0);
}

#[test]
fn links_use_byte_offsets_and_keep_the_line_case() {
    let targets = vec![target("w1", "Plan"), target("w2", "plan"), target("w3", "  ")];
    let lines = vec![line("计划 Plan ahead."), line("No match here.")];
    let links = scene_vocabulary_links(&lines, &targets).expect("links");
    assert_eq!(links.len(), 1);
    assert_eq!(links[0].line_index, 0);
    assert_eq!(links[0].target_index, 1);
    assert_eq!(links[0].start_offset, 7);
    assert_eq!(links[0].end_offset, 11);
    assert_eq!(links[0].matched_text, "Plan");
}

#[test]
fn reads_text_from_nested_values() {
    assert_eq!(text_from_json_value(&json(r#"[{"text": "a"}, "b"]"#)), Some("ab".to_string()));
    assert_eq!(text_from_json_value(&json(r#"{"value": "v"}"#)), Some("v".to_string()));
    assert_eq!(text_from_json_value(&json(r#"[" ", " "]"#)), None);
    assert_eq!(text_from_json_value(&json("3")), None);
}

#[test]
fn reports_missing_content_with_member_names() {
    let error = parse_llm_content(&json(r#"{"error": "quota", "id": "x"}"#)).err().expect("error");
    assert!(error.starts_with("LLM response did not contain a supported content field. top_level_keys=[error, id], preview="));
    assert!(error.contains("quota"));
    let reasoning = json(r#"{"choices": [{"message": {"reasoning_content": "  {\"a\": 1} "}}]}"#);
    assert_eq!(parse_llm_content(&reasoning), Ok("{\"a\": 1}".to_string()));
}

#[test]
fn extracts_first_json_object() {
    assert_eq!(extract_json_object_text(r#"noise {"a": "}", "b": {"c": 1}} tail"#), Some(r#"{"a": "}", "b": {"c": 1}}"#.to_string()));
    assert_eq!(extract_json_object_text("no object"), None);
    assert_eq!(extract_json_object_text("{ unclosed"), None);
    assert_eq!(clean_llm_json_text("```json\n{\"x\": 1}\n```"), "{\"x\": 1}");
}

#[test]
fn normalizes_settings_and_defaults() {
    assert_eq!(normalize_text("  AbAndon "), "abandon");
    assert_eq!(normalize_wire_api(" responses "), "responses");
    assert_eq!(normalize_wire_api("other"), "chat_completions");
    assert_eq!(normalize_reasoning_effort(" low "), "low");
    assert_eq!(normalize_reasoning_effort("max"), "medium");
    assert_eq!(provider_default_url("gpt2", "chat_completions"), "https://way.ydata.vip/v1");
    assert_eq!(provider_default_url("openai_compatible", "responses"), "https://api.openai.com/v1");
    assert_eq!(provider_default_model("volcengine_ark"), "");
    assert_eq!(provider_default_wire_api("gpt2"), "responses");
    assert_eq!(provider_default_reasoning_effort("other"), "medium");
    assert_eq!(normalize_base_url("", "chat_completions"), "https://api.openai.com/v1/chat/completions");
    assert_eq!(normalize_base_url(" https://x.test/custom ", "responses"), "https://x.test/custom");
    let once = normalize_base_url("https://h.test/api/v3/", "responses");
    assert_eq!(once, "https://h.test/api/v3/responses");
    assert_eq!(normalize_base_url(&once, "responses"), once);
}

#[test]
fn resolves_profile_fields_with_provider_defaults() {
    let f = resolve_llm_fields(" ", "", "", "", "");
    assert_eq!(f.provider, "gpt2");
    assert_eq!(f.wire_api, "responses");
    assert_eq!(f.base_url, "https://way.ydata.vip/v1");
    assert_eq!(f.model, "gpt-5.4");
    assert_eq!(f.reasoning_effort, "high");
    let f = resolve_llm_fields("openai_compatible", "https://api.test/v1", " my-model ", "chat_completions", "low");
    assert_eq!(f.base_url, "https://api.test/v1/chat/completions");
    assert_eq!(f.model, "my-model");
    assert_eq!(f.reasoning_effort, "low");
    assert_eq!(llm_profile_name("  "), "未命名 LLM 配置");
    assert_eq!(llm_profile_name(" Work "), "Work");
}

#[test]
fn builds_prompts_with_target_lines() {
    let targets = vec![target("w", "abandon")];
    let prompt = build_prompt("office", &targets);
    assert!(prompt.contains("Topic: office"));
    assert!(prompt.contains("- abandon: 释义 | level=B1 | weak_score=3"));
    let lesson = build_scene_lesson_prompt("t", "commute", &targets, &targets, &vec!["abandon".to_string()]);
    assert!(lesson.contains("Repair requirement: these core words were missing and must be used naturally: abandon.\n"));
    let plain = build_scene_lesson_prompt("t", "commute", &targets, &[], &vec![]);
    assert!(!plain.contains("Repair requirement"));
    let enrich = build_enrich_prompt(&vec![" keep ".to_string(), "go".to_string()]);
    assert!(enrich.contains("Input words:\n- keep\n- go\n"));
}

#[test]
fn parses_enriched_entries_from_object_or_list() {
    let entry = r#"{"text":"keep","primaryMeaning":"保持","phonetic":"","partOfSpeech":"verb","example":"","exampleCn":"","roots":"","wordFamily":"","synonyms":"","antonyms":"","memoryHint":"","tags":"","difficulty":"A1"}"#;
    let wrapped = format!("{{\"entries\": [{entry}]}}");
    let entries = parse_enriched_entries(&wrapped).expect("entries");
    assert_eq!(entries.len(), 1);
    assert_eq!(entries[0].primary_meaning, "保持");
    let listed = format!("[{entry}]");
    assert_eq!(parse_enriched_entries(&listed).err(), Some("LLM vocabulary entries were invalid".to_string()));
    let fenced = format!("```json\n{{\"entries\": [{entry}, {entry}]}}\n```");
    assert_eq!(parse_enriched_entries(&fenced).expect("fenced").len(), 2);
    assert_eq!(parse_enriched_entries(r#"{"entries": [{"text": "x"}]}"#).err(), Some("LLM vocabulary entries were invalid".to_string()));
    assert!(parse_enriched_entries("nope").err().expect("error").starts_with("LLM returned invalid vocabulary JSON: "));
}

#[test]
fn coverage_splits_core_words() {
    let lines = vec![line("We cannot ABANDON the plan."), line("Keep going.")];
    let core = vec![target("a", "abandon"), target("b", "Keep"), target("c", "quit"), target("d", " ")];
    let coverage = compute_coverage(&lines, &core);
    assert_eq!(coverage.used_core_words, vec!["abandon".to_string(), "Keep".to_string()]);
    assert_eq!(coverage.missing_core_words, vec!["quit".to_string(), " ".to_string()]);
    let report = json(r#"{"missingCoreWords": ["quit", 3, "x"], "usedCoreWords": []}"#);
    assert_eq!(missing_core_words(&report), vec!["quit".to_string(), "x".to_string()]);
    assert_eq!(missing_core_words(&json("{}")), Vec::<String>::new());
}

#[test]
fn plans_batches_in_lessons_of_ten() {
    let core: Vec<VocabularyTarget> = (0..23).map(|i| target(&format!("c{i}"), &format!("core{i}"))).collect();
    let support: Vec<VocabularyTarget> = (0..7).map(|i| target(&format!("s{i}"), &format!("support{i}"))).collect();
    let topics = scene_batch_topics(&vec![]);
    assert_eq!(topics.len(), 5);
    assert_eq!(topics[0], "daily work and study");
    let lessons = plan_scene_lessons(&core, &support, &topics);
    assert_eq!(lessons.len(), 3);
    assert_eq!(lessons[0].core_targets.len(), 10);
    assert_eq!(lessons[2].core_targets.len(), 3);
    assert_eq!(lessons[2].core_targets[0].id, "c20");
    assert_eq!(lessons[1].title, "第 2 课：commute and errands");
    let ids: Vec<&str> = lessons[1].support_targets.iter().map(|t| t.id.as_str()).collect();
    assert_eq!(ids, vec!["s5", "s6", "s0", "s1", "s2"]);
    let chosen = scene_batch_topics(&vec!["  travel ".to_string(), " ".to_string()]);
    assert_eq!(chosen, vec!["travel".to_string()]);
    assert_eq!(scene_batch_title(" "), "AI 场景课批次");
    let picked = select_support_targets(&support, &vec![target("s1", "x")], 3);
    let ids: Vec<&str> = picked.iter().map(|t| t.id.as_str()).collect();
    assert_eq!(ids, vec!["s0", "s2", "s3"]);
}

#[test]
fn scene_generation_steps_and_batch_status() {
    assert!(matches!(scene_plan_step(SceneAttempt::First, SceneReply::Parsed(vec![])), SceneStep::Save));
    match scene_plan_step(SceneAttempt::First, SceneReply::Parsed(vec!["quit".to_string()])) {
        SceneStep::Repair(w) => assert_eq!(w, vec!["quit".to_string()]),
        _ => panic!("expected repair"),
    }
    match scene_plan_step(SceneAttempt::Repair, SceneReply::Parsed(vec!["quit".to_string(), "keep".to_string()])) {
        SceneStep::MarkFailed(m) => assert_eq!(m, "核心词未完全覆盖：quit, keep"),
        _ => panic!("expected failure"),
    }
    match scene_plan_step(SceneAttempt::Repair, SceneReply::Failed("HTTP 500".to_string())) {
        SceneStep::Abort(m) => assert_eq!(m, "HTTP 500"),
        _ => panic!("expected abort"),
    }
    match scene_plan_step(SceneAttempt::First, SceneReply::Failed("timeout".to_string())) {
        SceneStep::MarkFailed(m) => assert_eq!(m, "timeout"),
        _ => panic!("expected failure"),
    }
    let t = SceneBatchTally { succeeded: 0, failed: 0 };
    let t = tally_plan(t, PlanOutcome::Succeeded);
    assert_eq!(scene_batch_status(t), "succeeded");
    let t = tally_plan(t, PlanOutcome::Failed);
    assert_eq!(scene_batch_status(t), "partial");
    assert_eq!(scene_batch_status(SceneBatchTally { succeeded: 0, failed: 2 }), "failed");
    assert_eq!(scene_lesson_title("Office", 0), "Office");
    assert_eq!(scene_lesson_title("Office", 2), "Office #3");
}

#[test]
fn enrich_words_are_trimmed_and_capped() {
    let words: Vec<String> = (0..100).map(|i| format!(" w{i} ")).collect();
    let list = enrich_word_list(&words).expect("words");
    assert_eq!(list.len(), 80);
    assert_eq!(list[0], "w0");
    assert_eq!(enrich_word_list(&vec!["  ".to_string()]).err(), Some("请先输入要补全的单词。".to_string()));
}
