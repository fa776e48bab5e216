use momolite::clock::{due_cutoff, learning_plan_id, plan_date_prefix};
use momolite::json::JsonValue;
use momolite::llm::{
    batch_coverage_summary, check_api_key, check_course_choice, check_profile_deletion, clone_target,
    llm_profile_id, needs_default_profile, profile_was_default, scene_can_join_course, scene_sentence_note,
    scene_title, scene_topic, SceneBatchTally, VocabularyTarget,
};

#[test]
fn plans_are_keyed_by_day() {
    assert_eq!(plan_date_prefix(" 2026-04-26T10:00:00 "), "2026-04-26");
    assert_eq!(plan_date_prefix("2026-4"), "2026-4");
    assert_eq!(plan_date_prefix("").len(), 10);
    assert_eq!(due_cutoff("2026-04-26"), "2026-04-26T23:59:59Z");
    assert_eq!(learning_plan_id("2026-04-26"), "learning_plan_2026-04-26");
}

#[test]
fn profile_housekeeping() {
    assert_eq!(check_api_key(" "), Err("LLM API key is empty".to_string()));
    assert_eq!(check_api_key("sk"), Ok(()));
    assert_eq!(check_profile_deletion(1), Err("至少保留一个 LLM 配置。".to_string()));
    assert_eq!(check_profile_deletion(2), Ok(()));
    let profiles = vec![("a".to_string(), false), ("b".to_string(), true)];
    assert!(profile_was_default(&profiles, "b"));
    assert!(!profile_was_default(&profiles, "a"));
    assert!(!profile_was_default(&profiles, "zzz"));
    assert!(needs_default_profile(&vec![false, false]));
    assert!(!needs_default_profile(&vec![false, true]));
    assert_eq!(llm_profile_id(&Some("work".to_string())), "work");
    assert!(llm_profile_id(&Some("  ".to_string())).starts_with("llm_profile_"));
    assert!(llm_profile_id(&None).ends_with("_0"));
}

#[test]
fn scenes_join_courses_once() {
    assert_eq!(check_course_choice("  "), Err("请选择要加入的课程。".to_string()));
    assert_eq!(check_course_choice("course_1"), Ok(()));
    assert!(scene_can_join_course("succeeded", false));
    assert!(!scene_can_join_course("succeeded", true));
    assert!(!scene_can_join_course("failed", false));
    assert_eq!(scene_sentence_note("两个人讨论计划。"), "AI 场景课：两个人讨论计划。");
    assert_eq!(scene_topic(" "), "a realistic daily situation");
    assert_eq!(scene_topic(" office "), "office");
    assert_eq!(scene_title(""), "AI 场景对话");
}

#[test]
fn batch_summary_counts_plans() {
    let summary = batch_coverage_summary(SceneBatchTally { succeeded: 2, failed: 1 });
    assert_eq!(
        summary,
        JsonValue::Object(vec![
            ("succeeded".to_string(), JsonValue::Number("2".to_string())),
            ("failed".to_string(), JsonValue::Number("1".to_string())),
            ("total".to_string(), JsonValue::Number("3".to_string())),
        ])
    );
}

#[test]
fn copies_targets() {
    let t = VocabularyTarget {
        id: "w".to_string(),
        text: "keep".to_string(),
        normalized_text: "keep".to_string(),
        meaning: "保持".to_string(),
        difficulty: "A1".to_string(),
        weak_score: 2,
    };
    let c = clone_target(&t);
    assert_eq!((c.id, c.text, c.weak_score), ("w".to_string(), "keep".to_string(), 2));
}
