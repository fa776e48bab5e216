use momolite::db::{
    daily_plan_numbers, import_book_header, intensity_defaults, learning_plan_intensity, memory_rating_step,
    plan_vocabulary_items, review_count_hint, sentence_review_outcome, vocabulary_queue_limit,
    vocabulary_review_update, wrong_indexes_from_json, wrong_indexes_json, count_import_actions,
    ImportVocabularyBookRequest, ReviewSubmission,
};
use momolite::vocab::{
    apply_vocabulary_field, clamp_score, empty_vocabulary_entry, normalize_vocabulary_text, parse_field_line,
    parse_vocabulary_book_markdown,
};

#[test]
fn parses_markdown_vocabulary_book() {
    let raw = r#"
# CET4 Week 1

## abandon
- 中文释义：放弃；抛弃
- 音标：/əˈbændən/
- 词性：verb
- 例句：She had to abandon the plan.
- 词根词缀：a- 表示离开
- 近义词：give up, quit
- 反义词：keep
- 形象记忆：把计划丢在路边
- 场景标签：study, decision
- 难度：B1

## empty
- 音标：/ˈempti/
"#;

    let (title, entries, skipped) = parse_vocabulary_book_markdown(raw);
    assert_eq!(title, Some("CET4 Week 1".to_string()));
    assert_eq!(entries.len(), 1);
    assert_eq!(skipped, 1);
    assert_eq!(entries[0].text, "abandon");
    assert_eq!(entries[0].primary_meaning, "放弃；抛弃");
    assert_eq!(entries[0].synonyms, "give up, quit");
    assert_eq!(normalize_vocabulary_text("  Abandon!  "), "abandon");
}

#[test]
fn markdown_sections_are_either_entries_or_skipped() {
    let raw = "## one\n- 释义：一\n## two\n## three\n- 中文: 三\n## four\n- meaning: 四\n";
    let (title, entries, skipped) = parse_vocabulary_book_markdown(raw);
    assert_eq!(title, None);
    assert_eq!(entries.len() as i64 + skipped, 4);
    assert_eq!(entries.len(), 2);
    assert_eq!(skipped, 2);
    assert_eq!(entries[0].text, "one");
    assert_eq!(entries[1].primary_meaning, "三");
}

#[test]
fn clamps_scores_into_range() {
    assert_eq!(clamp_score(120, 0, 100), 100);
    assert_eq!(clamp_score(-5, 0, 100), 0);
    assert_eq!(clamp_score(42, 0, 100), 42);
}

#[test]
fn reads_field_lines() {
    assert_eq!(parse_field_line("- 中文释义：放弃"), Some(("中文释义".to_string(), "放弃".to_string())));
    assert_eq!(parse_field_line("* meaning: give up"), Some(("meaning".to_string(), "give up".to_string())));
    assert_eq!(parse_field_line("no bullet: here"), None);
    assert_eq!(parse_field_line("- key:"), None);
}

#[test]
fn fills_vocabulary_fields_by_key() {
    let mut entry = empty_vocabulary_entry("abandon".to_string(), 4);
    assert_eq!(entry.source_line, 4);
    assert_eq!(entry.primary_meaning, "");
    apply_vocabulary_field(&mut entry, "近义词", "give up".to_string());
    apply_vocabulary_field(&mut entry, "unknown key", "ignored".to_string());
    assert_eq!(entry.synonyms, "give up");
    assert_eq!(entry.text, "abandon");
}

#[test]
fn vocabulary_card_review_moves_scores() {
    let u = vocabulary_review_update(95, 0, "easy", "  ").expect("easy");
    assert_eq!(u.familiarity, 100);
    assert_eq!(u.weak_score, 0);
    assert_eq!(u.wrong_increment, 0);
    assert_eq!(u.mode, "card");
    let u = vocabulary_review_update(10, 1, "again", "listening").expect("again");
    assert_eq!(u.familiarity, 0);
    assert_eq!(u.weak_score, 4);
    assert_eq!(u.wrong_increment, 1);
    assert_eq!(u.mode, "listening");
    assert_eq!(vocabulary_review_update(10, 1, "maybe", "").err(), Some("invalid vocabulary rating".to_string()));
}

#[test]
fn memory_rating_moves_state() {
    let s = memory_rating_step("easy", true, 1).expect("easy");
    assert_eq!(s.state, "mastered");
    assert_eq!(s.lapse_count, 1);
    assert!(s.success);
    let s = memory_rating_step("easy", false, 0).expect("easy first");
    assert_eq!(s.state, "review");
    let s = memory_rating_step("hard", true, 2).expect("hard");
    assert_eq!(s.state, "learning");
    assert_eq!(s.lapse_count, 3);
    assert!(!s.success);
    let s = memory_rating_step("again", false, 0).expect("again");
    assert_eq!(s.state, "relearning");
    assert_eq!(memory_rating_step("fine", false, 0).err(), Some("invalid vocabulary rating".to_string()));
    assert_eq!(review_count_hint(true, 2), 3);
    assert_eq!(review_count_hint(false, 2), 0);
}

#[test]
fn record_review_updates_sentence_log_and_daily_stats() {
    let review = ReviewSubmission {
        id: "review_1".to_string(),
        sentence_id: "sentence_1".to_string(),
        user_answer: "The market is weak.".to_string(),
        is_correct: false,
        wrong_indexes: vec![3],
        rating: "again".to_string(),
        reviewed_at: "2026-04-26T10:00:00".to_string(),
        interval_minutes: 10,
        next_review_at: Some("2026-04-26T10:10:00".to_string()),
    };
    let outcome = sentence_review_outcome("new", &review);
    assert_eq!(outcome.next_status, "learning");
    assert_eq!(outcome.error_increment, 1);
    assert_eq!(outcome.new_count_increment, 1);
    assert_eq!(outcome.stats_date, "2026-04-26");
    assert_eq!(outcome.vocabulary_rating, "again");
    assert_eq!(outcome.weak_delta, 2);
    assert_eq!(wrong_indexes_json(&review.wrong_indexes), "[3]");
}

#[test]
fn correct_good_review_masters_sentence() {
    let review = ReviewSubmission {
        id: "r".to_string(),
        sentence_id: "s".to_string(),
        user_answer: "ok".to_string(),
        is_correct: true,
        wrong_indexes: vec![],
        rating: "good".to_string(),
        reviewed_at: "2026-05".to_string(),
        interval_minutes: 0,
        next_review_at: None,
    };
    let outcome = sentence_review_outcome("learning", &review);
    assert_eq!(outcome.next_status, "mastered");
    assert_eq!(outcome.error_increment, 0);
    assert_eq!(outcome.new_count_increment, 0);
    assert_eq!(outcome.stats_date, "2026-05");
    assert_eq!(outcome.vocabulary_rating, "good");
    assert_eq!(outcome.weak_delta, -1);
}

#[test]
fn wrong_indexes_round_trip_through_json() {
    assert_eq!(wrong_indexes_json(&vec![]), "[]");
    assert_eq!(wrong_indexes_json(&vec![0, 12, 7]), "[0,12,7]");
    assert_eq!(wrong_indexes_from_json("[0,12,7]"), vec![0, 12, 7]);
    assert_eq!(wrong_indexes_from_json("[1, \"x\"]"), Vec::<usize>::new());
    assert_eq!(wrong_indexes_from_json("not json"), Vec::<usize>::new());
}

#[test]
fn plans_learning_days() {
    assert_eq!(learning_plan_intensity("light"), "light");
    assert_eq!(learning_plan_intensity("crazy"), "standard");
    assert_eq!(intensity_defaults("intensive"), (50, 300, 5));
    assert_eq!(intensity_defaults("standard"), (25, 160, 3));
    let p = daily_plan_numbers(25, 160, 200);
    assert_eq!(p.backlog_count, 40);
    assert_eq!(p.new_word_target, 12);
    let p = daily_plan_numbers(25, 160, 10);
    assert_eq!(p.backlog_count, -150);
    assert_eq!(p.new_word_target, 25);
    assert_eq!(vocabulary_queue_limit(0), 20);
    assert_eq!(vocabulary_queue_limit(500), 100);
    assert_eq!(vocabulary_queue_limit(30), 30);
}

#[test]
fn import_reuses_existing_and_repeated_words() {
    let keys = vec!["abandon".to_string(), "".to_string(), "keep".to_string(), "abandon".to_string()];
    let existing = vec![Some("item_a".to_string()), None, None, Some("item_a".to_string())];
    let actions = plan_vocabulary_items(&keys, &existing);
    assert_eq!(actions.len(), 3);
    assert_eq!(actions[0].entry_index, 0);
    assert!(actions[0].reuses_existing);
    assert_eq!(actions[0].vocabulary_item_id, "item_a");
    assert_eq!(actions[1].entry_index, 2);
    assert!(!actions[1].reuses_existing);
    assert_eq!(actions[2].entry_index, 3);
    assert!(actions[2].reuses_existing);
    assert_eq!(count_import_actions(&actions), (1, 2));
}

#[test]
fn import_header_falls_back_to_title() {
    let request = ImportVocabularyBookRequest {
        name: "  ".to_string(),
        source: "".to_string(),
        raw_text: String::new(),
        note: String::new(),
        imported_at: " 1700000000 ".to_string(),
    };
    let header = import_book_header(&request, Some("CET4 Week 1".to_string()), 2).expect("header");
    assert_eq!(header.name, "CET4 Week 1");
    assert_eq!(header.source, "markdown");
    assert_eq!(header.imported_at, "1700000000");
    assert!(import_book_header(&request, None, 0).is_err());
}
