use momolite::clock::{
    date_of_reading, format_unindexed_id, generated_id_unindexed, instant_of_nanos, parse_review_time, ReviewInstant,
};
use momolite::db::{memory_rating_step, vocabulary_review_update};
use momolite::llm::{plan_scene_lessons, scene_batch_topics, VocabularyTarget};
use momolite::sync::blob_json;
use momolite::json::JsonValue;

fn target(id: &str, text: &str) -> VocabularyTarget {
    VocabularyTarget {
        id: id.to_string(),
        text: text.to_string(),
        normalized_text: text.to_string(),
        meaning: String::new(),
        difficulty: "B1".to_string(),
        weak_score: 0,
    }
}

#[test]
fn instants_come_from_nanosecond_readings() {
    let i = instant_of_nanos(1_700_000_000_123_456_789).expect("in range");
    assert_eq!(i.seconds, 1_700_000_000);
    assert_eq!(i.nanos, 123_456_789);
    let zero = instant_of_nanos(0).expect("epoch");
    assert_eq!((zero.seconds, zero.nanos), (0, 0));
    let last = instant_of_nanos(8_210_266_876_799 * 1_000_000_000 + 999_999_999).expect("last second");
    assert_eq!(last.seconds, 8_210_266_876_799);
    assert!(instant_of_nanos(8_210_266_876_800 * 1_000_000_000).is_none());
    assert!(instant_of_nanos(u128::MAX).is_none());
}

#[test]
fn dates_come_from_clock_readings() {
    assert_eq!(date_of_reading(None), "1970-01-01");
    assert_eq!(date_of_reading(Some(ReviewInstant { seconds: 0, nanos: 0 })), "1970-01-01");
    assert_eq!(date_of_reading(Some(ReviewInstant { seconds: 1_777_197_600, nanos: 5 })), "2026-04-26");
    assert_eq!(date_of_reading(Some(ReviewInstant { seconds: 86_399, nanos: 0 })), "1970-01-01");
    assert_eq!(date_of_reading(Some(ReviewInstant { seconds: 86_400, nanos: 0 })), "1970-01-02");
    assert_eq!(date_of_reading(Some(ReviewInstant { seconds: 8_210_266_876_800, nanos: 0 })), "1970-01-01");
}

#[test]
fn chrono_represents_exactly_the_stated_range() {
    assert!(chrono::DateTime::<chrono::Utc>::from_timestamp(-8_334_601_228_800, 0).is_some());
    assert!(chrono::DateTime::<chrono::Utc>::from_timestamp(-8_334_601_228_801, 0).is_none());
    assert!(chrono::DateTime::<chrono::Utc>::from_timestamp(8_210_266_876_799, 0).is_some());
    assert!(chrono::DateTime::<chrono::Utc>::from_timestamp(8_210_266_876_800, 0).is_none());
    assert_eq!(parse_review_time("-8334601228800").seconds, -8_334_601_228_800);
    assert_eq!(parse_review_time("8210266876799").seconds, 8_210_266_876_799);
    let fallback = parse_review_time("8210266876800");
    assert!(fallback.seconds >= 0 && fallback.seconds < 8_210_266_876_800);
    assert!(fallback.nanos < 1_000_000_000);
    let unreadable = parse_review_time("yesterday");
    assert!(unreadable.seconds > 1_700_000_000);
}

#[test]
fn unindexed_ids_carry_the_reading() {
    assert_eq!(format_unindexed_id("device", 1_700_000_000_000_000_000), "device_1700000000000000000");
    assert_eq!(format_unindexed_id("change", 0), "change_0");
    let id = generated_id_unindexed("device");
    let digits = id.strip_prefix("device_").expect("prefix");
    assert!(digits.parse::<u128>().expect("number") > 1_700_000_000_000_000_000);
}

#[test]
fn blank_topics_plan_daily_life_lessons() {
    let topics = scene_batch_topics(&vec!["  ".to_string(), "".to_string()]);
    assert!(topics.is_empty());
    let core: Vec<VocabularyTarget> = (0..12).map(|i| target(&format!("c{i}"), &format!("core{i}"))).collect();
    let lessons = plan_scene_lessons(&core, &[], &topics);
    assert_eq!(lessons.len(), 2);
    assert_eq!(lessons[0].topic, "daily life");
    assert_eq!(lessons[1].title, "第 2 课：daily life");
    assert!(lessons[1].support_targets.is_empty());
}

#[test]
fn review_arithmetic_near_the_bounds() {
    let u = vocabulary_review_update(i64::MAX, i64::MIN, "again", "").expect("again");
    assert_eq!(u.familiarity, 100);
    assert_eq!(u.weak_score, 0);
    let u = vocabulary_review_update(i64::MIN, i64::MAX, "good", "").expect("good");
    assert_eq!(u.familiarity, 0);
    assert_eq!(u.weak_score, i64::MAX - 1);
    assert_eq!(vocabulary_review_update(i64::MAX, i64::MAX, "sometimes", "").err(), Some("invalid vocabulary rating".to_string()));
    let step = memory_rating_step("good", true, i64::MAX).expect("good");
    assert_eq!(step.lapse_count, i64::MAX);
    assert_eq!(step.state, "review");
    let step = memory_rating_step("easy", false, i64::MAX).expect("easy");
    assert_eq!(step.state, "review");
    assert_eq!(memory_rating_step("later", true, i64::MAX).err(), Some("invalid vocabulary rating".to_string()));
}

#[test]
fn blobs_are_standard_padded_base64() {
    let b64 = |bytes: &[u8]| match blob_json(bytes) {
        JsonValue::Object(m) => match &m[0].1 {
            JsonValue::Str(s) => s.clone(),
            _ => panic!("not a string"),
        },
        _ => panic!("not an object"),
    };
    assert_eq!(b64(b""), "");
    assert_eq!(b64(b"M"), "TQ==");
    assert_eq!(b64(b"Ma"), "TWE=");
    assert_eq!(b64(b"Man"), "TWFu");
    assert_eq!(b64(&[0xfb, 0xff, 0xbf]), "+/+/");
}

