//! The study records (course packs, lessons, sentences, reviews, vocabulary) and the rules
//! that decide how a review, an import or a daily plan changes them.

use std::collections::HashMap;
use vstd::prelude::*;
use crate::clock::{generated_id, is_generated_id, now_string};
use crate::text::{chars_of, decimal, str_eq, string_of_range, trim, trim_bounds};

verus! {

/// Everything the study screens need at start-up.
pub struct AppState {
    pub active_course_pack_id: String,
    pub course_packs: Vec<CoursePack>,
    pub sentences: Vec<SentenceItem>,
    pub reviews: Vec<ReviewLog>,
    pub stats: HashMap<String, DailyStats>,
}

pub struct CoursePack {
    pub id: String,
    pub name: String,
    pub language: String,
    pub daily_new_target: i64,
    pub created_at: String,
    pub updated_at: Option<String>,
}

pub struct SentenceItem {
    pub id: String,
    pub course_pack_id: String,
    pub lesson_title: String,
    pub english: String,
    pub chinese: String,
    pub phonetic: String,
    pub note: String,
    pub status: String,
    pub favorite: bool,
    pub show_count: i64,
    pub review_count: i64,
    pub error_count: i64,
    pub next_review_at: Option<String>,
    pub created_at: String,
    pub updated_at: Option<String>,
}

pub struct ReviewLog {
    pub id: String,
    pub sentence_id: String,
    pub course_pack_id: String,
    pub user_answer: String,
    pub is_correct: bool,
    pub wrong_indexes: Vec<usize>,
    pub rating: String,
    pub reviewed_at: String,
    pub interval_minutes: i64,
}

pub struct DailyStats {
    pub new_count: i64,
    pub review_count: i64,
    pub study_minutes: i64,
}

pub struct VocabularyBook {
    pub id: String,
    pub name: String,
    pub source: String,
    pub imported_at: String,
    pub note: String,
    pub item_count: i64,
}

pub struct VocabularyItem {
    pub id: String,
    pub text: String,
    pub normalized_text: String,
    pub primary_meaning: String,
    pub phonetic: String,
    pub part_of_speech: String,
    pub example: String,
    pub example_cn: String,
    pub roots: String,
    pub word_family: String,
    pub synonyms: String,
    pub antonyms: String,
    pub memory_hint: String,
    pub tags: String,
    pub difficulty: String,
    pub familiarity: i64,
    pub weak_score: i64,
    pub review_count: i64,
    pub wrong_count: i64,
    pub last_reviewed_at: Option<String>,
    pub next_review_at: Option<String>,
    pub created_at: String,
    pub updated_at: String,
}

pub struct VocabularyBookDetail {
    pub book: VocabularyBook,
    pub items: Vec<VocabularyItem>,
}

pub struct ImportVocabularyBookRequest {
    pub name: String,
    pub source: String,
    pub raw_text: String,
    pub note: String,
    pub imported_at: String,
}

pub struct ImportVocabularyBookResult {
    pub book: VocabularyBook,
    pub items: Vec<VocabularyItem>,
    pub imported_count: i64,
    pub reused_count: i64,
    pub skipped_count: i64,
}

pub struct VocabularyReviewSubmission {
    pub vocabulary_item_id: String,
    pub mode: String,
    pub rating: String,
    pub reviewed_at: String,
    pub next_review_at: String,
}

pub struct DailyLearningPlan {
    pub id: String,
    pub plan_date: String,
    pub intensity: String,
    pub new_word_target: i64,
    pub review_limit: i64,
    pub scene_lesson_target: i64,
    pub due_count: i64,
    pub weak_count: i64,
    pub backlog_count: i64,
    pub plan_json: String,
    pub explanation: String,
    pub created_at: String,
    pub updated_at: String,
}

pub struct SaveLearningPlanSettingsRequest {
    pub intensity: String,
}

pub struct NewCoursePack {
    pub id: String,
    pub name: String,
    pub language: String,
    pub daily_new_target: i64,
    pub created_at: String,
}

pub struct NewLesson {
    pub id: String,
    pub course_pack_id: String,
    pub title: String,
    pub sort_order: i64,
    pub created_at: String,
}

pub struct NewSentenceItem {
    pub id: String,
    pub lesson_id: String,
    pub english: String,
    pub chinese: String,
    pub phonetic: String,
    pub note: String,
    pub created_at: String,
}

pub struct ReviewSubmission {
    pub id: String,
    pub sentence_id: String,
    pub user_answer: String,
    pub is_correct: bool,
    pub wrong_indexes: Vec<usize>,
    pub rating: String,
    pub reviewed_at: String,
    pub interval_minutes: i64,
    pub next_review_at: Option<String>,
}

/// The active course pack is the first one listed (the newest), or none.
pub fn active_course_pack_id(course_packs: &Vec<CoursePack>) -> (r: String)
    ensures
        course_packs.len() > 0 ==> r@ == course_packs@[0].id@,
        course_packs.len() == 0 ==> r@ == Seq::<char>::empty(),
{
    if course_packs.len() > 0 {
        course_packs[0].id.clone()
    } else {
        String::new()
    }
}


/// The column list that every vocabulary-item query selects, in the order the rows are read.
pub fn vocabulary_item_select_sql() -> (r: &'static str)
    ensures
        r@ == "
    SELECT
        vocabulary_items.id,
        vocabulary_items.text,
        vocabulary_items.normalized_text,
        vocabulary_items.primary_meaning,
        vocabulary_items.phonetic,
        vocabulary_items.part_of_speech,
        vocabulary_items.example,
        vocabulary_items.example_cn,
        vocabulary_items.roots,
        vocabulary_items.word_family,
        vocabulary_items.synonyms,
        vocabulary_items.antonyms,
        vocabulary_items.memory_hint,
        vocabulary_items.tags,
        vocabulary_items.difficulty,
        vocabulary_items.familiarity,
        vocabulary_items.weak_score,
        vocabulary_items.review_count,
        vocabulary_items.wrong_count,
        vocabulary_items.last_reviewed_at,
        vocabulary_items.next_review_at,
        vocabulary_items.created_at,
        vocabulary_items.updated_at
    FROM vocabulary_items
    "@,
{
    "
    SELECT
        vocabulary_items.id,
        vocabulary_items.text,
        vocabulary_items.normalized_text,
        vocabulary_items.primary_meaning,
        vocabulary_items.phonetic,
        vocabulary_items.part_of_speech,
        vocabulary_items.example,
        vocabulary_items.example_cn,
        vocabulary_items.roots,
        vocabulary_items.word_family,
        vocabulary_items.synonyms,
        vocabulary_items.antonyms,
        vocabulary_items.memory_hint,
        vocabulary_items.tags,
        vocabulary_items.difficulty,
        vocabulary_items.familiarity,
        vocabulary_items.weak_score,
        vocabulary_items.review_count,
        vocabulary_items.wrong_count,
        vocabulary_items.last_reviewed_at,
        vocabulary_items.next_review_at,
        vocabulary_items.created_at,
        vocabulary_items.updated_at
    FROM vocabulary_items
    "
}

/// The number of words that today's vocabulary queue holds: 20 when the caller asks for none
/// or a negative number, else the request capped at 100.
pub fn vocabulary_queue_limit(limit: i64) -> (r: i64)
    ensures
        r == (if limit <= 0 { 20 } else if limit > 100 { 100 } else { limit }),
        1 <= r <= 100,
{
    if limit <= 0 {
        20
    } else if limit > 100 {
        100
    } else {
        limit
    }
}

/// The four answers a learner can give to a card.
pub enum Rating {
    Again,
    Hard,
    Good,
    Easy,
}

/// The rating that a string names.
pub open spec fn rating_of(s: Seq<char>) -> Option<Rating> {
    if s == "again"@ {
        Some(Rating::Again)
    } else if s == "hard"@ {
        Some(Rating::Hard)
    } else if s == "good"@ {
        Some(Rating::Good)
    } else if s == "easy"@ {
        Some(Rating::Easy)
    } else {
        None
    }
}

/// Reads a rating name.
pub fn parse_rating(s: &str) -> (r: Option<Rating>)
    ensures
        r == rating_of(s@),
{
    if str_eq(s, "again") {
        Some(Rating::Again)
    } else if str_eq(s, "hard") {
        Some(Rating::Hard)
    } else if str_eq(s, "good") {
        Some(Rating::Good)
    } else if str_eq(s, "easy") {
        Some(Rating::Easy)
    } else {
        None
    }
}

/// Familiarity change, weakness change and wrong-answer increment of a card rating.
pub open spec fn card_rating_deltas(r: Rating) -> (int, int, int) {
    match r {
        Rating::Again => (-20, 3, 1),
        Rating::Hard => (-5, 2, 1),
        Rating::Good => (10, -1, 0),
        Rating::Easy => (20, -2, 0),
    }
}

/// The new counters of a vocabulary card after a review.
pub struct VocabularyReviewUpdate {
    pub familiarity: i64,
    pub weak_score: i64,
    pub wrong_increment: i64,
    pub mode: String,
}

/// `v` clamped into `[lo, hi]`.
pub open spec fn clamp_int(v: int, lo: int, hi: int) -> int {
    if v < lo { lo } else if v > hi { hi } else { v }
}

/// How a card review changes the card: familiarity moves by the rating's delta and stays in
/// `[0, 100]`, weakness moves by its delta and stays non-negative, a wrong answer ("again",
/// "hard") counts once; an empty mode becomes `card`. An unknown rating is refused.
pub fn vocabulary_review_update(familiarity: i64, weak_score: i64, rating: &str, mode: &str) -> (r: Result<VocabularyReviewUpdate, String>)
    requires
        rating_of(rating@) matches Some(k) ==> i64::MIN <= familiarity + card_rating_deltas(k).0 <= i64::MAX
            && i64::MIN <= weak_score + card_rating_deltas(k).1 <= i64::MAX,
    ensures
        match rating_of(rating@) {
            None => r is Err && r->Err_0@ == "invalid vocabulary rating"@,
            Some(k) => r is Ok && {
                let u = r->Ok_0;
                let (df, dw, dx) = card_rating_deltas(k);
                &&& u.familiarity == clamp_int(familiarity + df, 0, 100)
                &&& u.weak_score == clamp_int(weak_score + dw, 0, i64::MAX as int)
                &&& u.wrong_increment == dx
                &&& u.mode@ == (if trim(mode@).len() == 0 { "card"@ } else { trim(mode@) })
                &&& 0 <= u.familiarity <= 100
                &&& u.weak_score >= 0
            },
        },
{
    let (df, dw, dx): (i64, i64, i64) = match parse_rating(rating) {
        Some(Rating::Again) => (-20, 3, 1),
        Some(Rating::Hard) => (-5, 2, 1),
        Some(Rating::Good) => (10, -1, 0),
        Some(Rating::Easy) => (20, -2, 0),
        None => return Err(String::from_str("invalid vocabulary rating")),
    };
    let f = familiarity + df;
    let next_familiarity = if f < 0 { 0 } else if f > 100 { 100 } else { f };
    let w = weak_score + dw;
    let next_weak = if w < 0 { 0 } else { w };
    let mv = chars_of(mode);
    let (a, b) = trim_bounds(&mv);
    let m = if a == b { String::from_str("card") } else { string_of_range(&mv, a, b) };
    Ok(VocabularyReviewUpdate { familiarity: next_familiarity, weak_score: next_weak, wrong_increment: dx, mode: m })
}

/// How each rating moves a card. "again" and "hard" are wrong answers: familiarity falls (by
/// 20 and by 5), weakness grows (by 3 and by 2) and one wrong answer is counted. "good" and
/// "easy" are right answers: familiarity grows (by 10 and by 20), weakness falls (by 1 and
/// by 2) and no wrong answer is counted. The names read as those ratings, and so, for a card
/// whose familiarity is in `[0, 100]` and whose weakness is not negative, a wrong answer never
/// raises familiarity nor lowers weakness, and a right one never lowers familiarity nor raises
/// weakness.
pub proof fn law_rating_moves_card(k: Rating, familiarity: int, weak_score: int)
    requires
        0 <= familiarity <= 100,
        0 <= weak_score,
    ensures
        rating_of("again"@) == Some(Rating::Again),
        rating_of("hard"@) == Some(Rating::Hard),
        rating_of("good"@) == Some(Rating::Good),
        rating_of("easy"@) == Some(Rating::Easy),
        card_rating_deltas(Rating::Again) == (-20int, 3int, 1int),
        card_rating_deltas(Rating::Hard) == (-5int, 2int, 1int),
        card_rating_deltas(Rating::Good) == (10int, -1int, 0int),
        card_rating_deltas(Rating::Easy) == (20int, -2int, 0int),
        (k is Again || k is Hard) ==> {
            &&& clamp_int(familiarity + card_rating_deltas(k).0, 0, 100) < familiarity || familiarity == 0
            &&& clamp_int(weak_score + card_rating_deltas(k).1, 0, i64::MAX as int) > weak_score
                || weak_score >= i64::MAX - 2
            &&& card_rating_deltas(k).2 == 1
        },
        (k is Good || k is Easy) ==> {
            &&& clamp_int(familiarity + card_rating_deltas(k).0, 0, 100) > familiarity || familiarity == 100
            &&& clamp_int(weak_score + card_rating_deltas(k).1, 0, i64::MAX as int) <= weak_score
            &&& card_rating_deltas(k).2 == 0
        },
{
    reveal_strlit("again");
    reveal_strlit("hard");
    reveal_strlit("good");
    reveal_strlit("easy");
    assert("hard"@[0] != "again"@[0]);
    assert("good"@[0] != "again"@[0]);
    assert("good"@[0] != "hard"@[0]);
    assert("easy"@[0] != "again"@[0]);
    assert("easy"@[0] != "hard"@[0]);
    assert("easy"@[0] != "good"@[0]);
}

/// What a sentence review changes beyond the review log itself.
pub struct SentenceReviewOutcome {
    /// The sentence's new status: `mastered` or `learning`.
    pub next_status: String,
    /// 1 when the answer was wrong.
    pub error_increment: i64,
    /// The rating that the sentence's linked words receive.
    pub vocabulary_rating: String,
    /// The change of the linked words' weakness.
    pub weak_delta: i64,
    /// 1 when the sentence was still new before this review.
    pub new_count_increment: i64,
    /// The day (first ten characters of the review time) whose statistics count the review.
    pub stats_date: String,
}

/// A correct answer rated "good" or "easy" masters the sentence.
pub open spec fn review_masters(is_correct: bool, rating: Seq<char>) -> bool {
    is_correct && (rating == "good"@ || rating == "easy"@)
}

/// How a sentence review moves the sentence, its linked words and the day's statistics.
pub fn sentence_review_outcome(previous_status: &str, review: &ReviewSubmission) -> (r: SentenceReviewOutcome)
    ensures
        r.next_status@ == (if review_masters(review.is_correct, review.rating@) { "mastered"@ } else { "learning"@ }),
        r.error_increment == (if review.is_correct { 0int } else { 1int }),
        r.vocabulary_rating@ == (if review.is_correct { review.rating@ } else { "again"@ }),
        r.weak_delta == (if review.is_correct { -1int } else { 2int }),
        r.new_count_increment == (if previous_status@ == "new"@ { 1int } else { 0int }),
        r.stats_date@ == review.reviewed_at@.take(if review.reviewed_at@.len() < 10 { review.reviewed_at@.len() as int } else { 10int }),
{
    let masters = review.is_correct && (str_eq(review.rating.as_str(), "good") || str_eq(review.rating.as_str(), "easy"));
    let next_status = if masters { String::from_str("mastered") } else { String::from_str("learning") };
    let vocabulary_rating = if review.is_correct { review.rating.clone() } else { String::from_str("again") };
    let rv = chars_of(review.reviewed_at.as_str());
    let take = if rv.len() < 10 { rv.len() } else { 10 };
    let stats_date = string_of_range(&rv, 0, take);
    SentenceReviewOutcome {
        next_status,
        error_increment: if review.is_correct { 0 } else { 1 },
        vocabulary_rating,
        weak_delta: if review.is_correct { -1 } else { 2 },
        new_count_increment: if str_eq(previous_status, "new") { 1 } else { 0 },
        stats_date,
    }
}

/// The intensity a saved plan takes: `light` and `intensive` are kept, anything else is
/// `standard`.
pub fn learning_plan_intensity(requested: &str) -> (r: &'static str)
    ensures
        r@ == (if requested@ == "light"@ { "light"@ } else if requested@ == "intensive"@ { "intensive"@ } else { "standard"@ }),
{
    if str_eq(requested, "light") {
        "light"
    } else if str_eq(requested, "intensive") {
        "intensive"
    } else {
        "standard"
    }
}

/// Daily new words, daily review limit and scene lessons of an intensity.
pub fn intensity_defaults(intensity: &str) -> (r: (i64, i64, i64))
    ensures
        r == (if intensity@ == "light"@ { (12i64, 80i64, 1i64) } else if intensity@ == "intensive"@ { (50i64, 300i64, 5i64) } else { (25i64, 160i64, 3i64) }),
{
    if str_eq(intensity, "light") {
        (12, 80, 1)
    } else if str_eq(intensity, "intensive") {
        (50, 300, 5)
    } else {
        (25, 160, 3)
    }
}

/// The numbers of a day's plan.
pub struct DailyPlanNumbers {
    /// Due words beyond the review limit.
    pub backlog_count: i64,
    /// New words for today: halved while there is a backlog.
    pub new_word_target: i64,
    /// Why the plan looks the way it does.
    pub explanation: String,
}

/// `a - b`, saturating at the bounds of `i64`.
pub open spec fn saturating_sub_i64(a: int, b: int) -> int {
    if a - b > i64::MAX { i64::MAX as int } else if a - b < i64::MIN { i64::MIN as int } else { a - b }
}

/// The plan for a day with `due_count` due words: words due beyond the review limit form a
/// backlog, and while there is one the new-word target is halved (never below zero).
pub fn daily_plan_numbers(daily_new_target: i64, daily_review_limit: i64, due_count: i64) -> (r: DailyPlanNumbers)
    ensures
        r.backlog_count == saturating_sub_i64(due_count as int, daily_review_limit as int),
        r.new_word_target == (if r.backlog_count > 0 {
            if daily_new_target > 0 { daily_new_target / 2 } else { 0 }
        } else {
            daily_new_target as int
        }),
        r.explanation@ == (if r.backlog_count > 0 {
            "今天先处理到期词和弱词，新词自动降载，避免复习债滚雪球。"@
        } else {
            "今天按当前强度推进：先背新词，再清理到期词，最后把核心词送进场景课。"@
        }),
{
    let d: i128 = due_count as i128 - daily_review_limit as i128;
    let backlog: i64 = if d > i64::MAX as i128 { i64::MAX } else if d < i64::MIN as i128 { i64::MIN } else { d as i64 };
    let new_word_target = if backlog > 0 {
        if daily_new_target > 0 { daily_new_target / 2 } else { 0 }
    } else {
        daily_new_target
    };
    let explanation = if backlog > 0 {
        String::from_str("今天先处理到期词和弱词，新词自动降载，避免复习债滚雪球。")
    } else {
        String::from_str("今天按当前强度推进：先背新词，再清理到期词，最后把核心词送进场景课。")
    };
    DailyPlanNumbers { backlog_count: backlog, new_word_target, explanation }
}


/// How one parsed entry of an imported book lands in the vocabulary.
pub struct VocabularyImportAction {
    /// Position of the entry in the parsed book (its sort order in the book).
    pub entry_index: usize,
    /// The lookup key of the entry's headword.
    pub normalized_text: String,
    /// The vocabulary item that the book entry points at.
    pub vocabulary_item_id: String,
    /// The item already existed (in the store, or earlier in this book) and is updated;
    /// otherwise it is created under `vocabulary_item_id`.
    pub reuses_existing: bool,
}

/// The mathematical content of an import action.
pub struct ImportActionModel {
    pub entry_index: int,
    pub normalized_text: Seq<char>,
    pub vocabulary_item_id: Seq<char>,
    pub reuses_existing: bool,
}

impl View for VocabularyImportAction {
    type V = ImportActionModel;

    open spec fn view(&self) -> ImportActionModel {
        ImportActionModel {
            entry_index: self.entry_index as int,
            normalized_text: self.normalized_text@,
            vocabulary_item_id: self.vocabulary_item_id@,
            reuses_existing: self.reuses_existing,
        }
    }
}

/// The models of a list of actions.
pub open spec fn action_models(v: Seq<VocabularyImportAction>) -> Seq<ImportActionModel> {
    v.map_values(|a: VocabularyImportAction| a@)
}

/// The first of the first `k` actions whose key is `key`.
pub open spec fn first_action_with_key(actions: Seq<ImportActionModel>, key: Seq<char>, k: int) -> Option<int>
    decreases k,
{
    if k <= 0 {
        None
    } else {
        match first_action_with_key(actions, key, k - 1) {
            Some(j) => Some(j),
            None => if actions[k - 1].normalized_text == key { Some(k - 1) } else { None },
        }
    }
}

/// Number of actions among the first `k` that create a new item.
pub open spec fn created_count(actions: Seq<ImportActionModel>, k: int) -> int
    decreases k,
{
    if k <= 0 {
        0
    } else {
        created_count(actions, k - 1) + if actions[k - 1].reuses_existing { 0int } else { 1int }
    }
}

/// Number of keys among the first `n` that are not empty.
pub open spec fn nonempty_count(keys: Seq<Seq<char>>, n: int) -> int
    decreases n,
{
    if n <= 0 {
        0
    } else {
        nonempty_count(keys, n - 1) + if keys[n - 1].len() > 0 { 1int } else { 0int }
    }
}

/// The action at position `k` is the right one for its entry: keyed by the entry's key,
/// reusing the stored item when the store has one, else the item that an earlier entry of
/// this book with the same key created, else creating a fresh `vocab_{nanos}_{index + 1}`.
pub open spec fn import_action_ok(
    actions: Seq<ImportActionModel>,
    keys: Seq<Seq<char>>,
    existing: Seq<Option<Seq<char>>>,
    k: int,
) -> bool {
    let a = actions[k];
    let i = a.entry_index;
    &&& 0 <= i < keys.len()
    &&& keys[i].len() > 0
    &&& a.normalized_text == keys[i]
    &&& match existing[i] {
        Some(id) => a.reuses_existing && a.vocabulary_item_id == id,
        None => match first_action_with_key(actions, keys[i], k) {
            Some(j) => a.reuses_existing && a.vocabulary_item_id == actions[j].vocabulary_item_id,
            None => !a.reuses_existing && is_generated_id(a.vocabulary_item_id, "vocab"@, (i + 1) as nat),
        },
    }
}

proof fn lemma_first_action_prefix(a: Seq<ImportActionModel>, b: Seq<ImportActionModel>, key: Seq<char>, k: int)
    requires
        0 <= k <= a.len(),
        k <= b.len(),
        forall|i: int| 0 <= i < k ==> a[i] == b[i],
    ensures
        first_action_with_key(a, key, k) == first_action_with_key(b, key, k),
        created_count(a, k) == created_count(b, k),
        first_action_with_key(a, key, k) matches Some(j) ==> 0 <= j < k && a[j].normalized_text == key,
    decreases k,
{
    if k > 0 {
        lemma_first_action_prefix(a, b, key, k - 1);
    }
}

/// Decides, entry by entry, whether an imported book's words create new vocabulary items or
/// update existing ones. `keys[i]` is the normalized headword of entry `i` and `existing[i]`
/// the item already stored under that key, if any. Entries with an empty key are left out.
pub fn plan_vocabulary_items(keys: &Vec<String>, existing: &Vec<Option<String>>) -> (r: Vec<VocabularyImportAction>)
    requires
        keys.len() == existing.len(),
        keys.len() < usize::MAX,
    ensures
        ({
            let acts = action_models(r@);
            let ks = keys@.map_values(|k: String| k@);
            let ex = existing@.map_values(|o: Option<String>| match o { Some(s) => Some(s@), None => None });
            &&& forall|k: int| 0 <= k < acts.len() ==> #[trigger] import_action_ok(acts, ks, ex, k)
            &&& forall|k1: int, k2: int| 0 <= k1 < k2 < acts.len() ==> acts[k1].entry_index < acts[k2].entry_index
            &&& forall|i: int| 0 <= i < ks.len() && ks[i].len() > 0 ==> exists|k: int| 0 <= k < acts.len() && acts[k].entry_index == i
            &&& acts.len() == nonempty_count(ks, ks.len() as int)
        }),
{
    let ghost ks = keys@.map_values(|k: String| k@);
    let ghost ex = existing@.map_values(|o: Option<String>| match o { Some(s) => Some(s@), None => None });
    let mut actions: Vec<VocabularyImportAction> = Vec::new();
    let mut i: usize = 0;
    while i < keys.len()
        invariant
            i <= keys.len() == existing.len() < usize::MAX,
            ks == keys@.map_values(|k: String| k@),
            ex == existing@.map_values(|o: Option<String>| match o { Some(s) => Some(s@), None => None }),
            forall|k: int| 0 <= k < actions@.len() ==> #[trigger] import_action_ok(action_models(actions@), ks, ex, k),
            forall|k: int| 0 <= k < actions@.len() ==> actions@[k].entry_index < i,
            forall|k1: int, k2: int| 0 <= k1 < k2 < actions@.len() ==> actions@[k1].entry_index < actions@[k2].entry_index,
            forall|m: int| 0 <= m < i && ks[m].len() > 0 ==> exists|k: int| 0 <= k < actions@.len() && actions@[k].entry_index == m,
            actions@.len() == nonempty_count(ks, i as int),
        decreases keys.len() - i,
    {
        let ghost acts0 = action_models(actions@);
        let ghost exec0 = actions@;
        let key = &keys[i];
        let kv = chars_of(key.as_str());
        assert(ks[i as int] == key@);
        if kv.len() > 0 {
            let (id, reuses) = match &existing[i] {
                Some(id) => {
                    assert(ex[i as int] == Some(id@));
                    (id.clone(), true)
                },
                None => {
                    assert(ex[i as int] is None);
                    let mut found: Option<usize> = None;
                    let mut k: usize = 0;
                    while k < actions.len()
                        invariant
                            k <= actions.len(),
                            acts0 == action_models(actions@),
                            found == (match first_action_with_key(acts0, key@, k as int) { Some(j) => Some(j as usize), None => None::<usize> }),
                            first_action_with_key(acts0, key@, k as int) matches Some(j) ==> 0 <= j < k,
                        decreases actions.len() - k,
                    {
                        if found.is_none() && str_eq(actions[k].normalized_text.as_str(), key.as_str()) {
                            found = Some(k);
                        }
                        k = k + 1;
                    }
                    match found {
                        Some(j) => {
                            assert(first_action_with_key(acts0, key@, acts0.len() as int) == Some(j as int));
                            assert(acts0[j as int].vocabulary_item_id == actions@[j as int].vocabulary_item_id@);
                            (actions[j].vocabulary_item_id.clone(), true)
                        },
                        None => {
                            assert(first_action_with_key(acts0, key@, acts0.len() as int) is None);
                            let g = generated_id("vocab", i + 1);
                            (g, false)
                        },
                    }
                },
            };
            assert(ex[i as int] == (match existing@[i as int] { Some(x) => Some(x@), None => None::<Seq<char>> }));
            assert(match ex[i as int] {
                Some(x) => reuses && id@ == x,
                None => match first_action_with_key(acts0, key@, acts0.len() as int) {
                    Some(j) => reuses && id@ == acts0[j].vocabulary_item_id,
                    None => !reuses && is_generated_id(id@, "vocab"@, (i + 1) as nat),
                },
            });
            let action = VocabularyImportAction {
                entry_index: i,
                normalized_text: key.clone(),
                vocabulary_item_id: id,
                reuses_existing: reuses,
            };
            actions.push(action);
            proof {
                let acts1 = action_models(actions@);
                assert(acts1.len() == acts0.len() + 1);
                assert(forall|m: int| 0 <= m < acts0.len() ==> acts1[m] == acts0[m]);
                assert(acts1[acts0.len() as int] == action@);
                assert(ks[i as int] == key@);
                assert forall|k: int| 0 <= k < acts1.len() implies #[trigger] import_action_ok(acts1, ks, ex, k) by {
                    if k < acts0.len() {
                        assert(import_action_ok(acts0, ks, ex, k));
                        lemma_first_action_prefix(acts0, acts1, ks[acts1[k].entry_index], k);
                        assert(import_action_ok(acts1, ks, ex, k));
                    } else {
                        lemma_first_action_prefix(acts0, acts1, key@, k);
                        assert(acts1[k] == action@);
                        assert(kv@.len() > 0);
                        assert(import_action_ok(acts1, ks, ex, k));
                    }
                }
                assert forall|m: int| 0 <= m < i + 1 && ks[m].len() > 0 implies exists|k: int| 0 <= k < actions@.len() && actions@[k].entry_index == m by {
                    if m == i {
                        assert(actions@[acts0.len() as int].entry_index == m);
                    } else {
                        let k = choose|k: int| 0 <= k < exec0.len() && exec0[k].entry_index == m;
                        assert(actions@[k] == exec0[k]);
                    }
                }
            }
        }
        i = i + 1;
    }
    proof {
        let acts = action_models(actions@);
        assert forall|m: int| 0 <= m < ks.len() && ks[m].len() > 0 implies exists|k: int| 0 <= k < acts.len() && acts[k].entry_index == m by {
            let k = choose|k: int| 0 <= k < actions@.len() && actions@[k].entry_index == m;
            assert(acts[k].entry_index == m);
        }
    }
    actions
}


/// The number of actions that create an item and the number that reuse one.
pub fn count_import_actions(actions: &Vec<VocabularyImportAction>) -> (r: (i64, i64))
    requires
        actions.len() < i64::MAX,
    ensures
        r.0 == created_count(action_models(actions@), actions.len() as int),
        r.0 + r.1 == actions.len(),
{
    let ghost acts = action_models(actions@);
    let mut created: i64 = 0;
    let mut reused: i64 = 0;
    let mut k: usize = 0;
    while k < actions.len()
        invariant
            k <= actions.len() < i64::MAX,
            acts == action_models(actions@),
            created == created_count(acts, k as int),
            created + reused == k,
            0 <= created <= k,
        decreases actions.len() - k,
    {
        if actions[k].reuses_existing {
            reused = reused + 1;
        } else {
            created = created + 1;
        }
        k = k + 1;
    }
    (created, reused)
}

/// The name, source and time under which an imported book is stored.
pub struct ImportBookHeader {
    pub name: String,
    pub source: String,
    pub imported_at: String,
}

/// `s` trimmed, or `fallback` when that is empty.
pub open spec fn trimmed_or(s: Seq<char>, fallback: Seq<char>) -> Seq<char> {
    if trim(s).len() == 0 { fallback } else { trim(s) }
}

fn trimmed_or_else(s: &str, fallback: String) -> (r: String)
    ensures
        r@ == trimmed_or(s@, fallback@),
{
    let v = chars_of(s);
    let (a, b) = trim_bounds(&v);
    if a == b { fallback } else { string_of_range(&v, a, b) }
}

/// The header of an imported book: a book without any complete entry is refused; the name
/// is the requested one, else the book's `# ` title, else "未命名单词书"; the source is the
/// requested one or "markdown"; the import time is the requested one or the current time.
pub fn import_book_header(
    request: &ImportVocabularyBookRequest,
    parsed_title: Option<String>,
    entry_count: usize,
) -> (r: Result<ImportBookHeader, String>)
    ensures
        entry_count == 0 <==> r is Err,
        r matches Err(e) ==> e@ == "没有识别到可导入的单词。请使用 Markdown 格式：## word + 字段列表。"@,
        r matches Ok(h) ==> {
            &&& h.name@ == trimmed_or(request.name@, match parsed_title { Some(t) => t@, None => "未命名单词书"@ })
            &&& h.source@ == trimmed_or(request.source@, "markdown"@)
            &&& (trim(request.imported_at@).len() > 0 ==> h.imported_at@ == trim(request.imported_at@))
            &&& (trim(request.imported_at@).len() == 0 ==> exists|n: u64| h.imported_at@ == decimal(n as nat))
        },
{
    if entry_count == 0 {
        return Err(String::from_str("没有识别到可导入的单词。请使用 Markdown 格式：## word + 字段列表。"));
    }
    let iv = chars_of(request.imported_at.as_str());
    let (a, b) = trim_bounds(&iv);
    let imported_at = if a == b { now_string() } else { string_of_range(&iv, a, b) };
    let title_fallback = match parsed_title {
        Some(t) => t,
        None => String::from_str("未命名单词书"),
    };
    let name = trimmed_or_else(request.name.as_str(), title_fallback);
    let source = trimmed_or_else(request.source.as_str(), String::from_str("markdown"));
    Ok(ImportBookHeader { name, source, imported_at })
}

} // verus!

verus! {

/// How many times a memory state counts as reviewed: once plus its lapses after a first
/// review, none before.
pub fn review_count_hint(has_been_reviewed: bool, lapse_count: i64) -> (r: i64)
    requires
        has_been_reviewed ==> lapse_count < i64::MAX,
    ensures
        r == (if has_been_reviewed { 1 + lapse_count } else { 0 }),
{
    if has_been_reviewed { 1 + lapse_count } else { 0 }
}

/// What a rating does to a word's memory state, apart from its stability, difficulty and
/// timing: the state it moves to, its lapse count, and whether the answer counts as
/// remembered.
pub struct MemoryRatingStep {
    pub state: String,
    pub lapse_count: i64,
    pub success: bool,
}

/// The state a rating moves a word to: `again` → `relearning`, `hard` → `learning`, `good`
/// → `review`, `easy` → `mastered` once the word counts as reviewed at least twice, else
/// `review`.
pub open spec fn memory_state_after(r: Rating, review_count_hint: int) -> Seq<char> {
    match r {
        Rating::Again => "relearning"@,
        Rating::Hard => "learning"@,
        Rating::Good => "review"@,
        Rating::Easy => if review_count_hint >= 2 { "mastered"@ } else { "review"@ },
    }
}

/// Where a rating moves a word's memory: a wrong answer ("again", "hard") back into study,
/// "again" to `relearning` and "hard" to `learning`; a right answer ("good", "easy") to
/// `review`, and "easy" to `mastered` once the word counts as reviewed at least twice. Only
/// "easy" can master a word, and never a word reviewed fewer than two times.
pub proof fn law_rating_moves_memory(review_count_hint: int)
    ensures
        memory_state_after(Rating::Again, review_count_hint) == "relearning"@,
        memory_state_after(Rating::Hard, review_count_hint) == "learning"@,
        memory_state_after(Rating::Good, review_count_hint) == "review"@,
        review_count_hint >= 2 ==> memory_state_after(Rating::Easy, review_count_hint) == "mastered"@,
        review_count_hint < 2 ==> memory_state_after(Rating::Easy, review_count_hint) == "review"@,
{
}

/// Applies a rating to a word's memory state (see [`memory_state_after`]): `again` and
/// `hard` count a lapse, `good` and `easy` count as remembered; an unknown rating is refused
/// with "invalid vocabulary rating".
pub fn memory_rating_step(rating: &str, has_been_reviewed: bool, lapse_count: i64) -> (r: Result<MemoryRatingStep, String>)
    requires
        rating_of(rating@) matches Some(k) && (k is Again || k is Hard || (k is Easy && has_been_reviewed))
            ==> lapse_count < i64::MAX,
    ensures
        match rating_of(rating@) {
            None => r matches Err(e) && e@ == "invalid vocabulary rating"@,
            Some(k) => r matches Ok(s)
                && s.state@ == memory_state_after(k, if has_been_reviewed { 1 + lapse_count } else { 0 })
                && s.lapse_count == (if k is Again || k is Hard { lapse_count + 1 } else { lapse_count as int })
                && s.success == (k is Good || k is Easy),
        },
{
    match parse_rating(rating) {
        Some(Rating::Again) => Ok(MemoryRatingStep { state: String::from_str("relearning"), lapse_count: lapse_count + 1, success: false }),
        Some(Rating::Hard) => Ok(MemoryRatingStep { state: String::from_str("learning"), lapse_count: lapse_count + 1, success: false }),
        Some(Rating::Good) => Ok(MemoryRatingStep { state: String::from_str("review"), lapse_count, success: true }),
        Some(Rating::Easy) => {
            let hint = review_count_hint(has_been_reviewed, lapse_count);
            let state = if hint >= 2 { String::from_str("mastered") } else { String::from_str("review") };
            Ok(MemoryRatingStep { state, lapse_count, success: true })
        },
        None => Err(String::from_str("invalid vocabulary rating")),
    }
}

} // verus!

verus! {

/// The JSON text of a list of word positions: `[a,b,c]`, as `serde_json` writes it.
pub open spec fn index_list_json(v: Seq<usize>) -> Seq<char> {
    "["@ + crate::text::join_seqs(v.map_values(|i: usize| decimal(i as nat)), ","@) + "]"@
}

/// Writes the positions of the wrong words of an answer as JSON (see [`index_list_json`]).
pub fn wrong_indexes_json(v: &Vec<usize>) -> (r: String)
    ensures
        r@ == index_list_json(v@),
{
    let ghost parts = v@.map_values(|i: usize| decimal(i as nat));
    let mut texts: Vec<String> = Vec::new();
    let mut k: usize = 0;
    while k < v.len()
        invariant
            k <= v.len(),
            parts == v@.map_values(|i: usize| decimal(i as nat)),
            crate::text::string_views(texts@) == parts.take(k as int),
        decreases v.len() - k,
    {
        let mut s = String::new();
        crate::text::push_decimal(&mut s, v[k] as u128);
        let ghost b = texts@;
        texts.push(s);
        assert(crate::text::string_views(texts@) =~= crate::text::string_views(b).push(s@));
        assert(parts.take(k + 1) =~= parts.take(k as int).push(decimal(v@[k as int] as nat)));
        k = k + 1;
    }
    assert(parts.take(v@.len() as int) =~= parts);
    let mut r = String::from_str("[");
    crate::text::push_joined(&mut r, &texts, ",");
    r.append("]");
    r
}

/// The positions stored as JSON for a review: an array whose elements are all whole numbers
/// that fit `usize`, read as such; anything else reads as no positions.
pub open spec fn stored_indexes(v: crate::json::JsonValue) -> Seq<usize> {
    match v {
        crate::json::JsonValue::Array(a) => if forall|i: int| 0 <= i < a@.len() ==>
            ((#[trigger] a@[i]) matches crate::json::JsonValue::Number(n) && crate::json::index_token(n@) is Some) {
            Seq::new(a@.len(), |i: int| match a@[i] {
                crate::json::JsonValue::Number(n) => crate::json::index_token(n@)->Some_0 as usize,
                _ => 0usize,
            })
        } else {
            seq![]
        },
        _ => seq![],
    }
}

/// Reads the stored positions of a review's wrong words (see [`stored_indexes`]); text that is
/// not JSON reads as no positions.
pub fn wrong_indexes_from_json(text: &str) -> (r: Vec<usize>)
    ensures
        match crate::json::parsed_json(text@) {
            Some(v) => r@ == stored_indexes(v),
            None => r@.len() == 0,
        },
{
    let mut out: Vec<usize> = Vec::new();
    match crate::json::parse_json_text(text) {
        Ok(v) => {
            match &v {
                crate::json::JsonValue::Array(a) => {
                    let mut i: usize = 0;
                    while i < a.len()
                        invariant
                            i <= a.len(),
                            crate::json::parsed_json(text@) == Some(v),
                            v == crate::json::JsonValue::Array(*a),
                            out.len() == i,
                            forall|k: int| 0 <= k < i ==> ((#[trigger] a@[k]) matches crate::json::JsonValue::Number(n)
                                && crate::json::index_token(n@) == Some(out@[k] as int)),
                        decreases a.len() - i,
                    {
                        match &a[i] {
                            crate::json::JsonValue::Number(n) => match crate::json::parse_index_token(n.as_str()) {
                                Some(x) => {
                                    out.push(x);
                                },
                                None => {
                                    assert(!((a@[i as int]) matches crate::json::JsonValue::Number(n) && crate::json::index_token(n@) is Some));
                                    assert(stored_indexes(v) =~= Seq::<usize>::empty());
                                    return Vec::new();
                                },
                            },
                            _ => {
                                assert(!((a@[i as int]) matches crate::json::JsonValue::Number(n) && crate::json::index_token(n@) is Some));
                                assert(stored_indexes(v) =~= Seq::<usize>::empty());
                                return Vec::new();
                            },
                        }
                        i = i + 1;
                    }
                    assert(out@ =~= stored_indexes(v));
                    out
                },
                _ => out,
            }
        },
        Err(_) => out,
    }
}

} // verus!

verus! {

proof fn lemma_no_first_action(actions: Seq<ImportActionModel>, key: Seq<char>, k: int)
    requires
        0 <= k <= actions.len(),
        first_action_with_key(actions, key, k) is None,
    ensures
        forall|j: int| 0 <= j < k ==> (#[trigger] actions[j]).normalized_text != key,
    decreases k,
{
    if k > 0 {
        lemma_no_first_action(actions, key, k - 1);
    }
}

proof fn lemma_all_reuse_creates_none(actions: Seq<ImportActionModel>, k: int)
    requires
        0 <= k <= actions.len(),
        forall|j: int| 0 <= j < k ==> (#[trigger] actions[j]).reuses_existing,
    ensures
        created_count(actions, k) == 0,
    decreases k,
{
    if k > 0 {
        lemma_all_reuse_creates_none(actions, k - 1);
    }
}

/// Importing a book again, when every word of it is already stored, creates no vocabulary
/// item: every entry reuses the stored item for its word, so the import counts no created
/// item and as many reused ones as it has entries.
pub proof fn law_reimport_reuses_every_word(
    actions: Seq<ImportActionModel>,
    keys: Seq<Seq<char>>,
    existing: Seq<Option<Seq<char>>>,
)
    requires
        keys.len() == existing.len(),
        forall|k: int| 0 <= k < actions.len() ==> #[trigger] import_action_ok(actions, keys, existing, k),
        forall|i: int| 0 <= i < keys.len() && keys[i].len() > 0 ==> (#[trigger] existing[i]) is Some,
    ensures
        forall|k: int| 0 <= k < actions.len() ==> (#[trigger] actions[k]).reuses_existing
            && existing[actions[k].entry_index] == Some(actions[k].vocabulary_item_id),
        created_count(actions, actions.len() as int) == 0,
{
    assert forall|k: int| 0 <= k < actions.len() implies (#[trigger] actions[k]).reuses_existing
        && existing[actions[k].entry_index] == Some(actions[k].vocabulary_item_id) by {
        assert(import_action_ok(actions, keys, existing, k));
        let i = actions[k].entry_index;
        assert(existing[i] is Some);
    }
    lemma_all_reuse_creates_none(actions, actions.len() as int);
}

/// An import creates at most one vocabulary item per word: no two entries that create an
/// item share a lookup key (every later entry with that key reuses the item).
pub proof fn law_import_creates_each_word_once(
    actions: Seq<ImportActionModel>,
    keys: Seq<Seq<char>>,
    existing: Seq<Option<Seq<char>>>,
)
    requires
        keys.len() == existing.len(),
        forall|k: int| 0 <= k < actions.len() ==> #[trigger] import_action_ok(actions, keys, existing, k),
    ensures
        forall|k1: int, k2: int| 0 <= k1 < k2 < actions.len() && !actions[k1].reuses_existing
            && !actions[k2].reuses_existing ==> #[trigger] actions[k1].normalized_text != #[trigger] actions[k2].normalized_text,
{
    assert forall|k1: int, k2: int| 0 <= k1 < k2 < actions.len() && !actions[k1].reuses_existing
        && !actions[k2].reuses_existing implies #[trigger] actions[k1].normalized_text != #[trigger] actions[k2].normalized_text by {
        assert(import_action_ok(actions, keys, existing, k2));
        let i = actions[k2].entry_index;
        let key = keys[i];
        assert(first_action_with_key(actions, key, k2) is None);
        lemma_no_first_action(actions, key, k2);
        assert(actions[k1].normalized_text != key);
    }
}

} // verus!
