//! The Markdown vocabulary-book format: `# title`, then one `## word` section per entry with
//! `- key：value` field lines, and the normalisation of a word into its lookup key.

use vstd::prelude::*;
use crate::text::{
    strip_prefix_repeat, trim_start_matches_vec, vec_starts_with,
    chars_of, collapse_whitespace, collapse_ws, lowercase_of, split_once_char, split_once_spec, str_eq,
    string_of, subvec, to_lowercase, trim, trim_by, trim_pred, trim_str, trim_vec, trim_vec_by, TrimKind,
};

verus! {

/// Clamps `value` into `[min, max]` as `value.max(min).min(max)` does.
pub fn clamp_score(value: i64, min: i64, max: i64) -> (r: i64)
    ensures
        r == (if value < min { if min > max { max } else { min } } else if value > max { max } else { value }),
{
    let lower = if value < min { min } else { value };
    if lower > max { max } else { lower }
}

/// The lookup key of a word: trimmed, stripped of leading and trailing characters that are
/// neither alphanumeric nor `'` nor `-`, lowercased, with inner whitespace runs collapsed.
pub open spec fn normalized_vocabulary_text(value: Seq<char>) -> Seq<char> {
    collapse_ws(lowercase_of(trim_by(trim(value), trim_pred(TrimKind::NonWordEdge))))
}

/// Normalises a word or phrase into the key under which vocabulary items are unique.
pub fn normalize_vocabulary_text(value: &str) -> (r: String)
    ensures
        r@ == normalized_vocabulary_text(value@),
{
    let v = chars_of(value);
    let t = trim_vec(&v);
    let core = trim_vec_by(&t, &TrimKind::NonWordEdge);
    let core_string = string_of(&core);
    let lower = to_lowercase(core_string.as_str());
    let lower_chars = chars_of(lower.as_str());
    let collapsed = collapse_whitespace(&lower_chars);
    string_of(&collapsed)
}

/// One `## word` section of a vocabulary book, as parsed.
pub struct ParsedVocabularyEntry {
    pub text: String,
    pub primary_meaning: String,
    pub phonetic: String,
    pub part_of_speech: String,
    pub example: String,
    pub example_cn: String,
    pub roots: String,
    pub word_family: String,
    pub synonyms: String,
    pub antonyms: String,
    pub memory_hint: String,
    pub tags: String,
    pub difficulty: String,
    pub source_line: i64,
}

/// The mathematical content of a [`ParsedVocabularyEntry`].
pub struct EntryModel {
    pub text: Seq<char>,
    pub primary_meaning: Seq<char>,
    pub phonetic: Seq<char>,
    pub part_of_speech: Seq<char>,
    pub example: Seq<char>,
    pub example_cn: Seq<char>,
    pub roots: Seq<char>,
    pub word_family: Seq<char>,
    pub synonyms: Seq<char>,
    pub antonyms: Seq<char>,
    pub memory_hint: Seq<char>,
    pub tags: Seq<char>,
    pub difficulty: Seq<char>,
    pub source_line: int,
}

impl View for ParsedVocabularyEntry {
    type V = EntryModel;

    open spec fn view(&self) -> EntryModel {
        EntryModel {
            text: self.text@,
            primary_meaning: self.primary_meaning@,
            phonetic: self.phonetic@,
            part_of_speech: self.part_of_speech@,
            example: self.example@,
            example_cn: self.example_cn@,
            roots: self.roots@,
            word_family: self.word_family@,
            synonyms: self.synonyms@,
            antonyms: self.antonyms@,
            memory_hint: self.memory_hint@,
            tags: self.tags@,
            difficulty: self.difficulty@,
            source_line: self.source_line as int,
        }
    }
}

/// An entry with the given headword and line, every other field empty.
pub open spec fn empty_entry_model(text: Seq<char>, source_line: int) -> EntryModel {
    EntryModel {
        text,
        primary_meaning: seq![],
        phonetic: seq![],
        part_of_speech: seq![],
        example: seq![],
        example_cn: seq![],
        roots: seq![],
        word_family: seq![],
        synonyms: seq![],
        antonyms: seq![],
        memory_hint: seq![],
        tags: seq![],
        difficulty: seq![],
        source_line,
    }
}

/// A fresh entry for the headword `text` found on line `source_line`.
pub fn empty_vocabulary_entry(text: String, source_line: i64) -> (r: ParsedVocabularyEntry)
    ensures
        r@ == empty_entry_model(text@, source_line as int),
{
    ParsedVocabularyEntry {
        text,
        primary_meaning: String::new(),
        phonetic: String::new(),
        part_of_speech: String::new(),
        example: String::new(),
        example_cn: String::new(),
        roots: String::new(),
        word_family: String::new(),
        synonyms: String::new(),
        antonyms: String::new(),
        memory_hint: String::new(),
        tags: String::new(),
        difficulty: String::new(),
        source_line,
    }
}

/// The fields that a `- key：value` line can fill.
pub enum VocabularyField {
    PrimaryMeaning,
    Phonetic,
    PartOfSpeech,
    Example,
    ExampleCn,
    Roots,
    WordFamily,
    Synonyms,
    Antonyms,
    MemoryHint,
    Tags,
    Difficulty,
}

/// The field that a (trimmed) key names, if any.
pub open spec fn field_for_key(k: Seq<char>) -> Option<VocabularyField> {
    if k == "中文释义"@ || k == "释义"@ || k == "中文"@ || k == "意思"@ {
        Some(VocabularyField::PrimaryMeaning)
    } else if k == "音标"@ || k == "发音"@ {
        Some(VocabularyField::Phonetic)
    } else if k == "词性"@ {
        Some(VocabularyField::PartOfSpeech)
    } else if k == "例句"@ || k == "英文例句"@ {
        Some(VocabularyField::Example)
    } else if k == "例句中文"@ || k == "中文例句"@ || k == "例句翻译"@ {
        Some(VocabularyField::ExampleCn)
    } else if k == "词根词缀"@ || k == "词根"@ || k == "词缀"@ {
        Some(VocabularyField::Roots)
    } else if k == "同根词"@ || k == "词族"@ || k == "派生词"@ {
        Some(VocabularyField::WordFamily)
    } else if k == "近义词"@ || k == "同义词"@ {
        Some(VocabularyField::Synonyms)
    } else if k == "反义词"@ {
        Some(VocabularyField::Antonyms)
    } else if k == "形象记忆"@ || k == "记忆法"@ || k == "记忆提示"@ {
        Some(VocabularyField::MemoryHint)
    } else if k == "场景标签"@ || k == "标签"@ || k == "场景"@ {
        Some(VocabularyField::Tags)
    } else if k == "难度"@ {
        Some(VocabularyField::Difficulty)
    } else {
        None
    }
}

fn key_is_any(k: &str, a: &str, b: &str, c: &str, d: &str) -> (r: bool)
    ensures
        r == (k@ == a@ || k@ == b@ || k@ == c@ || k@ == d@),
{
    str_eq(k, a) || str_eq(k, b) || str_eq(k, c) || str_eq(k, d)
}

/// The field that a (trimmed) key names, if any.
pub fn vocabulary_field_for_key(k: &str) -> (r: Option<VocabularyField>)
    ensures
        r == field_for_key(k@),
{
    if key_is_any(k, "中文释义", "释义", "中文", "意思") {
        Some(VocabularyField::PrimaryMeaning)
    } else if key_is_any(k, "音标", "发音", "音标", "音标") {
        Some(VocabularyField::Phonetic)
    } else if str_eq(k, "词性") {
        Some(VocabularyField::PartOfSpeech)
    } else if key_is_any(k, "例句", "英文例句", "例句", "例句") {
        Some(VocabularyField::Example)
    } else if key_is_any(k, "例句中文", "中文例句", "例句翻译", "例句中文") {
        Some(VocabularyField::ExampleCn)
    } else if key_is_any(k, "词根词缀", "词根", "词缀", "词根词缀") {
        Some(VocabularyField::Roots)
    } else if key_is_any(k, "同根词", "词族", "派生词", "同根词") {
        Some(VocabularyField::WordFamily)
    } else if key_is_any(k, "近义词", "同义词", "近义词", "近义词") {
        Some(VocabularyField::Synonyms)
    } else if str_eq(k, "反义词") {
        Some(VocabularyField::Antonyms)
    } else if key_is_any(k, "形象记忆", "记忆法", "记忆提示", "形象记忆") {
        Some(VocabularyField::MemoryHint)
    } else if key_is_any(k, "场景标签", "标签", "场景", "场景标签") {
        Some(VocabularyField::Tags)
    } else if str_eq(k, "难度") {
        Some(VocabularyField::Difficulty)
    } else {
        None
    }
}

/// `e` with field `f` set to `v`.
pub open spec fn with_field(e: EntryModel, f: VocabularyField, v: Seq<char>) -> EntryModel {
    match f {
        VocabularyField::PrimaryMeaning => EntryModel { primary_meaning: v, ..e },
        VocabularyField::Phonetic => EntryModel { phonetic: v, ..e },
        VocabularyField::PartOfSpeech => EntryModel { part_of_speech: v, ..e },
        VocabularyField::Example => EntryModel { example: v, ..e },
        VocabularyField::ExampleCn => EntryModel { example_cn: v, ..e },
        VocabularyField::Roots => EntryModel { roots: v, ..e },
        VocabularyField::WordFamily => EntryModel { word_family: v, ..e },
        VocabularyField::Synonyms => EntryModel { synonyms: v, ..e },
        VocabularyField::Antonyms => EntryModel { antonyms: v, ..e },
        VocabularyField::MemoryHint => EntryModel { memory_hint: v, ..e },
        VocabularyField::Tags => EntryModel { tags: v, ..e },
        VocabularyField::Difficulty => EntryModel { difficulty: v, ..e },
    }
}

/// `e` after a `key：value` line: the field that the trimmed key names takes `value`;
/// an unknown key changes nothing.
pub open spec fn apply_field_model(e: EntryModel, key: Seq<char>, value: Seq<char>) -> EntryModel {
    match field_for_key(trim(key)) {
        Some(f) => with_field(e, f, value),
        None => e,
    }
}

/// Stores `value` in the field of `entry` that `key` names.
pub fn apply_vocabulary_field(entry: &mut ParsedVocabularyEntry, key: &str, value: String)
    ensures
        final(entry)@ == apply_field_model(old(entry)@, key@, value@),
{
    let k = trim_str(key);
    match vocabulary_field_for_key(k.as_str()) {
        Some(VocabularyField::PrimaryMeaning) => entry.primary_meaning = value,
        Some(VocabularyField::Phonetic) => entry.phonetic = value,
        Some(VocabularyField::PartOfSpeech) => entry.part_of_speech = value,
        Some(VocabularyField::Example) => entry.example = value,
        Some(VocabularyField::ExampleCn) => entry.example_cn = value,
        Some(VocabularyField::Roots) => entry.roots = value,
        Some(VocabularyField::WordFamily) => entry.word_family = value,
        Some(VocabularyField::Synonyms) => entry.synonyms = value,
        Some(VocabularyField::Antonyms) => entry.antonyms = value,
        Some(VocabularyField::MemoryHint) => entry.memory_hint = value,
        Some(VocabularyField::Tags) => entry.tags = value,
        Some(VocabularyField::Difficulty) => entry.difficulty = value,
        None => {},
    }
}

/// A `key：value` line fills the field its key names in the book format and leaves every
/// other field as it was: 中文释义/释义/中文/意思 the meaning, 音标/发音 the phonetic, 词性 the part
/// of speech, 例句/英文例句 the example, 例句中文/中文例句/例句翻译 its translation,
/// 词根词缀/词根/词缀 the roots, 同根词/词族/派生词 the word family, 近义词/同义词 the synonyms,
/// 反义词 the antonyms, 形象记忆/记忆法/记忆提示 the memory hint, 场景标签/标签/场景 the tags and
/// 难度 the difficulty; any other key changes nothing.
pub proof fn law_field_keys_fill_their_fields(e: EntryModel, key: Seq<char>, value: Seq<char>)
    ensures
        (trim(key) == "中文释义"@ || trim(key) == "释义"@ || trim(key) == "中文"@ || trim(key) == "意思"@)
            ==> apply_field_model(e, key, value) == (EntryModel { primary_meaning: value, ..e }),
        (trim(key) == "音标"@ || trim(key) == "发音"@)
            ==> apply_field_model(e, key, value) == (EntryModel { phonetic: value, ..e }),
        (trim(key) == "词性"@)
            ==> apply_field_model(e, key, value) == (EntryModel { part_of_speech: value, ..e }),
        (trim(key) == "例句"@ || trim(key) == "英文例句"@)
            ==> apply_field_model(e, key, value) == (EntryModel { example: value, ..e }),
        (trim(key) == "例句中文"@ || trim(key) == "中文例句"@ || trim(key) == "例句翻译"@)
            ==> apply_field_model(e, key, value) == (EntryModel { example_cn: value, ..e }),
        (trim(key) == "词根词缀"@ || trim(key) == "词根"@ || trim(key) == "词缀"@)
            ==> apply_field_model(e, key, value) == (EntryModel { roots: value, ..e }),
        (trim(key) == "同根词"@ || trim(key) == "词族"@ || trim(key) == "派生词"@)
            ==> apply_field_model(e, key, value) == (EntryModel { word_family: value, ..e }),
        (trim(key) == "近义词"@ || trim(key) == "同义词"@)
            ==> apply_field_model(e, key, value) == (EntryModel { synonyms: value, ..e }),
        (trim(key) == "反义词"@)
            ==> apply_field_model(e, key, value) == (EntryModel { antonyms: value, ..e }),
        (trim(key) == "形象记忆"@ || trim(key) == "记忆法"@ || trim(key) == "记忆提示"@)
            ==> apply_field_model(e, key, value) == (EntryModel { memory_hint: value, ..e }),
        (trim(key) == "场景标签"@ || trim(key) == "标签"@ || trim(key) == "场景"@)
            ==> apply_field_model(e, key, value) == (EntryModel { tags: value, ..e }),
        (trim(key) == "难度"@)
            ==> apply_field_model(e, key, value) == (EntryModel { difficulty: value, ..e }),
        (trim(key) != "中文释义"@ && trim(key) != "释义"@ && trim(key) != "中文"@ && trim(key) != "意思"@ && trim(key) != "音标"@ && trim(key) != "发音"@ && trim(key) != "词性"@ && trim(key) != "例句"@ && trim(key) != "英文例句"@ && trim(key) != "例句中文"@ && trim(key) != "中文例句"@ && trim(key) != "例句翻译"@ && trim(key) != "词根词缀"@ && trim(key) != "词根"@ && trim(key) != "词缀"@ && trim(key) != "同根词"@ && trim(key) != "词族"@ && trim(key) != "派生词"@ && trim(key) != "近义词"@ && trim(key) != "同义词"@ && trim(key) != "反义词"@ && trim(key) != "形象记忆"@ && trim(key) != "记忆法"@ && trim(key) != "记忆提示"@ && trim(key) != "场景标签"@ && trim(key) != "标签"@ && trim(key) != "场景"@ && trim(key) != "难度"@)
            ==> apply_field_model(e, key, value) == e,
{
    assert(field_for_key("中文释义"@) == Some(VocabularyField::PrimaryMeaning)) by {

    }
    assert(field_for_key("释义"@) == Some(VocabularyField::PrimaryMeaning)) by {
        assert("释义"@ != "中文释义"@) by { reveal_strlit("释义"); reveal_strlit("中文释义"); assert("释义"@[0] != "中文释义"@[0]); }
    }
    assert(field_for_key("中文"@) == Some(VocabularyField::PrimaryMeaning)) by {
        assert("中文"@ != "中文释义"@) by { reveal_strlit("中文"); reveal_strlit("中文释义"); assert("中文"@.len() != "中文释义"@.len()); }
        assert("中文"@ != "释义"@) by { reveal_strlit("中文"); reveal_strlit("释义"); assert("中文"@[0] != "释义"@[0]); }
    }
    assert(field_for_key("意思"@) == Some(VocabularyField::PrimaryMeaning)) by {
        assert("意思"@ != "中文释义"@) by { reveal_strlit("意思"); reveal_strlit("中文释义"); assert("意思"@[0] != "中文释义"@[0]); }
        assert("意思"@ != "释义"@) by { reveal_strlit("意思"); reveal_strlit("释义"); assert("意思"@[0] != "释义"@[0]); }
        assert("意思"@ != "中文"@) by { reveal_strlit("意思"); reveal_strlit("中文"); assert("意思"@[0] != "中文"@[0]); }
    }
    assert(field_for_key("音标"@) == Some(VocabularyField::Phonetic)) by {
        assert("音标"@ != "中文释义"@) by { reveal_strlit("音标"); reveal_strlit("中文释义"); assert("音标"@[0] != "中文释义"@[0]); }
        assert("音标"@ != "释义"@) by { reveal_strlit("音标"); reveal_strlit("释义"); assert("音标"@[0] != "释义"@[0]); }
        assert("音标"@ != "中文"@) by { reveal_strlit("音标"); reveal_strlit("中文"); assert("音标"@[0] != "中文"@[0]); }
        assert("音标"@ != "意思"@) by { reveal_strlit("音标"); reveal_strlit("意思"); assert("音标"@[0] != "意思"@[0]); }
    }
    assert(field_for_key("发音"@) == Some(VocabularyField::Phonetic)) by {
        assert("发音"@ != "中文释义"@) by { reveal_strlit("发音"); reveal_strlit("中文释义"); assert("发音"@[0] != "中文释义"@[0]); }
        assert("发音"@ != "释义"@) by { reveal_strlit("发音"); reveal_strlit("释义"); assert("发音"@[0] != "释义"@[0]); }
        assert("发音"@ != "中文"@) by { reveal_strlit("发音"); reveal_strlit("中文"); assert("发音"@[0] != "中文"@[0]); }
        assert("发音"@ != "意思"@) by { reveal_strlit("发音"); reveal_strlit("意思"); assert("发音"@[0] != "意思"@[0]); }
        assert("发音"@ != "音标"@) by { reveal_strlit("发音"); reveal_strlit("音标"); assert("发音"@[0] != "音标"@[0]); }
    }
    assert(field_for_key("词性"@) == Some(VocabularyField::PartOfSpeech)) by {
        assert("词性"@ != "中文释义"@) by { reveal_strlit("词性"); reveal_strlit("中文释义"); assert("词性"@[0] != "中文释义"@[0]); }
        assert("词性"@ != "释义"@) by { reveal_strlit("词性"); reveal_strlit("释义"); assert("词性"@[0] != "释义"@[0]); }
        assert("词性"@ != "中文"@) by { reveal_strlit("词性"); reveal_strlit("中文"); assert("词性"@[0] != "中文"@[0]); }
        assert("词性"@ != "意思"@) by { reveal_strlit("词性"); reveal_strlit("意思"); assert("词性"@[0] != "意思"@[0]); }
        assert("词性"@ != "音标"@) by { reveal_strlit("词性"); reveal_strlit("音标"); assert("词性"@[0] != "音标"@[0]); }
        assert("词性"@ != "发音"@) by { reveal_strlit("词性"); reveal_strlit("发音"); assert("词性"@[0] != "发音"@[0]); }
    }
    assert(field_for_key("例句"@) == Some(VocabularyField::Example)) by {
        assert("例句"@ != "中文释义"@) by { reveal_strlit("例句"); reveal_strlit("中文释义"); assert("例句"@[0] != "中文释义"@[0]); }
        assert("例句"@ != "释义"@) by { reveal_strlit("例句"); reveal_strlit("释义"); assert("例句"@[0] != "释义"@[0]); }
        assert("例句"@ != "中文"@) by { reveal_strlit("例句"); reveal_strlit("中文"); assert("例句"@[0] != "中文"@[0]); }
        assert("例句"@ != "意思"@) by { reveal_strlit("例句"); reveal_strlit("意思"); assert("例句"@[0] != "意思"@[0]); }
        assert("例句"@ != "音标"@) by { reveal_strlit("例句"); reveal_strlit("音标"); assert("例句"@[0] != "音标"@[0]); }
        assert("例句"@ != "发音"@) by { reveal_strlit("例句"); reveal_strlit("发音"); assert("例句"@[0] != "发音"@[0]); }
        assert("例句"@ != "词性"@) by { reveal_strlit("例句"); reveal_strlit("词性"); assert("例句"@[0] != "词性"@[0]); }
    }
    assert(field_for_key("英文例句"@) == Some(VocabularyField::Example)) by {
        assert("英文例句"@ != "中文释义"@) by { reveal_strlit("英文例句"); reveal_strlit("中文释义"); assert("英文例句"@[0] != "中文释义"@[0]); }
        assert("英文例句"@ != "释义"@) by { reveal_strlit("英文例句"); reveal_strlit("释义"); assert("英文例句"@[0] != "释义"@[0]); }
        assert("英文例句"@ != "中文"@) by { reveal_strlit("英文例句"); reveal_strlit("中文"); assert("英文例句"@[0] != "中文"@[0]); }
        assert("英文例句"@ != "意思"@) by { reveal_strlit("英文例句"); reveal_strlit("意思"); assert("英文例句"@[0] != "意思"@[0]); }
        assert("英文例句"@ != "音标"@) by { reveal_strlit("英文例句"); reveal_strlit("音标"); assert("英文例句"@[0] != "音标"@[0]); }
        assert("英文例句"@ != "发音"@) by { reveal_strlit("英文例句"); reveal_strlit("发音"); assert("英文例句"@[0] != "发音"@[0]); }
        assert("英文例句"@ != "词性"@) by { reveal_strlit("英文例句"); reveal_strlit("词性"); assert("英文例句"@[0] != "词性"@[0]); }
        assert("英文例句"@ != "例句"@) by { reveal_strlit("英文例句"); reveal_strlit("例句"); assert("英文例句"@[0] != "例句"@[0]); }
    }
    assert(field_for_key("例句中文"@) == Some(VocabularyField::ExampleCn)) by {
        assert("例句中文"@ != "中文释义"@) by { reveal_strlit("例句中文"); reveal_strlit("中文释义"); assert("例句中文"@[0] != "中文释义"@[0]); }
        assert("例句中文"@ != "释义"@) by { reveal_strlit("例句中文"); reveal_strlit("释义"); assert("例句中文"@[0] != "释义"@[0]); }
        assert("例句中文"@ != "中文"@) by { reveal_strlit("例句中文"); reveal_strlit("中文"); assert("例句中文"@[0] != "中文"@[0]); }
        assert("例句中文"@ != "意思"@) by { reveal_strlit("例句中文"); reveal_strlit("意思"); assert("例句中文"@[0] != "意思"@[0]); }
        assert("例句中文"@ != "音标"@) by { reveal_strlit("例句中文"); reveal_strlit("音标"); assert("例句中文"@[0] != "音标"@[0]); }
        assert("例句中文"@ != "发音"@) by { reveal_strlit("例句中文"); reveal_strlit("发音"); assert("例句中文"@[0] != "发音"@[0]); }
        assert("例句中文"@ != "词性"@) by { reveal_strlit("例句中文"); reveal_strlit("词性"); assert("例句中文"@[0] != "词性"@[0]); }
        assert("例句中文"@ != "例句"@) by { reveal_strlit("例句中文"); reveal_strlit("例句"); assert("例句中文"@.len() != "例句"@.len()); }
        assert("例句中文"@ != "英文例句"@) by { reveal_strlit("例句中文"); reveal_strlit("英文例句"); assert("例句中文"@[0] != "英文例句"@[0]); }
    }
    assert(field_for_key("中文例句"@) == Some(VocabularyField::ExampleCn)) by {
        assert("中文例句"@ != "中文释义"@) by { reveal_strlit("中文例句"); reveal_strlit("中文释义"); assert("中文例句"@[2] != "中文释义"@[2]); }
        assert("中文例句"@ != "释义"@) by { reveal_strlit("中文例句"); reveal_strlit("释义"); assert("中文例句"@[0] != "释义"@[0]); }
        assert("中文例句"@ != "中文"@) by { reveal_strlit("中文例句"); reveal_strlit("中文"); assert("中文例句"@.len() != "中文"@.len()); }
        assert("中文例句"@ != "意思"@) by { reveal_strlit("中文例句"); reveal_strlit("意思"); assert("中文例句"@[0] != "意思"@[0]); }
        assert("中文例句"@ != "音标"@) by { reveal_strlit("中文例句"); reveal_strlit("音标"); assert("中文例句"@[0] != "音标"@[0]); }
        assert("中文例句"@ != "发音"@) by { reveal_strlit("中文例句"); reveal_strlit("发音"); assert("中文例句"@[0] != "发音"@[0]); }
        assert("中文例句"@ != "词性"@) by { reveal_strlit("中文例句"); reveal_strlit("词性"); assert("中文例句"@[0] != "词性"@[0]); }
        assert("中文例句"@ != "例句"@) by { reveal_strlit("中文例句"); reveal_strlit("例句"); assert("中文例句"@[0] != "例句"@[0]); }
        assert("中文例句"@ != "英文例句"@) by { reveal_strlit("中文例句"); reveal_strlit("英文例句"); assert("中文例句"@[0] != "英文例句"@[0]); }
        assert("中文例句"@ != "例句中文"@) by { reveal_strlit("中文例句"); reveal_strlit("例句中文"); assert("中文例句"@[0] != "例句中文"@[0]); }
    }
    assert(field_for_key("例句翻译"@) == Some(VocabularyField::ExampleCn)) by {
        assert("例句翻译"@ != "中文释义"@) by { reveal_strlit("例句翻译"); reveal_strlit("中文释义"); assert("例句翻译"@[0] != "中文释义"@[0]); }
        assert("例句翻译"@ != "释义"@) by { reveal_strlit("例句翻译"); reveal_strlit("释义"); assert("例句翻译"@[0] != "释义"@[0]); }
        assert("例句翻译"@ != "中文"@) by { reveal_strlit("例句翻译"); reveal_strlit("中文"); assert("例句翻译"@[0] != "中文"@[0]); }
        assert("例句翻译"@ != "意思"@) by { reveal_strlit("例句翻译"); reveal_strlit("意思"); assert("例句翻译"@[0] != "意思"@[0]); }
        assert("例句翻译"@ != "音标"@) by { reveal_strlit("例句翻译"); reveal_strlit("音标"); assert("例句翻译"@[0] != "音标"@[0]); }
        assert("例句翻译"@ != "发音"@) by { reveal_strlit("例句翻译"); reveal_strlit("发音"); assert("例句翻译"@[0] != "发音"@[0]); }
        assert("例句翻译"@ != "词性"@) by { reveal_strlit("例句翻译"); reveal_strlit("词性"); assert("例句翻译"@[0] != "词性"@[0]); }
        assert("例句翻译"@ != "例句"@) by { reveal_strlit("例句翻译"); reveal_strlit("例句"); assert("例句翻译"@.len() != "例句"@.len()); }
        assert("例句翻译"@ != "英文例句"@) by { reveal_strlit("例句翻译"); reveal_strlit("英文例句"); assert("例句翻译"@[0] != "英文例句"@[0]); }
        assert("例句翻译"@ != "例句中文"@) by { reveal_strlit("例句翻译"); reveal_strlit("例句中文"); assert("例句翻译"@[2] != "例句中文"@[2]); }
        assert("例句翻译"@ != "中文例句"@) by { reveal_strlit("例句翻译"); reveal_strlit("中文例句"); assert("例句翻译"@[0] != "中文例句"@[0]); }
    }
    assert(field_for_key("词根词缀"@) == Some(VocabularyField::Roots)) by {
        assert("词根词缀"@ != "中文释义"@) by { reveal_strlit("词根词缀"); reveal_strlit("中文释义"); assert("词根词缀"@[0] != "中文释义"@[0]); }
        assert("词根词缀"@ != "释义"@) by { reveal_strlit("词根词缀"); reveal_strlit("释义"); assert("词根词缀"@[0] != "释义"@[0]); }
        assert("词根词缀"@ != "中文"@) by { reveal_strlit("词根词缀"); reveal_strlit("中文"); assert("词根词缀"@[0] != "中文"@[0]); }
        assert("词根词缀"@ != "意思"@) by { reveal_strlit("词根词缀"); reveal_strlit("意思"); assert("词根词缀"@[0] != "意思"@[0]); }
        assert("词根词缀"@ != "音标"@) by { reveal_strlit("词根词缀"); reveal_strlit("音标"); assert("词根词缀"@[0] != "音标"@[0]); }
        assert("词根词缀"@ != "发音"@) by { reveal_strlit("词根词缀"); reveal_strlit("发音"); assert("词根词缀"@[0] != "发音"@[0]); }
        assert("词根词缀"@ != "词性"@) by { reveal_strlit("词根词缀"); reveal_strlit("词性"); assert("词根词缀"@.len() != "词性"@.len()); }
        assert("词根词缀"@ != "例句"@) by { reveal_strlit("词根词缀"); reveal_strlit("例句"); assert("词根词缀"@[0] != "例句"@[0]); }
        assert("词根词缀"@ != "英文例句"@) by { reveal_strlit("词根词缀"); reveal_strlit("英文例句"); assert("词根词缀"@[0] != "英文例句"@[0]); }
        assert("词根词缀"@ != "例句中文"@) by { reveal_strlit("词根词缀"); reveal_strlit("例句中文"); assert("词根词缀"@[0] != "例句中文"@[0]); }
        assert("词根词缀"@ != "中文例句"@) by { reveal_strlit("词根词缀"); reveal_strlit("中文例句"); assert("词根词缀"@[0] != "中文例句"@[0]); }
        assert("词根词缀"@ != "例句翻译"@) by { reveal_strlit("词根词缀"); reveal_strlit("例句翻译"); assert("词根词缀"@[0] != "例句翻译"@[0]); }
    }
    assert(field_for_key("词根"@) == Some(VocabularyField::Roots)) by {
        assert("词根"@ != "中文释义"@) by { reveal_strlit("词根"); reveal_strlit("中文释义"); assert("词根"@[0] != "中文释义"@[0]); }
        assert("词根"@ != "释义"@) by { reveal_strlit("词根"); reveal_strlit("释义"); assert("词根"@[0] != "释义"@[0]); }
        assert("词根"@ != "中文"@) by { reveal_strlit("词根"); reveal_strlit("中文"); assert("词根"@[0] != "中文"@[0]); }
        assert("词根"@ != "意思"@) by { reveal_strlit("词根"); reveal_strlit("意思"); assert("词根"@[0] != "意思"@[0]); }
        assert("词根"@ != "音标"@) by { reveal_strlit("词根"); reveal_strlit("音标"); assert("词根"@[0] != "音标"@[0]); }
        assert("词根"@ != "发音"@) by { reveal_strlit("词根"); reveal_strlit("发音"); assert("词根"@[0] != "发音"@[0]); }
        assert("词根"@ != "词性"@) by { reveal_strlit("词根"); reveal_strlit("词性"); assert("词根"@[1] != "词性"@[1]); }
        assert("词根"@ != "例句"@) by { reveal_strlit("词根"); reveal_strlit("例句"); assert("词根"@[0] != "例句"@[0]); }
        assert("词根"@ != "英文例句"@) by { reveal_strlit("词根"); reveal_strlit("英文例句"); assert("词根"@[0] != "英文例句"@[0]); }
        assert("词根"@ != "例句中文"@) by { reveal_strlit("词根"); reveal_strlit("例句中文"); assert("词根"@[0] != "例句中文"@[0]); }
        assert("词根"@ != "中文例句"@) by { reveal_strlit("词根"); reveal_strlit("中文例句"); assert("词根"@[0] != "中文例句"@[0]); }
        assert("词根"@ != "例句翻译"@) by { reveal_strlit("词根"); reveal_strlit("例句翻译"); assert("词根"@[0] != "例句翻译"@[0]); }
        assert("词根"@ != "词根词缀"@) by { reveal_strlit("词根"); reveal_strlit("词根词缀"); assert("词根"@.len() != "词根词缀"@.len()); }
    }
    assert(field_for_key("词缀"@) == Some(VocabularyField::Roots)) by {
        assert("词缀"@ != "中文释义"@) by { reveal_strlit("词缀"); reveal_strlit("中文释义"); assert("词缀"@[0] != "中文释义"@[0]); }
        assert("词缀"@ != "释义"@) by { reveal_strlit("词缀"); reveal_strlit("释义"); assert("词缀"@[0] != "释义"@[0]); }
        assert("词缀"@ != "中文"@) by { reveal_strlit("词缀"); reveal_strlit("中文"); assert("词缀"@[0] != "中文"@[0]); }
        assert("词缀"@ != "意思"@) by { reveal_strlit("词缀"); reveal_strlit("意思"); assert("词缀"@[0] != "意思"@[0]); }
        assert("词缀"@ != "音标"@) by { reveal_strlit("词缀"); reveal_strlit("音标"); assert("词缀"@[0] != "音标"@[0]); }
        assert("词缀"@ != "发音"@) by { reveal_strlit("词缀"); reveal_strlit("发音"); assert("词缀"@[0] != "发音"@[0]); }
        assert("词缀"@ != "词性"@) by { reveal_strlit("词缀"); reveal_strlit("词性"); assert("词缀"@[1] != "词性"@[1]); }
        assert("词缀"@ != "例句"@) by { reveal_strlit("词缀"); reveal_strlit("例句"); assert("词缀"@[0] != "例句"@[0]); }
        assert("词缀"@ != "英文例句"@) by { reveal_strlit("词缀"); reveal_strlit("英文例句"); assert("词缀"@[0] != "英文例句"@[0]); }
        assert("词缀"@ != "例句中文"@) by { reveal_strlit("词缀"); reveal_strlit("例句中文"); assert("词缀"@[0] != "例句中文"@[0]); }
        assert("词缀"@ != "中文例句"@) by { reveal_strlit("词缀"); reveal_strlit("中文例句"); assert("词缀"@[0] != "中文例句"@[0]); }
        assert("词缀"@ != "例句翻译"@) by { reveal_strlit("词缀"); reveal_strlit("例句翻译"); assert("词缀"@[0] != "例句翻译"@[0]); }
        assert("词缀"@ != "词根词缀"@) by { reveal_strlit("词缀"); reveal_strlit("词根词缀"); assert("词缀"@.len() != "词根词缀"@.len()); }
        assert("词缀"@ != "词根"@) by { reveal_strlit("词缀"); reveal_strlit("词根"); assert("词缀"@[1] != "词根"@[1]); }
    }
    assert(field_for_key("同根词"@) == Some(VocabularyField::WordFamily)) by {
        assert("同根词"@ != "中文释义"@) by { reveal_strlit("同根词"); reveal_strlit("中文释义"); assert("同根词"@[0] != "中文释义"@[0]); }
        assert("同根词"@ != "释义"@) by { reveal_strlit("同根词"); reveal_strlit("释义"); assert("同根词"@[0] != "释义"@[0]); }
        assert("同根词"@ != "中文"@) by { reveal_strlit("同根词"); reveal_strlit("中文"); assert("同根词"@[0] != "中文"@[0]); }
        assert("同根词"@ != "意思"@) by { reveal_strlit("同根词"); reveal_strlit("意思"); assert("同根词"@[0] != "意思"@[0]); }
        assert("同根词"@ != "音标"@) by { reveal_strlit("同根词"); reveal_strlit("音标"); assert("同根词"@[0] != "音标"@[0]); }
        assert("同根词"@ != "发音"@) by { reveal_strlit("同根词"); reveal_strlit("发音"); assert("同根词"@[0] != "发音"@[0]); }
        assert("同根词"@ != "词性"@) by { reveal_strlit("同根词"); reveal_strlit("词性"); assert("同根词"@[0] != "词性"@[0]); }
        assert("同根词"@ != "例句"@) by { reveal_strlit("同根词"); reveal_strlit("例句"); assert("同根词"@[0] != "例句"@[0]); }
        assert("同根词"@ != "英文例句"@) by { reveal_strlit("同根词"); reveal_strlit("英文例句"); assert("同根词"@[0] != "英文例句"@[0]); }
        assert("同根词"@ != "例句中文"@) by { reveal_strlit("同根词"); reveal_strlit("例句中文"); assert("同根词"@[0] != "例句中文"@[0]); }
        assert("同根词"@ != "中文例句"@) by { reveal_strlit("同根词"); reveal_strlit("中文例句"); assert("同根词"@[0] != "中文例句"@[0]); }
        assert("同根词"@ != "例句翻译"@) by { reveal_strlit("同根词"); reveal_strlit("例句翻译"); assert("同根词"@[0] != "例句翻译"@[0]); }
        assert("同根词"@ != "词根词缀"@) by { reveal_strlit("同根词"); reveal_strlit("词根词缀"); assert("同根词"@[0] != "词根词缀"@[0]); }
        assert("同根词"@ != "词根"@) by { reveal_strlit("同根词"); reveal_strlit("词根"); assert("同根词"@[0] != "词根"@[0]); }
        assert("同根词"@ != "词缀"@) by { reveal_strlit("同根词"); reveal_strlit("词缀"); assert("同根词"@[0] != "词缀"@[0]); }
    }
    assert(field_for_key("词族"@) == Some(VocabularyField::WordFamily)) by {
        assert("词族"@ != "中文释义"@) by { reveal_strlit("词族"); reveal_strlit("中文释义"); assert("词族"@[0] != "中文释义"@[0]); }
        assert("词族"@ != "释义"@) by { reveal_strlit("词族"); reveal_strlit("释义"); assert("词族"@[0] != "释义"@[0]); }
        assert("词族"@ != "中文"@) by { reveal_strlit("词族"); reveal_strlit("中文"); assert("词族"@[0] != "中文"@[0]); }
        assert("词族"@ != "意思"@) by { reveal_strlit("词族"); reveal_strlit("意思"); assert("词族"@[0] != "意思"@[0]); }
        assert("词族"@ != "音标"@) by { reveal_strlit("词族"); reveal_strlit("音标"); assert("词族"@[0] != "音标"@[0]); }
        assert("词族"@ != "发音"@) by { reveal_strlit("词族"); reveal_strlit("发音"); assert("词族"@[0] != "发音"@[0]); }
        assert("词族"@ != "词性"@) by { reveal_strlit("词族"); reveal_strlit("词性"); assert("词族"@[1] != "词性"@[1]); }
        assert("词族"@ != "例句"@) by { reveal_strlit("词族"); reveal_strlit("例句"); assert("词族"@[0] != "例句"@[0]); }
        assert("词族"@ != "英文例句"@) by { reveal_strlit("词族"); reveal_strlit("英文例句"); assert("词族"@[0] != "英文例句"@[0]); }
        assert("词族"@ != "例句中文"@) by { reveal_strlit("词族"); reveal_strlit("例句中文"); assert("词族"@[0] != "例句中文"@[0]); }
        assert("词族"@ != "中文例句"@) by { reveal_strlit("词族"); reveal_strlit("中文例句"); assert("词族"@[0] != "中文例句"@[0]); }
        assert("词族"@ != "例句翻译"@) by { reveal_strlit("词族"); reveal_strlit("例句翻译"); assert("词族"@[0] != "例句翻译"@[0]); }
        assert("词族"@ != "词根词缀"@) by { reveal_strlit("词族"); reveal_strlit("词根词缀"); assert("词族"@.len() != "词根词缀"@.len()); }
        assert("词族"@ != "词根"@) by { reveal_strlit("词族"); reveal_strlit("词根"); assert("词族"@[1] != "词根"@[1]); }
        assert("词族"@ != "词缀"@) by { reveal_strlit("词族"); reveal_strlit("词缀"); assert("词族"@[1] != "词缀"@[1]); }
        assert("词族"@ != "同根词"@) by { reveal_strlit("词族"); reveal_strlit("同根词"); assert("词族"@[0] != "同根词"@[0]); }
    }
    assert(field_for_key("派生词"@) == Some(VocabularyField::WordFamily)) by {
        assert("派生词"@ != "中文释义"@) by { reveal_strlit("派生词"); reveal_strlit("中文释义"); assert("派生词"@[0] != "中文释义"@[0]); }
        assert("派生词"@ != "释义"@) by { reveal_strlit("派生词"); reveal_strlit("释义"); assert("派生词"@[0] != "释义"@[0]); }
        assert("派生词"@ != "中文"@) by { reveal_strlit("派生词"); reveal_strlit("中文"); assert("派生词"@[0] != "中文"@[0]); }
        assert("派生词"@ != "意思"@) by { reveal_strlit("派生词"); reveal_strlit("意思"); assert("派生词"@[0] != "意思"@[0]); }
        assert("派生词"@ != "音标"@) by { reveal_strlit("派生词"); reveal_strlit("音标"); assert("派生词"@[0] != "音标"@[0]); }
        assert("派生词"@ != "发音"@) by { reveal_strlit("派生词"); reveal_strlit("发音"); assert("派生词"@[0] != "发音"@[0]); }
        assert("派生词"@ != "词性"@) by { reveal_strlit("派生词"); reveal_strlit("词性"); assert("派生词"@[0] != "词性"@[0]); }
        assert("派生词"@ != "例句"@) by { reveal_strlit("派生词"); reveal_strlit("例句"); assert("派生词"@[0] != "例句"@[0]); }
        assert("派生词"@ != "英文例句"@) by { reveal_strlit("派生词"); reveal_strlit("英文例句"); assert("派生词"@[0] != "英文例句"@[0]); }
        assert("派生词"@ != "例句中文"@) by { reveal_strlit("派生词"); reveal_strlit("例句中文"); assert("派生词"@[0] != "例句中文"@[0]); }
        assert("派生词"@ != "中文例句"@) by { reveal_strlit("派生词"); reveal_strlit("中文例句"); assert("派生词"@[0] != "中文例句"@[0]); }
        assert("派生词"@ != "例句翻译"@) by { reveal_strlit("派生词"); reveal_strlit("例句翻译"); assert("派生词"@[0] != "例句翻译"@[0]); }
        assert("派生词"@ != "词根词缀"@) by { reveal_strlit("派生词"); reveal_strlit("词根词缀"); assert("派生词"@[0] != "词根词缀"@[0]); }
        assert("派生词"@ != "词根"@) by { reveal_strlit("派生词"); reveal_strlit("词根"); assert("派生词"@[0] != "词根"@[0]); }
        assert("派生词"@ != "词缀"@) by { reveal_strlit("派生词"); reveal_strlit("词缀"); assert("派生词"@[0] != "词缀"@[0]); }
        assert("派生词"@ != "同根词"@) by { reveal_strlit("派生词"); reveal_strlit("同根词"); assert("派生词"@[0] != "同根词"@[0]); }
        assert("派生词"@ != "词族"@) by { reveal_strlit("派生词"); reveal_strlit("词族"); assert("派生词"@[0] != "词族"@[0]); }
    }
    assert(field_for_key("近义词"@) == Some(VocabularyField::Synonyms)) by {
        assert("近义词"@ != "中文释义"@) by { reveal_strlit("近义词"); reveal_strlit("中文释义"); assert("近义词"@[0] != "中文释义"@[0]); }
        assert("近义词"@ != "释义"@) by { reveal_strlit("近义词"); reveal_strlit("释义"); assert("近义词"@[0] != "释义"@[0]); }
        assert("近义词"@ != "中文"@) by { reveal_strlit("近义词"); reveal_strlit("中文"); assert("近义词"@[0] != "中文"@[0]); }
        assert("近义词"@ != "意思"@) by { reveal_strlit("近义词"); reveal_strlit("意思"); assert("近义词"@[0] != "意思"@[0]); }
        assert("近义词"@ != "音标"@) by { reveal_strlit("近义词"); reveal_strlit("音标"); assert("近义词"@[0] != "音标"@[0]); }
        assert("近义词"@ != "发音"@) by { reveal_strlit("近义词"); reveal_strlit("发音"); assert("近义词"@[0] != "发音"@[0]); }
        assert("近义词"@ != "词性"@) by { reveal_strlit("近义词"); reveal_strlit("词性"); assert("近义词"@[0] != "词性"@[0]); }
        assert("近义词"@ != "例句"@) by { reveal_strlit("近义词"); reveal_strlit("例句"); assert("近义词"@[0] != "例句"@[0]); }
        assert("近义词"@ != "英文例句"@) by { reveal_strlit("近义词"); reveal_strlit("英文例句"); assert("近义词"@[0] != "英文例句"@[0]); }
        assert("近义词"@ != "例句中文"@) by { reveal_strlit("近义词"); reveal_strlit("例句中文"); assert("近义词"@[0] != "例句中文"@[0]); }
        assert("近义词"@ != "中文例句"@) by { reveal_strlit("近义词"); reveal_strlit("中文例句"); assert("近义词"@[0] != "中文例句"@[0]); }
        assert("近义词"@ != "例句翻译"@) by { reveal_strlit("近义词"); reveal_strlit("例句翻译"); assert("近义词"@[0] != "例句翻译"@[0]); }
        assert("近义词"@ != "词根词缀"@) by { reveal_strlit("近义词"); reveal_strlit("词根词缀"); assert("近义词"@[0] != "词根词缀"@[0]); }
        assert("近义词"@ != "词根"@) by { reveal_strlit("近义词"); reveal_strlit("词根"); assert("近义词"@[0] != "词根"@[0]); }
        assert("近义词"@ != "词缀"@) by { reveal_strlit("近义词"); reveal_strlit("词缀"); assert("近义词"@[0] != "词缀"@[0]); }
        assert("近义词"@ != "同根词"@) by { reveal_strlit("近义词"); reveal_strlit("同根词"); assert("近义词"@[0] != "同根词"@[0]); }
        assert("近义词"@ != "词族"@) by { reveal_strlit("近义词"); reveal_strlit("词族"); assert("近义词"@[0] != "词族"@[0]); }
        assert("近义词"@ != "派生词"@) by { reveal_strlit("近义词"); reveal_strlit("派生词"); assert("近义词"@[0] != "派生词"@[0]); }
    }
    assert(field_for_key("同义词"@) == Some(VocabularyField::Synonyms)) by {
        assert("同义词"@ != "中文释义"@) by { reveal_strlit("同义词"); reveal_strlit("中文释义"); assert("同义词"@[0] != "中文释义"@[0]); }
        assert("同义词"@ != "释义"@) by { reveal_strlit("同义词"); reveal_strlit("释义"); assert("同义词"@[0] != "释义"@[0]); }
        assert("同义词"@ != "中文"@) by { reveal_strlit("同义词"); reveal_strlit("中文"); assert("同义词"@[0] != "中文"@[0]); }
        assert("同义词"@ != "意思"@) by { reveal_strlit("同义词"); reveal_strlit("意思"); assert("同义词"@[0] != "意思"@[0]); }
        assert("同义词"@ != "音标"@) by { reveal_strlit("同义词"); reveal_strlit("音标"); assert("同义词"@[0] != "音标"@[0]); }
        assert("同义词"@ != "发音"@) by { reveal_strlit("同义词"); reveal_strlit("发音"); assert("同义词"@[0] != "发音"@[0]); }
        assert("同义词"@ != "词性"@) by { reveal_strlit("同义词"); reveal_strlit("词性"); assert("同义词"@[0] != "词性"@[0]); }
        assert("同义词"@ != "例句"@) by { reveal_strlit("同义词"); reveal_strlit("例句"); assert("同义词"@[0] != "例句"@[0]); }
        assert("同义词"@ != "英文例句"@) by { reveal_strlit("同义词"); reveal_strlit("英文例句"); assert("同义词"@[0] != "英文例句"@[0]); }
        assert("同义词"@ != "例句中文"@) by { reveal_strlit("同义词"); reveal_strlit("例句中文"); assert("同义词"@[0] != "例句中文"@[0]); }
        assert("同义词"@ != "中文例句"@) by { reveal_strlit("同义词"); reveal_strlit("中文例句"); assert("同义词"@[0] != "中文例句"@[0]); }
        assert("同义词"@ != "例句翻译"@) by { reveal_strlit("同义词"); reveal_strlit("例句翻译"); assert("同义词"@[0] != "例句翻译"@[0]); }
        assert("同义词"@ != "词根词缀"@) by { reveal_strlit("同义词"); reveal_strlit("词根词缀"); assert("同义词"@[0] != "词根词缀"@[0]); }
        assert("同义词"@ != "词根"@) by { reveal_strlit("同义词"); reveal_strlit("词根"); assert("同义词"@[0] != "词根"@[0]); }
        assert("同义词"@ != "词缀"@) by { reveal_strlit("同义词"); reveal_strlit("词缀"); assert("同义词"@[0] != "词缀"@[0]); }
        assert("同义词"@ != "同根词"@) by { reveal_strlit("同义词"); reveal_strlit("同根词"); assert("同义词"@[1] != "同根词"@[1]); }
        assert("同义词"@ != "词族"@) by { reveal_strlit("同义词"); reveal_strlit("词族"); assert("同义词"@[0] != "词族"@[0]); }
        assert("同义词"@ != "派生词"@) by { reveal_strlit("同义词"); reveal_strlit("派生词"); assert("同义词"@[0] != "派生词"@[0]); }
        assert("同义词"@ != "近义词"@) by { reveal_strlit("同义词"); reveal_strlit("近义词"); assert("同义词"@[0] != "近义词"@[0]); }
    }
    assert(field_for_key("反义词"@) == Some(VocabularyField::Antonyms)) by {
        assert("反义词"@ != "中文释义"@) by { reveal_strlit("反义词"); reveal_strlit("中文释义"); assert("反义词"@[0] != "中文释义"@[0]); }
        assert("反义词"@ != "释义"@) by { reveal_strlit("反义词"); reveal_strlit("释义"); assert("反义词"@[0] != "释义"@[0]); }
        assert("反义词"@ != "中文"@) by { reveal_strlit("反义词"); reveal_strlit("中文"); assert("反义词"@[0] != "中文"@[0]); }
        assert("反义词"@ != "意思"@) by { reveal_strlit("反义词"); reveal_strlit("意思"); assert("反义词"@[0] != "意思"@[0]); }
        assert("反义词"@ != "音标"@) by { reveal_strlit("反义词"); reveal_strlit("音标"); assert("反义词"@[0] != "音标"@[0]); }
        assert("反义词"@ != "发音"@) by { reveal_strlit("反义词"); reveal_strlit("发音"); assert("反义词"@[0] != "发音"@[0]); }
        assert("反义词"@ != "词性"@) by { reveal_strlit("反义词"); reveal_strlit("词性"); assert("反义词"@[0] != "词性"@[0]); }
        assert("反义词"@ != "例句"@) by { reveal_strlit("反义词"); reveal_strlit("例句"); assert("反义词"@[0] != "例句"@[0]); }
        assert("反义词"@ != "英文例句"@) by { reveal_strlit("反义词"); reveal_strlit("英文例句"); assert("反义词"@[0] != "英文例句"@[0]); }
        assert("反义词"@ != "例句中文"@) by { reveal_strlit("反义词"); reveal_strlit("例句中文"); assert("反义词"@[0] != "例句中文"@[0]); }
        assert("反义词"@ != "中文例句"@) by { reveal_strlit("反义词"); reveal_strlit("中文例句"); assert("反义词"@[0] != "中文例句"@[0]); }
        assert("反义词"@ != "例句翻译"@) by { reveal_strlit("反义词"); reveal_strlit("例句翻译"); assert("反义词"@[0] != "例句翻译"@[0]); }
        assert("反义词"@ != "词根词缀"@) by { reveal_strlit("反义词"); reveal_strlit("词根词缀"); assert("反义词"@[0] != "词根词缀"@[0]); }
        assert("反义词"@ != "词根"@) by { reveal_strlit("反义词"); reveal_strlit("词根"); assert("反义词"@[0] != "词根"@[0]); }
        assert("反义词"@ != "词缀"@) by { reveal_strlit("反义词"); reveal_strlit("词缀"); assert("反义词"@[0] != "词缀"@[0]); }
        assert("反义词"@ != "同根词"@) by { reveal_strlit("反义词"); reveal_strlit("同根词"); assert("反义词"@[0] != "同根词"@[0]); }
        assert("反义词"@ != "词族"@) by { reveal_strlit("反义词"); reveal_strlit("词族"); assert("反义词"@[0] != "词族"@[0]); }
        assert("反义词"@ != "派生词"@) by { reveal_strlit("反义词"); reveal_strlit("派生词"); assert("反义词"@[0] != "派生词"@[0]); }
        assert("反义词"@ != "近义词"@) by { reveal_strlit("反义词"); reveal_strlit("近义词"); assert("反义词"@[0] != "近义词"@[0]); }
        assert("反义词"@ != "同义词"@) by { reveal_strlit("反义词"); reveal_strlit("同义词"); assert("反义词"@[0] != "同义词"@[0]); }
    }
    assert(field_for_key("形象记忆"@) == Some(VocabularyField::MemoryHint)) by {
        assert("形象记忆"@ != "中文释义"@) by { reveal_strlit("形象记忆"); reveal_strlit("中文释义"); assert("形象记忆"@[0] != "中文释义"@[0]); }
        assert("形象记忆"@ != "释义"@) by { reveal_strlit("形象记忆"); reveal_strlit("释义"); assert("形象记忆"@[0] != "释义"@[0]); }
        assert("形象记忆"@ != "中文"@) by { reveal_strlit("形象记忆"); reveal_strlit("中文"); assert("形象记忆"@[0] != "中文"@[0]); }
        assert("形象记忆"@ != "意思"@) by { reveal_strlit("形象记忆"); reveal_strlit("意思"); assert("形象记忆"@[0] != "意思"@[0]); }
        assert("形象记忆"@ != "音标"@) by { reveal_strlit("形象记忆"); reveal_strlit("音标"); assert("形象记忆"@[0] != "音标"@[0]); }
        assert("形象记忆"@ != "发音"@) by { reveal_strlit("形象记忆"); reveal_strlit("发音"); assert("形象记忆"@[0] != "发音"@[0]); }
        assert("形象记忆"@ != "词性"@) by { reveal_strlit("形象记忆"); reveal_strlit("词性"); assert("形象记忆"@[0] != "词性"@[0]); }
        assert("形象记忆"@ != "例句"@) by { reveal_strlit("形象记忆"); reveal_strlit("例句"); assert("形象记忆"@[0] != "例句"@[0]); }
        assert("形象记忆"@ != "英文例句"@) by { reveal_strlit("形象记忆"); reveal_strlit("英文例句"); assert("形象记忆"@[0] != "英文例句"@[0]); }
        assert("形象记忆"@ != "例句中文"@) by { reveal_strlit("形象记忆"); reveal_strlit("例句中文"); assert("形象记忆"@[0] != "例句中文"@[0]); }
        assert("形象记忆"@ != "中文例句"@) by { reveal_strlit("形象记忆"); reveal_strlit("中文例句"); assert("形象记忆"@[0] != "中文例句"@[0]); }
        assert("形象记忆"@ != "例句翻译"@) by { reveal_strlit("形象记忆"); reveal_strlit("例句翻译"); assert("形象记忆"@[0] != "例句翻译"@[0]); }
        assert("形象记忆"@ != "词根词缀"@) by { reveal_strlit("形象记忆"); reveal_strlit("词根词缀"); assert("形象记忆"@[0] != "词根词缀"@[0]); }
        assert("形象记忆"@ != "词根"@) by { reveal_strlit("形象记忆"); reveal_strlit("词根"); assert("形象记忆"@[0] != "词根"@[0]); }
        assert("形象记忆"@ != "词缀"@) by { reveal_strlit("形象记忆"); reveal_strlit("词缀"); assert("形象记忆"@[0] != "词缀"@[0]); }
        assert("形象记忆"@ != "同根词"@) by { reveal_strlit("形象记忆"); reveal_strlit("同根词"); assert("形象记忆"@[0] != "同根词"@[0]); }
        assert("形象记忆"@ != "词族"@) by { reveal_strlit("形象记忆"); reveal_strlit("词族"); assert("形象记忆"@[0] != "词族"@[0]); }
        assert("形象记忆"@ != "派生词"@) by { reveal_strlit("形象记忆"); reveal_strlit("派生词"); assert("形象记忆"@[0] != "派生词"@[0]); }
        assert("形象记忆"@ != "近义词"@) by { reveal_strlit("形象记忆"); reveal_strlit("近义词"); assert("形象记忆"@[0] != "近义词"@[0]); }
        assert("形象记忆"@ != "同义词"@) by { reveal_strlit("形象记忆"); reveal_strlit("同义词"); assert("形象记忆"@[0] != "同义词"@[0]); }
        assert("形象记忆"@ != "反义词"@) by { reveal_strlit("形象记忆"); reveal_strlit("反义词"); assert("形象记忆"@[0] != "反义词"@[0]); }
    }
    assert(field_for_key("记忆法"@) == Some(VocabularyField::MemoryHint)) by {
        assert("记忆法"@ != "中文释义"@) by { reveal_strlit("记忆法"); reveal_strlit("中文释义"); assert("记忆法"@[0] != "中文释义"@[0]); }
        assert("记忆法"@ != "释义"@) by { reveal_strlit("记忆法"); reveal_strlit("释义"); assert("记忆法"@[0] != "释义"@[0]); }
        assert("记忆法"@ != "中文"@) by { reveal_strlit("记忆法"); reveal_strlit("中文"); assert("记忆法"@[0] != "中文"@[0]); }
        assert("记忆法"@ != "意思"@) by { reveal_strlit("记忆法"); reveal_strlit("意思"); assert("记忆法"@[0] != "意思"@[0]); }
        assert("记忆法"@ != "音标"@) by { reveal_strlit("记忆法"); reveal_strlit("音标"); assert("记忆法"@[0] != "音标"@[0]); }
        assert("记忆法"@ != "发音"@) by { reveal_strlit("记忆法"); reveal_strlit("发音"); assert("记忆法"@[0] != "发音"@[0]); }
        assert("记忆法"@ != "词性"@) by { reveal_strlit("记忆法"); reveal_strlit("词性"); assert("记忆法"@[0] != "词性"@[0]); }
        assert("记忆法"@ != "例句"@) by { reveal_strlit("记忆法"); reveal_strlit("例句"); assert("记忆法"@[0] != "例句"@[0]); }
        assert("记忆法"@ != "英文例句"@) by { reveal_strlit("记忆法"); reveal_strlit("英文例句"); assert("记忆法"@[0] != "英文例句"@[0]); }
        assert("记忆法"@ != "例句中文"@) by { reveal_strlit("记忆法"); reveal_strlit("例句中文"); assert("记忆法"@[0] != "例句中文"@[0]); }
        assert("记忆法"@ != "中文例句"@) by { reveal_strlit("记忆法"); reveal_strlit("中文例句"); assert("记忆法"@[0] != "中文例句"@[0]); }
        assert("记忆法"@ != "例句翻译"@) by { reveal_strlit("记忆法"); reveal_strlit("例句翻译"); assert("记忆法"@[0] != "例句翻译"@[0]); }
        assert("记忆法"@ != "词根词缀"@) by { reveal_strlit("记忆法"); reveal_strlit("词根词缀"); assert("记忆法"@[0] != "词根词缀"@[0]); }
        assert("记忆法"@ != "词根"@) by { reveal_strlit("记忆法"); reveal_strlit("词根"); assert("记忆法"@[0] != "词根"@[0]); }
        assert("记忆法"@ != "词缀"@) by { reveal_strlit("记忆法"); reveal_strlit("词缀"); assert("记忆法"@[0] != "词缀"@[0]); }
        assert("记忆法"@ != "同根词"@) by { reveal_strlit("记忆法"); reveal_strlit("同根词"); assert("记忆法"@[0] != "同根词"@[0]); }
        assert("记忆法"@ != "词族"@) by { reveal_strlit("记忆法"); reveal_strlit("词族"); assert("记忆法"@[0] != "词族"@[0]); }
        assert("记忆法"@ != "派生词"@) by { reveal_strlit("记忆法"); reveal_strlit("派生词"); assert("记忆法"@[0] != "派生词"@[0]); }
        assert("记忆法"@ != "近义词"@) by { reveal_strlit("记忆法"); reveal_strlit("近义词"); assert("记忆法"@[0] != "近义词"@[0]); }
        assert("记忆法"@ != "同义词"@) by { reveal_strlit("记忆法"); reveal_strlit("同义词"); assert("记忆法"@[0] != "同义词"@[0]); }
        assert("记忆法"@ != "反义词"@) by { reveal_strlit("记忆法"); reveal_strlit("反义词"); assert("记忆法"@[0] != "反义词"@[0]); }
        assert("记忆法"@ != "形象记忆"@) by { reveal_strlit("记忆法"); reveal_strlit("形象记忆"); assert("记忆法"@[0] != "形象记忆"@[0]); }
    }
    assert(field_for_key("记忆提示"@) == Some(VocabularyField::MemoryHint)) by {
        assert("记忆提示"@ != "中文释义"@) by { reveal_strlit("记忆提示"); reveal_strlit("中文释义"); assert("记忆提示"@[0] != "中文释义"@[0]); }
        assert("记忆提示"@ != "释义"@) by { reveal_strlit("记忆提示"); reveal_strlit("释义"); assert("记忆提示"@[0] != "释义"@[0]); }
        assert("记忆提示"@ != "中文"@) by { reveal_strlit("记忆提示"); reveal_strlit("中文"); assert("记忆提示"@[0] != "中文"@[0]); }
        assert("记忆提示"@ != "意思"@) by { reveal_strlit("记忆提示"); reveal_strlit("意思"); assert("记忆提示"@[0] != "意思"@[0]); }
        assert("记忆提示"@ != "音标"@) by { reveal_strlit("记忆提示"); reveal_strlit("音标"); assert("记忆提示"@[0] != "音标"@[0]); }
        assert("记忆提示"@ != "发音"@) by { reveal_strlit("记忆提示"); reveal_strlit("发音"); assert("记忆提示"@[0] != "发音"@[0]); }
        assert("记忆提示"@ != "词性"@) by { reveal_strlit("记忆提示"); reveal_strlit("词性"); assert("记忆提示"@[0] != "词性"@[0]); }
        assert("记忆提示"@ != "例句"@) by { reveal_strlit("记忆提示"); reveal_strlit("例句"); assert("记忆提示"@[0] != "例句"@[0]); }
        assert("记忆提示"@ != "英文例句"@) by { reveal_strlit("记忆提示"); reveal_strlit("英文例句"); assert("记忆提示"@[0] != "英文例句"@[0]); }
        assert("记忆提示"@ != "例句中文"@) by { reveal_strlit("记忆提示"); reveal_strlit("例句中文"); assert("记忆提示"@[0] != "例句中文"@[0]); }
        assert("记忆提示"@ != "中文例句"@) by { reveal_strlit("记忆提示"); reveal_strlit("中文例句"); assert("记忆提示"@[0] != "中文例句"@[0]); }
        assert("记忆提示"@ != "例句翻译"@) by { reveal_strlit("记忆提示"); reveal_strlit("例句翻译"); assert("记忆提示"@[0] != "例句翻译"@[0]); }
        assert("记忆提示"@ != "词根词缀"@) by { reveal_strlit("记忆提示"); reveal_strlit("词根词缀"); assert("记忆提示"@[0] != "词根词缀"@[0]); }
        assert("记忆提示"@ != "词根"@) by { reveal_strlit("记忆提示"); reveal_strlit("词根"); assert("记忆提示"@[0] != "词根"@[0]); }
        assert("记忆提示"@ != "词缀"@) by { reveal_strlit("记忆提示"); reveal_strlit("词缀"); assert("记忆提示"@[0] != "词缀"@[0]); }
        assert("记忆提示"@ != "同根词"@) by { reveal_strlit("记忆提示"); reveal_strlit("同根词"); assert("记忆提示"@[0] != "同根词"@[0]); }
        assert("记忆提示"@ != "词族"@) by { reveal_strlit("记忆提示"); reveal_strlit("词族"); assert("记忆提示"@[0] != "词族"@[0]); }
        assert("记忆提示"@ != "派生词"@) by { reveal_strlit("记忆提示"); reveal_strlit("派生词"); assert("记忆提示"@[0] != "派生词"@[0]); }
        assert("记忆提示"@ != "近义词"@) by { reveal_strlit("记忆提示"); reveal_strlit("近义词"); assert("记忆提示"@[0] != "近义词"@[0]); }
        assert("记忆提示"@ != "同义词"@) by { reveal_strlit("记忆提示"); reveal_strlit("同义词"); assert("记忆提示"@[0] != "同义词"@[0]); }
        assert("记忆提示"@ != "反义词"@) by { reveal_strlit("记忆提示"); reveal_strlit("反义词"); assert("记忆提示"@[0] != "反义词"@[0]); }
        assert("记忆提示"@ != "形象记忆"@) by { reveal_strlit("记忆提示"); reveal_strlit("形象记忆"); assert("记忆提示"@[0] != "形象记忆"@[0]); }
        assert("记忆提示"@ != "记忆法"@) by { reveal_strlit("记忆提示"); reveal_strlit("记忆法"); assert("记忆提示"@.len() != "记忆法"@.len()); }
    }
    assert(field_for_key("场景标签"@) == Some(VocabularyField::Tags)) by {
        assert("场景标签"@ != "中文释义"@) by { reveal_strlit("场景标签"); reveal_strlit("中文释义"); assert("场景标签"@[0] != "中文释义"@[0]); }
        assert("场景标签"@ != "释义"@) by { reveal_strlit("场景标签"); reveal_strlit("释义"); assert("场景标签"@[0] != "释义"@[0]); }
        assert("场景标签"@ != "中文"@) by { reveal_strlit("场景标签"); reveal_strlit("中文"); assert("场景标签"@[0] != "中文"@[0]); }
        assert("场景标签"@ != "意思"@) by { reveal_strlit("场景标签"); reveal_strlit("意思"); assert("场景标签"@[0] != "意思"@[0]); }
        assert("场景标签"@ != "音标"@) by { reveal_strlit("场景标签"); reveal_strlit("音标"); assert("场景标签"@[0] != "音标"@[0]); }
        assert("场景标签"@ != "发音"@) by { reveal_strlit("场景标签"); reveal_strlit("发音"); assert("场景标签"@[0] != "发音"@[0]); }
        assert("场景标签"@ != "词性"@) by { reveal_strlit("场景标签"); reveal_strlit("词性"); assert("场景标签"@[0] != "词性"@[0]); }
        assert("场景标签"@ != "例句"@) by { reveal_strlit("场景标签"); reveal_strlit("例句"); assert("场景标签"@[0] != "例句"@[0]); }
        assert("场景标签"@ != "英文例句"@) by { reveal_strlit("场景标签"); reveal_strlit("英文例句"); assert("场景标签"@[0] != "英文例句"@[0]); }
        assert("场景标签"@ != "例句中文"@) by { reveal_strlit("场景标签"); reveal_strlit("例句中文"); assert("场景标签"@[0] != "例句中文"@[0]); }
        assert("场景标签"@ != "中文例句"@) by { reveal_strlit("场景标签"); reveal_strlit("中文例句"); assert("场景标签"@[0] != "中文例句"@[0]); }
        assert("场景标签"@ != "例句翻译"@) by { reveal_strlit("场景标签"); reveal_strlit("例句翻译"); assert("场景标签"@[0] != "例句翻译"@[0]); }
        assert("场景标签"@ != "词根词缀"@) by { reveal_strlit("场景标签"); reveal_strlit("词根词缀"); assert("场景标签"@[0] != "词根词缀"@[0]); }
        assert("场景标签"@ != "词根"@) by { reveal_strlit("场景标签"); reveal_strlit("词根"); assert("场景标签"@[0] != "词根"@[0]); }
        assert("场景标签"@ != "词缀"@) by { reveal_strlit("场景标签"); reveal_strlit("词缀"); assert("场景标签"@[0] != "词缀"@[0]); }
        assert("场景标签"@ != "同根词"@) by { reveal_strlit("场景标签"); reveal_strlit("同根词"); assert("场景标签"@[0] != "同根词"@[0]); }
        assert("场景标签"@ != "词族"@) by { reveal_strlit("场景标签"); reveal_strlit("词族"); assert("场景标签"@[0] != "词族"@[0]); }
        assert("场景标签"@ != "派生词"@) by { reveal_strlit("场景标签"); reveal_strlit("派生词"); assert("场景标签"@[0] != "派生词"@[0]); }
        assert("场景标签"@ != "近义词"@) by { reveal_strlit("场景标签"); reveal_strlit("近义词"); assert("场景标签"@[0] != "近义词"@[0]); }
        assert("场景标签"@ != "同义词"@) by { reveal_strlit("场景标签"); reveal_strlit("同义词"); assert("场景标签"@[0] != "同义词"@[0]); }
        assert("场景标签"@ != "反义词"@) by { reveal_strlit("场景标签"); reveal_strlit("反义词"); assert("场景标签"@[0] != "反义词"@[0]); }
        assert("场景标签"@ != "形象记忆"@) by { reveal_strlit("场景标签"); reveal_strlit("形象记忆"); assert("场景标签"@[0] != "形象记忆"@[0]); }
        assert("场景标签"@ != "记忆法"@) by { reveal_strlit("场景标签"); reveal_strlit("记忆法"); assert("场景标签"@[0] != "记忆法"@[0]); }
        assert("场景标签"@ != "记忆提示"@) by { reveal_strlit("场景标签"); reveal_strlit("记忆提示"); assert("场景标签"@[0] != "记忆提示"@[0]); }
    }
    assert(field_for_key("标签"@) == Some(VocabularyField::Tags)) by {
        assert("标签"@ != "中文释义"@) by { reveal_strlit("标签"); reveal_strlit("中文释义"); assert("标签"@[0] != "中文释义"@[0]); }
        assert("标签"@ != "释义"@) by { reveal_strlit("标签"); reveal_strlit("释义"); assert("标签"@[0] != "释义"@[0]); }
        assert("标签"@ != "中文"@) by { reveal_strlit("标签"); reveal_strlit("中文"); assert("标签"@[0] != "中文"@[0]); }
        assert("标签"@ != "意思"@) by { reveal_strlit("标签"); reveal_strlit("意思"); assert("标签"@[0] != "意思"@[0]); }
        assert("标签"@ != "音标"@) by { reveal_strlit("标签"); reveal_strlit("音标"); assert("标签"@[0] != "音标"@[0]); }
        assert("标签"@ != "发音"@) by { reveal_strlit("标签"); reveal_strlit("发音"); assert("标签"@[0] != "发音"@[0]); }
        assert("标签"@ != "词性"@) by { reveal_strlit("标签"); reveal_strlit("词性"); assert("标签"@[0] != "词性"@[0]); }
        assert("标签"@ != "例句"@) by { reveal_strlit("标签"); reveal_strlit("例句"); assert("标签"@[0] != "例句"@[0]); }
        assert("标签"@ != "英文例句"@) by { reveal_strlit("标签"); reveal_strlit("英文例句"); assert("标签"@[0] != "英文例句"@[0]); }
        assert("标签"@ != "例句中文"@) by { reveal_strlit("标签"); reveal_strlit("例句中文"); assert("标签"@[0] != "例句中文"@[0]); }
        assert("标签"@ != "中文例句"@) by { reveal_strlit("标签"); reveal_strlit("中文例句"); assert("标签"@[0] != "中文例句"@[0]); }
        assert("标签"@ != "例句翻译"@) by { reveal_strlit("标签"); reveal_strlit("例句翻译"); assert("标签"@[0] != "例句翻译"@[0]); }
        assert("标签"@ != "词根词缀"@) by { reveal_strlit("标签"); reveal_strlit("词根词缀"); assert("标签"@[0] != "词根词缀"@[0]); }
        assert("标签"@ != "词根"@) by { reveal_strlit("标签"); reveal_strlit("词根"); assert("标签"@[0] != "词根"@[0]); }
        assert("标签"@ != "词缀"@) by { reveal_strlit("标签"); reveal_strlit("词缀"); assert("标签"@[0] != "词缀"@[0]); }
        assert("标签"@ != "同根词"@) by { reveal_strlit("标签"); reveal_strlit("同根词"); assert("标签"@[0] != "同根词"@[0]); }
        assert("标签"@ != "词族"@) by { reveal_strlit("标签"); reveal_strlit("词族"); assert("标签"@[0] != "词族"@[0]); }
        assert("标签"@ != "派生词"@) by { reveal_strlit("标签"); reveal_strlit("派生词"); assert("标签"@[0] != "派生词"@[0]); }
        assert("标签"@ != "近义词"@) by { reveal_strlit("标签"); reveal_strlit("近义词"); assert("标签"@[0] != "近义词"@[0]); }
        assert("标签"@ != "同义词"@) by { reveal_strlit("标签"); reveal_strlit("同义词"); assert("标签"@[0] != "同义词"@[0]); }
        assert("标签"@ != "反义词"@) by { reveal_strlit("标签"); reveal_strlit("反义词"); assert("标签"@[0] != "反义词"@[0]); }
        assert("标签"@ != "形象记忆"@) by { reveal_strlit("标签"); reveal_strlit("形象记忆"); assert("标签"@[0] != "形象记忆"@[0]); }
        assert("标签"@ != "记忆法"@) by { reveal_strlit("标签"); reveal_strlit("记忆法"); assert("标签"@[0] != "记忆法"@[0]); }
        assert("标签"@ != "记忆提示"@) by { reveal_strlit("标签"); reveal_strlit("记忆提示"); assert("标签"@[0] != "记忆提示"@[0]); }
        assert("标签"@ != "场景标签"@) by { reveal_strlit("标签"); reveal_strlit("场景标签"); assert("标签"@[0] != "场景标签"@[0]); }
    }
    assert(field_for_key("场景"@) == Some(VocabularyField::Tags)) by {
        assert("场景"@ != "中文释义"@) by { reveal_strlit("场景"); reveal_strlit("中文释义"); assert("场景"@[0] != "中文释义"@[0]); }
        assert("场景"@ != "释义"@) by { reveal_strlit("场景"); reveal_strlit("释义"); assert("场景"@[0] != "释义"@[0]); }
        assert("场景"@ != "中文"@) by { reveal_strlit("场景"); reveal_strlit("中文"); assert("场景"@[0] != "中文"@[0]); }
        assert("场景"@ != "意思"@) by { reveal_strlit("场景"); reveal_strlit("意思"); assert("场景"@[0] != "意思"@[0]); }
        assert("场景"@ != "音标"@) by { reveal_strlit("场景"); reveal_strlit("音标"); assert("场景"@[0] != "音标"@[0]); }
        assert("场景"@ != "发音"@) by { reveal_strlit("场景"); reveal_strlit("发音"); assert("场景"@[0] != "发音"@[0]); }
        assert("场景"@ != "词性"@) by { reveal_strlit("场景"); reveal_strlit("词性"); assert("场景"@[0] != "词性"@[0]); }
        assert("场景"@ != "例句"@) by { reveal_strlit("场景"); reveal_strlit("例句"); assert("场景"@[0] != "例句"@[0]); }
        assert("场景"@ != "英文例句"@) by { reveal_strlit("场景"); reveal_strlit("英文例句"); assert("场景"@[0] != "英文例句"@[0]); }
        assert("场景"@ != "例句中文"@) by { reveal_strlit("场景"); reveal_strlit("例句中文"); assert("场景"@[0] != "例句中文"@[0]); }
        assert("场景"@ != "中文例句"@) by { reveal_strlit("场景"); reveal_strlit("中文例句"); assert("场景"@[0] != "中文例句"@[0]); }
        assert("场景"@ != "例句翻译"@) by { reveal_strlit("场景"); reveal_strlit("例句翻译"); assert("场景"@[0] != "例句翻译"@[0]); }
        assert("场景"@ != "词根词缀"@) by { reveal_strlit("场景"); reveal_strlit("词根词缀"); assert("场景"@[0] != "词根词缀"@[0]); }
        assert("场景"@ != "词根"@) by { reveal_strlit("场景"); reveal_strlit("词根"); assert("场景"@[0] != "词根"@[0]); }
        assert("场景"@ != "词缀"@) by { reveal_strlit("场景"); reveal_strlit("词缀"); assert("场景"@[0] != "词缀"@[0]); }
        assert("场景"@ != "同根词"@) by { reveal_strlit("场景"); reveal_strlit("同根词"); assert("场景"@[0] != "同根词"@[0]); }
        assert("场景"@ != "词族"@) by { reveal_strlit("场景"); reveal_strlit("词族"); assert("场景"@[0] != "词族"@[0]); }
        assert("场景"@ != "派生词"@) by { reveal_strlit("场景"); reveal_strlit("派生词"); assert("场景"@[0] != "派生词"@[0]); }
        assert("场景"@ != "近义词"@) by { reveal_strlit("场景"); reveal_strlit("近义词"); assert("场景"@[0] != "近义词"@[0]); }
        assert("场景"@ != "同义词"@) by { reveal_strlit("场景"); reveal_strlit("同义词"); assert("场景"@[0] != "同义词"@[0]); }
        assert("场景"@ != "反义词"@) by { reveal_strlit("场景"); reveal_strlit("反义词"); assert("场景"@[0] != "反义词"@[0]); }
        assert("场景"@ != "形象记忆"@) by { reveal_strlit("场景"); reveal_strlit("形象记忆"); assert("场景"@[0] != "形象记忆"@[0]); }
        assert("场景"@ != "记忆法"@) by { reveal_strlit("场景"); reveal_strlit("记忆法"); assert("场景"@[0] != "记忆法"@[0]); }
        assert("场景"@ != "记忆提示"@) by { reveal_strlit("场景"); reveal_strlit("记忆提示"); assert("场景"@[0] != "记忆提示"@[0]); }
        assert("场景"@ != "场景标签"@) by { reveal_strlit("场景"); reveal_strlit("场景标签"); assert("场景"@.len() != "场景标签"@.len()); }
        assert("场景"@ != "标签"@) by { reveal_strlit("场景"); reveal_strlit("标签"); assert("场景"@[0] != "标签"@[0]); }
    }
    assert(field_for_key("难度"@) == Some(VocabularyField::Difficulty)) by {
        assert("难度"@ != "中文释义"@) by { reveal_strlit("难度"); reveal_strlit("中文释义"); assert("难度"@[0] != "中文释义"@[0]); }
        assert("难度"@ != "释义"@) by { reveal_strlit("难度"); reveal_strlit("释义"); assert("难度"@[0] != "释义"@[0]); }
        assert("难度"@ != "中文"@) by { reveal_strlit("难度"); reveal_strlit("中文"); assert("难度"@[0] != "中文"@[0]); }
        assert("难度"@ != "意思"@) by { reveal_strlit("难度"); reveal_strlit("意思"); assert("难度"@[0] != "意思"@[0]); }
        assert("难度"@ != "音标"@) by { reveal_strlit("难度"); reveal_strlit("音标"); assert("难度"@[0] != "音标"@[0]); }
        assert("难度"@ != "发音"@) by { reveal_strlit("难度"); reveal_strlit("发音"); assert("难度"@[0] != "发音"@[0]); }
        assert("难度"@ != "词性"@) by { reveal_strlit("难度"); reveal_strlit("词性"); assert("难度"@[0] != "词性"@[0]); }
        assert("难度"@ != "例句"@) by { reveal_strlit("难度"); reveal_strlit("例句"); assert("难度"@[0] != "例句"@[0]); }
        assert("难度"@ != "英文例句"@) by { reveal_strlit("难度"); reveal_strlit("英文例句"); assert("难度"@[0] != "英文例句"@[0]); }
        assert("难度"@ != "例句中文"@) by { reveal_strlit("难度"); reveal_strlit("例句中文"); assert("难度"@[0] != "例句中文"@[0]); }
        assert("难度"@ != "中文例句"@) by { reveal_strlit("难度"); reveal_strlit("中文例句"); assert("难度"@[0] != "中文例句"@[0]); }
        assert("难度"@ != "例句翻译"@) by { reveal_strlit("难度"); reveal_strlit("例句翻译"); assert("难度"@[0] != "例句翻译"@[0]); }
        assert("难度"@ != "词根词缀"@) by { reveal_strlit("难度"); reveal_strlit("词根词缀"); assert("难度"@[0] != "词根词缀"@[0]); }
        assert("难度"@ != "词根"@) by { reveal_strlit("难度"); reveal_strlit("词根"); assert("难度"@[0] != "词根"@[0]); }
        assert("难度"@ != "词缀"@) by { reveal_strlit("难度"); reveal_strlit("词缀"); assert("难度"@[0] != "词缀"@[0]); }
        assert("难度"@ != "同根词"@) by { reveal_strlit("难度"); reveal_strlit("同根词"); assert("难度"@[0] != "同根词"@[0]); }
        assert("难度"@ != "词族"@) by { reveal_strlit("难度"); reveal_strlit("词族"); assert("难度"@[0] != "词族"@[0]); }
        assert("难度"@ != "派生词"@) by { reveal_strlit("难度"); reveal_strlit("派生词"); assert("难度"@[0] != "派生词"@[0]); }
        assert("难度"@ != "近义词"@) by { reveal_strlit("难度"); reveal_strlit("近义词"); assert("难度"@[0] != "近义词"@[0]); }
        assert("难度"@ != "同义词"@) by { reveal_strlit("难度"); reveal_strlit("同义词"); assert("难度"@[0] != "同义词"@[0]); }
        assert("难度"@ != "反义词"@) by { reveal_strlit("难度"); reveal_strlit("反义词"); assert("难度"@[0] != "反义词"@[0]); }
        assert("难度"@ != "形象记忆"@) by { reveal_strlit("难度"); reveal_strlit("形象记忆"); assert("难度"@[0] != "形象记忆"@[0]); }
        assert("难度"@ != "记忆法"@) by { reveal_strlit("难度"); reveal_strlit("记忆法"); assert("难度"@[0] != "记忆法"@[0]); }
        assert("难度"@ != "记忆提示"@) by { reveal_strlit("难度"); reveal_strlit("记忆提示"); assert("难度"@[0] != "记忆提示"@[0]); }
        assert("难度"@ != "场景标签"@) by { reveal_strlit("难度"); reveal_strlit("场景标签"); assert("难度"@[0] != "场景标签"@[0]); }
        assert("难度"@ != "标签"@) by { reveal_strlit("难度"); reveal_strlit("标签"); assert("难度"@[0] != "标签"@[0]); }
        assert("难度"@ != "场景"@) by { reveal_strlit("难度"); reveal_strlit("场景"); assert("难度"@[0] != "场景"@[0]); }
    }
}

/// The text after the `-` or `*` bullet of a field line, trimmed.
pub open spec fn field_line_body(line: Seq<char>) -> Option<Seq<char>> {
    let t = trim(line);
    if t.len() > 0 && (t[0] == '-' || t[0] == '*') {
        Some(trim(t.drop_first()))
    } else {
        None
    }
}

/// A bulleted `key：value` (full-width colon first) or `key:value` line, as trimmed
/// `(key, value)` when both are non-empty.
pub open spec fn field_line_spec(line: Seq<char>) -> Option<(Seq<char>, Seq<char>)> {
    match field_line_body(line) {
        None => None,
        Some(body) => field_pair(body),
    }
}

/// The `(key, value)` pair of a bullet body.
pub open spec fn field_pair(body: Seq<char>) -> Option<(Seq<char>, Seq<char>)> {
    let split = match split_once_spec(body, '：') {
        Some(p) => Some(p),
        None => split_once_spec(body, ':'),
    };
    match split {
        None => None,
        Some((k, v)) => if trim(k).len() == 0 || trim(v).len() == 0 {
            None
        } else {
            Some((trim(k), trim(v)))
        },
    }
}

fn split_field_pair(body: &Vec<char>) -> (r: Option<(String, String)>)
    ensures
        match r {
            Some((k, v)) => field_pair(body@) == Some((k@, v@)),
            None => field_pair(body@) is None,
        },
{
    let split = match split_once_char(body, '：') {
        Some(p) => Some(p),
        None => split_once_char(body, ':'),
    };
    match split {
        None => None,
        Some((k, val)) => {
            let kt = trim_vec(&k);
            let vt = trim_vec(&val);
            if kt.len() == 0 || vt.len() == 0 {
                None
            } else {
                Some((string_of(&kt), string_of(&vt)))
            }
        },
    }
}

/// Reads a `- key：value` field line.
pub fn parse_field_line(line: &str) -> (r: Option<(String, String)>)
    ensures
        match r {
            Some((k, v)) => field_line_spec(line@) == Some((k@, v@)),
            None => field_line_spec(line@) is None,
        },
{
    let v = chars_of(line);
    let t = trim_vec(&v);
    if t.len() == 0 || !(t[0] == '-' || t[0] == '*') {
        assert(field_line_body(line@) is None);
        return None;
    }
    let rest = subvec(&t, 1, t.len());
    assert(rest@ =~= t@.drop_first());
    let body = trim_vec(&rest);
    assert(field_line_body(line@) == Some(body@));
    split_field_pair(&body)
}

/// The pieces of `s` between line feeds (the last piece may be empty). Apart from a trailing
/// empty piece and carriage returns, which the parser trims away, these are `str::lines`.
pub open spec fn split_lines(s: Seq<char>) -> Seq<Seq<char>>
    decreases s.len(),
{
    if s.len() == 0 {
        seq![Seq::<char>::empty()]
    } else {
        let prev = split_lines(s.drop_last());
        if s.last() == '\n' {
            prev.push(Seq::<char>::empty())
        } else {
            prev.update(prev.len() - 1, prev.last().push(s.last()))
        }
    }
}

pub proof fn lemma_split_lines_len(s: Seq<char>)
    ensures
        1 <= split_lines(s).len() <= s.len() + 1,
    decreases s.len(),
{
    if s.len() > 0 {
        lemma_split_lines_len(s.drop_last());
    }
}

/// The state of the Markdown reader between lines.
pub struct MarkdownState {
    pub title: Option<Seq<char>>,
    pub entries: Seq<EntryModel>,
    pub skipped: int,
    pub current: Option<EntryModel>,
}

pub open spec fn initial_markdown_state() -> MarkdownState {
    MarkdownState { title: None, entries: seq![], skipped: 0, current: None }
}

/// An entry is kept when its headword and its meaning are both non-blank.
pub open spec fn entry_is_complete(e: EntryModel) -> bool {
    trim(e.text).len() > 0 && trim(e.primary_meaning).len() > 0
}

/// Closes the open section: a complete entry is kept, an incomplete one is counted as skipped.
pub open spec fn flush_entry(st: MarkdownState) -> MarkdownState {
    match st.current {
        None => st,
        Some(e) => if entry_is_complete(e) {
            MarkdownState { entries: st.entries.push(e), current: None, ..st }
        } else {
            MarkdownState { skipped: st.skipped + 1, current: None, ..st }
        },
    }
}

/// The line opens a `## ` section.
pub open spec fn is_section_line(line: Seq<char>) -> bool {
    "## "@.is_prefix_of(trim(line))
}

/// One line (number `index`, from 0) of the book.
pub open spec fn markdown_step(st: MarkdownState, line: Seq<char>, index: int) -> MarkdownState {
    let t = trim(line);
    if t.len() == 0 {
        st
    } else if "# "@.is_prefix_of(t) && st.title is None {
        MarkdownState { title: Some(trim(strip_prefix_repeat(t, "# "@))), ..st }
    } else if "## "@.is_prefix_of(t) {
        let f = flush_entry(st);
        MarkdownState {
            current: Some(empty_entry_model(trim(strip_prefix_repeat(t, "## "@)), index + 1)),
            ..f
        }
    } else {
        match field_line_spec(t) {
            Some((k, v)) => match st.current {
                Some(e) => MarkdownState { current: Some(apply_field_model(e, k, v)), ..st },
                None => st,
            },
            None => st,
        }
    }
}

/// The state after the first `k` lines.
pub open spec fn markdown_fold(lines: Seq<Seq<char>>, k: nat) -> MarkdownState
    decreases k,
{
    if k == 0 {
        initial_markdown_state()
    } else {
        markdown_step(markdown_fold(lines, (k - 1) as nat), lines[k - 1], k - 1)
    }
}

/// What the reader makes of a whole book: its title, its complete entries, and the number of
/// sections that were skipped for lack of a headword or a meaning.
pub open spec fn parsed_markdown(raw: Seq<char>) -> MarkdownState {
    let lines = split_lines(raw);
    flush_entry(markdown_fold(lines, lines.len()))
}

/// The number of section lines among the first `k` lines.
pub open spec fn section_count(lines: Seq<Seq<char>>, k: nat) -> nat
    decreases k,
{
    if k == 0 {
        0
    } else {
        section_count(lines, (k - 1) as nat) + if is_section_line(lines[k - 1]) { 1nat } else { 0nat }
    }
}

pub proof fn lemma_fold_prefix(a: Seq<Seq<char>>, b: Seq<Seq<char>>, k: nat)
    requires
        k <= a.len(),
        k <= b.len(),
        forall|i: int| 0 <= i < k ==> a[i] == b[i],
    ensures
        markdown_fold(a, k) == markdown_fold(b, k),
        section_count(a, k) == section_count(b, k),
    decreases k,
{
    if k > 0 {
        lemma_fold_prefix(a, b, (k - 1) as nat);
    }
}

/// Every section is accounted for: kept, skipped, or still open; kept entries are complete.
pub proof fn lemma_fold_accounting(lines: Seq<Seq<char>>, k: nat)
    requires
        k <= lines.len(),
    ensures
        ({
            let st = markdown_fold(lines, k);
            &&& st.entries.len() + st.skipped + (if st.current is Some { 1int } else { 0int })
                == section_count(lines, k)
            &&& st.skipped >= 0
            &&& forall|i: int| 0 <= i < st.entries.len() ==> entry_is_complete(#[trigger] st.entries[i])
            &&& st.current matches Some(e) ==> 1 <= e.source_line <= k
            &&& forall|i: int| 0 <= i < st.entries.len() ==> 1 <= (#[trigger] st.entries[i]).source_line <= k
        }),
    decreases k,
{
    if k > 0 {
        lemma_fold_accounting(lines, (k - 1) as nat);
        let prev = markdown_fold(lines, (k - 1) as nat);
        let line = lines[k - 1];
        let t = trim(line);
        let f = flush_entry(prev);
        reveal_strlit("# ");
        reveal_strlit("## ");
        assert(forall|i: int| 0 <= i < f.entries.len() ==> entry_is_complete(#[trigger] f.entries[i]));
        assert(forall|i: int| 0 <= i < f.entries.len() ==> 1 <= (#[trigger] f.entries[i]).source_line <= k);
        assert(f.entries.len() + f.skipped == prev.entries.len() + prev.skipped + (if prev.current is Some { 1int } else { 0int }));
        if "## "@.is_prefix_of(t) {
            let p2 = "## "@;
            let p1 = "# "@;
            assert(p2.len() == 3 && p2[0] == '#' && p2[1] == '#');
            assert(p1.len() == 2 && p1[1] == ' ');
            assert(t.subrange(0, 3)[1] == t[1]);
            assert(t[1] == '#');
            if p1.is_prefix_of(t) {
                assert(t.subrange(0, 2)[1] == t[1]);
            }
            assert(!"# "@.is_prefix_of(t));
        } else if t.len() == 0 {
        } else if "# "@.is_prefix_of(t) && prev.title is None {
        } else {
        }
    }
}

/// The exec state of the reader.
struct MarkdownReader {
    title: Option<String>,
    entries: Vec<ParsedVocabularyEntry>,
    skipped: i64,
    current: Option<ParsedVocabularyEntry>,
}

impl MarkdownReader {
    spec fn model(&self) -> MarkdownState {
        MarkdownState {
            title: match self.title {
                Some(t) => Some(t@),
                None => None,
            },
            entries: self.entries@.map_values(|e: ParsedVocabularyEntry| e@),
            skipped: self.skipped as int,
            current: match self.current {
                Some(e) => Some(e@),
                None => None,
            },
        }
    }

    fn flush(&mut self)
        requires
            old(self).model().skipped < i64::MAX,
        ensures
            final(self).model() == flush_entry(old(self).model()),
    {
        let cur = self.current.take();
        match cur {
            None => {},
            Some(e) => {
                let text = chars_of(e.text.as_str());
                let meaning = chars_of(e.primary_meaning.as_str());
                let tt = trim_vec(&text);
                let tm = trim_vec(&meaning);
                if tt.len() == 0 || tm.len() == 0 {
                    self.skipped = self.skipped + 1;
                } else {
                    let ghost before = self.entries@;
                    self.entries.push(e);
                    assert(self.entries@.map_values(|e: ParsedVocabularyEntry| e@)
                        =~= before.map_values(|e: ParsedVocabularyEntry| e@).push(e@));
                }
            },
        }
    }

    fn step(&mut self, line: &Vec<char>, index: usize)
        requires
            old(self).model().skipped < i64::MAX,
            index < i64::MAX,
        ensures
            final(self).model() == markdown_step(old(self).model(), line@, index as int),
    {
        let t = trim_vec(line);
        if t.len() == 0 {
            return;
        }
        let hash = chars_of("# ");
        let hash2 = chars_of("## ");
        if vec_starts_with(&t, &hash) && self.title.is_none() {
            let stripped = trim_start_matches_vec(&t, &hash);
            let title = trim_vec(&stripped);
            self.title = Some(string_of(&title));
            return;
        }
        if vec_starts_with(&t, &hash2) {
            self.flush();
            let stripped = trim_start_matches_vec(&t, &hash2);
            let word = trim_vec(&stripped);
            self.current = Some(empty_vocabulary_entry(string_of(&word), index as i64 + 1));
            return;
        }
        let ts = string_of(&t);
        match parse_field_line(ts.as_str()) {
            Some((k, v)) => {
                match self.current.take() {
                    Some(mut e) => {
                        apply_vocabulary_field(&mut e, k.as_str(), v);
                        self.current = Some(e);
                    },
                    None => {},
                }
            },
            None => {},
        }
    }
}

/// Reads a Markdown vocabulary book: the title, the complete entries in order, and the count
/// of sections skipped because their headword or meaning was blank.
pub fn parse_vocabulary_book_markdown(raw_text: &str) -> (r: (Option<String>, Vec<ParsedVocabularyEntry>, i64))
    requires
        raw_text@.len() < i64::MAX - 1,
    ensures
        ({
            let st = parsed_markdown(raw_text@);
            &&& (match r.0 { Some(t) => st.title == Some(t@), None => st.title is None })
            &&& r.1@.map_values(|e: ParsedVocabularyEntry| e@) == st.entries
            &&& r.2 as int == st.skipped
        }),
        // every `## ` section ends up either among the entries or among the skipped ones
        r.1.len() + r.2 == section_count(split_lines(raw_text@), split_lines(raw_text@).len()),
        forall|i: int| 0 <= i < r.1.len() ==> entry_is_complete(#[trigger] r.1@[i]@),
{
    let v = chars_of(raw_text);
    let n = v.len();
    let mut reader = MarkdownReader { title: None, entries: Vec::new(), skipped: 0, current: None };
    let mut line: Vec<char> = Vec::new();
    let mut line_index: usize = 0;
    let mut i: usize = 0;
    assert(reader.model().entries =~= seq![]);
    assert(v@.subrange(0, 0) =~= Seq::<char>::empty());
    while i < n
        invariant
            i <= n == v.len(),
            v@ == raw_text@,
            n < i64::MAX - 1,
            split_lines(v@.subrange(0, i as int)).len() == line_index + 1,
            split_lines(v@.subrange(0, i as int)).last() == line@,
            reader.model() == markdown_fold(split_lines(v@.subrange(0, i as int)), line_index as nat),
            line_index <= i,
        decreases n - i,
    {
        let ghost pre = v@.subrange(0, i as int);
        let ghost post = v@.subrange(0, i + 1);
        assert(post.drop_last() =~= pre);
        assert(post.last() == v@[i as int]);
        let ghost lines_pre = split_lines(pre);
        let ghost lines_post = split_lines(post);
        proof {
            lemma_split_lines_len(pre);
            lemma_fold_accounting(lines_pre, line_index as nat);
            lemma_section_count_le(lines_pre, line_index as nat);
        }
        if v[i] == '\n' {
            assert(lines_post == lines_pre.push(Seq::<char>::empty()));
            reader.step(&line, line_index);
            proof {
                lemma_fold_prefix(lines_pre, lines_post, line_index as nat);
                assert(lines_pre[line_index as int] == line@);
                assert(lines_post[line_index as int] == line@);
            }
            line = Vec::new();
            line_index = line_index + 1;
            assert(lines_post.last() =~= line@);
        } else {
            line.push(v[i]);
            assert(lines_post == lines_pre.update(lines_pre.len() - 1, lines_pre.last().push(v@[i as int])));
            proof {
                lemma_fold_prefix(lines_pre, lines_post, line_index as nat);
            }
        }
        i = i + 1;
    }
    assert(v@.subrange(0, n as int) =~= v@);
    let ghost lines = split_lines(v@);
    proof {
        lemma_split_lines_len(v@);
        lemma_fold_accounting(lines, line_index as nat);
        lemma_section_count_le(lines, line_index as nat);
    }
    reader.step(&line, line_index);
    proof {
        lemma_fold_accounting(lines, lines.len());
        lemma_section_count_le(lines, lines.len());
    }
    reader.flush();
    proof {
        let pre = markdown_fold(lines, lines.len());
        assert(reader.model() == flush_entry(pre));
        assert(reader.model().entries.len() == reader.entries@.len());
        assert forall|i: int| 0 <= i < reader.entries.len() implies entry_is_complete(#[trigger] reader.entries@[i]@) by {
            assert(reader.model().entries[i] == reader.entries@[i]@);
            match pre.current {
                Some(e) => {
                    if entry_is_complete(e) {
                        assert(reader.model().entries == pre.entries.push(e));
                        if i < pre.entries.len() {
                            assert(reader.model().entries[i] == pre.entries[i]);
                        }
                    } else {
                        assert(reader.model().entries == pre.entries);
                    }
                },
                None => {},
            }
        }
    }
    (reader.title, reader.entries, reader.skipped)
}

pub proof fn lemma_section_count_le(lines: Seq<Seq<char>>, k: nat)
    ensures
        section_count(lines, k) <= k,
    decreases k,
{
    if k > 0 {
        lemma_section_count_le(lines, (k - 1) as nat);
    }
}

} // verus!
