//! Talking to a language model: provider defaults and endpoint normalisation, the prompts,
//! reading the model's reply, and checking which target words a generated scene covers.

use vstd::prelude::*;
use crate::json::{pointer_step, json_text, json_to_string, parse_json_text, parsed_json, token_views, follow_pointer, get_member, json_get, json_pointer, member_index, JsonValue};
use crate::text::{lowercase_of, decimal, push_decimal, vec_starts_with, 
    decimal_int, push_decimal_i64, trim_str,
    join_seqs, string_views, push_joined, push_prefix, strip_prefix_repeat, strip_suffix_repeat,
    trim_start_matches_vec, trim_end_matches_vec, find_vec, first_occurrence, lemma_first_occurrence, occurs_at, subvec,
    trim_end_by, trim_end_vec_by, lit,
    append_vec, chars_of, is_ws, str_eq, string_of, string_of_range, trim, trim_bounds, trim_by,
    trim_pred, trim_vec, trim_vec_by, vec_ends_with, TrimKind,
};

verus! {

pub struct LlmProfileSecretRequest {
    pub profile_id: String,
    pub api_key: String,
}

pub struct GenerateSceneRequest {
    pub api_key: String,
    pub title: String,
    pub topic: String,
    pub vocabulary_item_ids: Vec<String>,
}

pub struct EnrichVocabularyRequest {
    pub profile_id: String,
    pub api_key: String,
    pub words: Vec<String>,
}

pub struct EnrichedVocabularyEntry {
    pub text: String,
    pub primary_meaning: String,
    pub phonetic: String,
    pub part_of_speech: String,
    pub example: String,
    pub example_cn: String,
    pub roots: String,
    pub word_family: String,
    pub synonyms: String,
    pub antonyms: String,
    pub memory_hint: String,
    pub tags: String,
    pub difficulty: String,
}

pub struct EnrichVocabularyResponse {
    pub entries: Vec<EnrichedVocabularyEntry>,
    pub request_json: String,
    pub response_json: String,
}

pub struct PlanSceneBatchRequest {
    pub title: String,
    pub course_pack_id: Option<String>,
    pub selected_topics: Vec<String>,
    pub core_word_ids: Vec<String>,
}

pub struct GenerateSceneBatchRequest {
    pub batch_id: String,
    pub profile_id: String,
    pub api_key: String,
}

pub struct AddScenesToCourseRequest {
    pub scene_ids: Vec<String>,
    pub course_pack_id: String,
}

pub struct SceneGenerationBatch {
    pub id: String,
    pub title: String,
    pub course_pack_id: Option<String>,
    pub selected_topics: String,
    pub word_source: String,
    pub core_word_count: i64,
    pub support_word_count: i64,
    pub planned_scene_count: i64,
    pub status: String,
    pub coverage_summary: String,
    pub error_message: String,
    pub created_at: String,
    pub updated_at: String,
}

pub struct SceneGenerationPlan {
    pub id: String,
    pub batch_id: String,
    pub sort_order: i64,
    pub title: String,
    pub topic: String,
    pub core_word_ids: String,
    pub support_word_ids: String,
    pub core_words_snapshot: String,
    pub support_words_snapshot: String,
    pub status: String,
    pub generated_scene_id: Option<String>,
    pub error_message: String,
    pub created_at: String,
    pub updated_at: String,
}

pub struct SceneBatchPlanResponse {
    pub batch: SceneGenerationBatch,
    pub plans: Vec<SceneGenerationPlan>,
}

pub struct AddScenesToCourseResponse {
    pub created_lessons: i64,
    pub created_sentences: i64,
}

pub struct GeneratedScene {
    pub id: String,
    pub title: String,
    pub scenario: String,
    pub prompt_version: String,
    pub model: String,
    pub status: String,
    pub target_words_snapshot: String,
    pub request_json: String,
    pub response_json: String,
    pub error_message: String,
    pub batch_id: Option<String>,
    pub planned_course_pack_id: Option<String>,
    pub lesson_id: Option<String>,
    pub coverage_json: String,
    pub is_added_to_course: bool,
    pub created_at: String,
    pub updated_at: String,
}

pub struct SceneLine {
    pub id: String,
    pub scene_id: String,
    pub sort_order: i64,
    pub speaker: String,
    pub english: String,
    pub chinese: String,
}

pub struct GeneratedSceneDetail {
    pub scene: GeneratedScene,
    pub lines: Vec<SceneLine>,
}

/// A word that a scene should use.
pub struct VocabularyTarget {
    pub id: String,
    pub text: String,
    pub normalized_text: String,
    pub meaning: String,
    pub difficulty: String,
    pub weak_score: i64,
}

/// A scene as the model returns it.
pub struct ScenePayload {
    pub title: String,
    pub scenario: String,
    pub lines: Vec<ScenePayloadLine>,
}

/// One dialogue line of a returned scene.
pub struct ScenePayloadLine {
    pub speaker: String,
    pub english: String,
    pub chinese: String,
}

/// `str::trim` followed by `str::to_lowercase`: the key under which a word is compared.
pub open spec fn normalized_text(value: Seq<char>) -> Seq<char> {
    crate::text::lowercase_of(trim(value))
}

/// Trims and lowercases a word.
pub fn normalize_text(value: &str) -> (r: String)
    ensures
        r@ == normalized_text(value@),
{
    let v = chars_of(value);
    let t = trim_vec(&v);
    let s = string_of(&t);
    crate::text::to_lowercase(s.as_str())
}

/// The wire protocol that a setting names: `responses` when it says so (after trimming),
/// `chat_completions` otherwise.
pub open spec fn wire_api_of(value: Seq<char>) -> Seq<char> {
    if trim(value) == "responses"@ { "responses"@ } else { "chat_completions"@ }
}

/// Normalises a wire-protocol setting.
pub fn normalize_wire_api(value: &str) -> (r: String)
    ensures
        r@ == wire_api_of(value@),
{
    let v = chars_of(value);
    let t = trim_vec(&v);
    let s = string_of(&t);
    if str_eq(s.as_str(), "responses") {
        String::from_str("responses")
    } else {
        String::from_str("chat_completions")
    }
}

/// The reasoning effort a setting names: `minimal`, `low`, `medium` or `high` (after
/// trimming), `medium` otherwise.
pub open spec fn reasoning_effort_of(value: Seq<char>) -> Seq<char> {
    let t = trim(value);
    if t == "minimal"@ || t == "low"@ || t == "medium"@ || t == "high"@ { t } else { "medium"@ }
}

/// Normalises a reasoning-effort setting.
pub fn normalize_reasoning_effort(value: &str) -> (r: String)
    ensures
        r@ == reasoning_effort_of(value@),
{
    let v = chars_of(value);
    let t = trim_vec(&v);
    let s = string_of(&t);
    if str_eq(s.as_str(), "minimal") || str_eq(s.as_str(), "low") || str_eq(s.as_str(), "medium")
        || str_eq(s.as_str(), "high") {
        s
    } else {
        String::from_str("medium")
    }
}

/// The endpoint a provider uses when none is configured.
pub open spec fn provider_default_url_of(provider: Seq<char>, wire_api: Seq<char>) -> Seq<char> {
    if provider == "gpt2"@ {
        "https://way.ydata.vip/v1"@
    } else if provider == "volcengine_ark"@ {
        "https://ark.cn-beijing.volces.com/api/v3/chat/completions"@
    } else if wire_api == "responses"@ {
        "https://api.openai.com/v1"@
    } else {
        "https://api.openai.com/v1/chat/completions"@
    }
}

/// The endpoint a provider uses when none is configured.
pub fn provider_default_url(provider: &str, wire_api: &str) -> (r: &'static str)
    ensures
        r@ == provider_default_url_of(provider@, wire_api@),
{
    if str_eq(provider, "gpt2") {
        "https://way.ydata.vip/v1"
    } else if str_eq(provider, "volcengine_ark") {
        "https://ark.cn-beijing.volces.com/api/v3/chat/completions"
    } else if str_eq(wire_api, "responses") {
        "https://api.openai.com/v1"
    } else {
        "https://api.openai.com/v1/chat/completions"
    }
}

/// The model a provider uses when none is configured (Volcengine needs an endpoint id, so it
/// has none).
pub fn provider_default_model(provider: &str) -> (r: &'static str)
    ensures
        r@ == (if provider@ == "gpt2"@ { "gpt-5.4"@ } else if provider@ == "volcengine_ark"@ { ""@ } else { "gpt-4.1-mini"@ }),
{
    if str_eq(provider, "gpt2") {
        "gpt-5.4"
    } else if str_eq(provider, "volcengine_ark") {
        ""
    } else {
        "gpt-4.1-mini"
    }
}

/// The wire protocol a provider uses when none is configured.
pub fn provider_default_wire_api(provider: &str) -> (r: &'static str)
    ensures
        r@ == (if provider@ == "gpt2"@ { "responses"@ } else { "chat_completions"@ }),
{
    if str_eq(provider, "gpt2") {
        "responses"
    } else {
        "chat_completions"
    }
}

/// The reasoning effort a provider uses when none is configured.
pub fn provider_default_reasoning_effort(provider: &str) -> (r: &'static str)
    ensures
        r@ == (if provider@ == "gpt2"@ { "high"@ } else { "medium"@ }),
{
    if str_eq(provider, "gpt2") {
        "high"
    } else {
        "medium"
    }
}

/// The path suffixes after which an endpoint path gets the protocol's route appended.
pub open spec fn ends_with_api_root(t: Seq<char>) -> bool {
    "/api/v3"@.is_suffix_of(t) || "/api/v3/"@.is_suffix_of(t) || "/v1"@.is_suffix_of(t) || "/v1/"@.is_suffix_of(t)
}

/// The endpoint a configured base URL stands for: an empty URL is the default OpenAI-style
/// endpoint; a URL that already ends in `/chat/completions` or `/responses` is kept; a URL
/// ending in an API root (`/api/v3`, `/v1`, with or without `/`) gets the protocol's route;
/// anything else is kept as typed (trimmed).
pub open spec fn normalized_base_url(value: Seq<char>, wire_api: Seq<char>) -> Seq<char> {
    let t = trim(value);
    let wire = wire_api_of(wire_api);
    if t.len() == 0 {
        provider_default_url_of("openai_compatible"@, wire)
    } else if "/chat/completions"@.is_suffix_of(t) || "/responses"@.is_suffix_of(t) {
        t
    } else if ends_with_api_root(t) {
        trim_end_by(t, trim_pred(TrimKind::Exactly('/')))
            + (if wire == "responses"@ { "/responses"@ } else { "/chat/completions"@ })
    } else {
        t
    }
}


/// Normalises a configured base URL into the endpoint that requests go to.
pub fn normalize_base_url(value: &str, wire_api: &str) -> (r: String)
    ensures
        r@ == normalized_base_url(value@, wire_api@),
{
    let v = chars_of(value);
    let t = trim_vec(&v);
    let wire = normalize_wire_api(wire_api);
    if t.len() == 0 {
        return String::from_str(provider_default_url("openai_compatible", wire.as_str()));
    }
    if vec_ends_with(&t, &lit("/chat/completions")) || vec_ends_with(&t, &lit("/responses")) {
        return string_of(&t);
    }
    if vec_ends_with(&t, &lit("/api/v3")) || vec_ends_with(&t, &lit("/api/v3/"))
        || vec_ends_with(&t, &lit("/v1")) || vec_ends_with(&t, &lit("/v1/")) {
        let mut base = trim_end_vec_by(&t, &TrimKind::Exactly('/'));
        if str_eq(wire.as_str(), "responses") {
            append_vec(&mut base, &lit("/responses"));
        } else {
            append_vec(&mut base, &lit("/chat/completions"));
        }
        return string_of(&base);
    }
    string_of(&t)
}


/// The text a JSON value carries: a string itself; the texts of an array's elements joined,
/// when that is not blank; the first of the members `text`, `content`, `value`,
/// `output_text` of an object that carries text.
pub open spec fn text_of(v: JsonValue) -> Option<Seq<char>>
    decreases v, match v { JsonValue::Array(vs) => vs@.len() + 1, _ => 0 },
{
    match v {
        JsonValue::Str(s) => Some(s@),
        JsonValue::Array(vs) => {
            let t = joined_texts(v, vs@.len() as int);
            if trim(t).len() > 0 { Some(t) } else { None }
        },
        JsonValue::Object(m) => {
            if member_text(m@, "text"@) is Some {
                member_text(m@, "text"@)
            } else if member_text(m@, "content"@) is Some {
                member_text(m@, "content"@)
            } else if member_text(m@, "value"@) is Some {
                member_text(m@, "value"@)
            } else {
                member_text(m@, "output_text"@)
            }
        },
        _ => None,
    }
}

/// The text of the member named `key`, if it has one.
pub open spec fn member_text(m: Seq<(String, JsonValue)>, key: Seq<char>) -> Option<Seq<char>>
    decreases m, 0int,
{
    match member_index(m, key) {
        Some(i) => if 0 <= i < m.len() {
            text_of(m[i].1)
        } else {
            None
        },
        None => None,
    }
}

/// The texts of the first `k` elements of an array, joined.
pub open spec fn joined_texts(a: JsonValue, k: int) -> Seq<char>
    decreases a, k,
{
    match a {
        JsonValue::Array(vs) => if k <= 0 || k > vs@.len() {
            seq![]
        } else {
            joined_texts(a, k - 1) + match text_of(vs@[k - 1]) {
                Some(t) => t,
                None => seq![],
            }
        },
        _ => seq![],
    }
}


fn member_text_exec(m: &Vec<(String, JsonValue)>, key: &str) -> (r: Option<String>)
    ensures
        match r {
            Some(t) => member_text(m@, key@) == Some(t@),
            None => member_text(m@, key@) is None,
        },
    decreases m@, 0int,
{
    let mut i: usize = 0;
    assert(m@.subrange(0, m@.len() as int) =~= m@);
    while i < m.len()
        invariant
            i <= m.len(),
            forall|j: int| 0 <= j < i ==> m@[j].0@ != key@,
            member_index(m@, key@) == (match member_index(m@.subrange(i as int, m@.len() as int), key@) {
                Some(k) => Some(k + i),
                None => None::<int>,
            }),
        decreases m.len() - i,
    {
        let ghost rest = m@.subrange(i as int, m@.len() as int);
        assert(rest[0] == m@[i as int]);
        if str_eq(m[i].0.as_str(), key) {
            assert(member_index(rest, key@) == Some(0int));
            assert(member_index(m@, key@) == Some(i as int));
            return text_from_json_value(&m[i].1);
        }
        assert(rest.drop_first() =~= m@.subrange(i + 1, m@.len() as int));
        i = i + 1;
    }
    assert(m@.subrange(i as int, m@.len() as int) =~= Seq::<(String, JsonValue)>::empty());
    None
}

/// The text that a JSON value carries (see [`text_of`]).
pub fn text_from_json_value(v: &JsonValue) -> (r: Option<String>)
    ensures
        match r {
            Some(t) => text_of(*v) == Some(t@),
            None => text_of(*v) is None,
        },
    decreases *v, match *v { JsonValue::Array(vs) => vs@.len() + 1, _ => 0 },
{
    match v {
        JsonValue::Str(s) => Some(s.clone()),
        JsonValue::Array(vs) => {
            let mut out = String::new();
            let mut i: usize = 0;
            while i < vs.len()
                invariant
                    i <= vs.len(),
                    *v == JsonValue::Array(*vs),
                    out@ == joined_texts(*v, i as int),
                decreases vs.len() - i,
            {
                match text_from_json_value(&vs[i]) {
                    Some(t) => out.append(t.as_str()),
                    None => {},
                }
                i = i + 1;
            }
            let ov = chars_of(out.as_str());
            let (a, b) = trim_bounds(&ov);
            if a < b { Some(out) } else { None }
        },
        JsonValue::Object(m) => {
            match member_text_exec(m, "text") {
                Some(t) => Some(t),
                None => match member_text_exec(m, "content") {
                    Some(t) => Some(t),
                    None => match member_text_exec(m, "value") {
                        Some(t) => Some(t),
                        None => member_text_exec(m, "output_text"),
                    },
                },
            }
        },
        _ => None,
    }
}


/// The places, in order of preference, where the known chat and responses APIs put the reply.
pub open spec fn content_paths() -> Seq<Seq<Seq<char>>> {
    seq![
        seq!["choices"@, "0"@, "message"@, "content"@],
        seq!["choices"@, "0"@, "text"@],
        seq!["choices"@, "0"@, "delta"@, "content"@],
        seq!["data"@, "choices"@, "0"@, "message"@, "content"@],
        seq!["result"@, "choices"@, "0"@, "message"@, "content"@],
        seq!["output_text"@],
        seq!["output"@, "0"@, "content"@, "0"@, "text"@],
        seq!["output"@, "0"@, "content"@, "0"@, "content"@],
        seq!["content"@, "0"@, "text"@],
        seq!["message"@, "content"@],
        seq!["data"@, "output_text"@],
        seq!["result"@, "output_text"@],
    ]
}

/// The trimmed, non-blank text found at `path`, if any.
pub open spec fn text_at(response: JsonValue, path: Seq<Seq<char>>) -> Option<Seq<char>> {
    match json_pointer(response, path) {
        Some(x) => match text_of(x) {
            Some(t) => if trim(t).len() > 0 { Some(trim(t)) } else { None },
            None => None,
        },
        None => None,
    }
}

/// The text at the first of the first `k` paths that carries one.
pub open spec fn first_text_at(response: JsonValue, paths: Seq<Seq<Seq<char>>>, k: int) -> Option<Seq<char>>
    decreases k,
{
    if k <= 0 {
        None
    } else {
        match first_text_at(response, paths, k - 1) {
            Some(t) => Some(t),
            None => text_at(response, paths[k - 1]),
        }
    }
}

pub proof fn lemma_first_text_stable(response: JsonValue, paths: Seq<Seq<Seq<char>>>, k: int, n: int)
    requires
        0 <= k <= n,
        first_text_at(response, paths, k) is Some,
    ensures
        first_text_at(response, paths, n) == first_text_at(response, paths, k),
    decreases n - k,
{
    if k < n {
        lemma_first_text_stable(response, paths, k, n - 1);
    }
}

/// The member names of an object, in order.
pub open spec fn member_names(m: Seq<(String, JsonValue)>) -> Seq<Seq<char>> {
    m.map_values(|p: (String, JsonValue)| p.0@)
}

/// The reply text of a model response: the first text found along [`content_paths`]; else
/// the `reasoning_content` of the first choice when it is a string opening with `{`; else an
/// error that carries the response's top-level member names (`None` when it is no object).
pub open spec fn llm_content_of(response: JsonValue) -> Result<Seq<char>, Option<Seq<Seq<char>>>> {
    match first_text_at(response, content_paths(), content_paths().len() as int) {
        Some(t) => Ok(t),
        None => match json_pointer(response, seq!["choices"@, "0"@, "message"@, "reasoning_content"@]) {
            Some(JsonValue::Str(s)) if crate::text::trim_start(s@).len() > 0
                && crate::text::trim_start(s@)[0] == '{' => Ok(trim(s@)),
            _ => match response {
                JsonValue::Object(m) => Err(Some(member_names(m@))),
                _ => Err(None),
            },
        },
    }
}

fn content_path_tokens() -> (r: Vec<Vec<&'static str>>)
    ensures
        r@.len() == content_paths().len(),
        forall|i: int| 0 <= i < r@.len() ==> #[trigger] token_views(r@[i]@) == content_paths()[i],
{
    let r = vec![
        vec!["choices", "0", "message", "content"],
        vec!["choices", "0", "text"],
        vec!["choices", "0", "delta", "content"],
        vec!["data", "choices", "0", "message", "content"],
        vec!["result", "choices", "0", "message", "content"],
        vec!["output_text"],
        vec!["output", "0", "content", "0", "text"],
        vec!["output", "0", "content", "0", "content"],
        vec!["content", "0", "text"],
        vec!["message", "content"],
        vec!["data", "output_text"],
        vec!["result", "output_text"],
    ];
    assert forall|i: int| 0 <= i < r@.len() implies #[trigger] token_views(r@[i]@) == content_paths()[i] by {
        assert(token_views(r@[i]@) =~= content_paths()[i]);
    }
    r
}

/// Finds the reply text in a model response (see [`llm_content_of`]); without one, the
/// names of the response's top-level members (none when it is not an object).
pub fn llm_content(response: &JsonValue) -> (r: Result<String, Option<Vec<String>>>)
    ensures
        match r {
            Ok(t) => llm_content_of(*response) == Ok::<Seq<char>, Option<Seq<Seq<char>>>>(t@),
            Err(None) => llm_content_of(*response) == Err::<Seq<char>, Option<Seq<Seq<char>>>>(None),
            Err(Some(names)) => llm_content_of(*response)
                == Err::<Seq<char>, Option<Seq<Seq<char>>>>(Some(names@.map_values(|n: String| n@))),
        },
{
    let paths = content_path_tokens();
    let ghost cp = content_paths();
    let mut k: usize = 0;
    while k < paths.len()
        invariant
            k <= paths.len() == cp.len(),
            cp == content_paths(),
            forall|i: int| 0 <= i < paths@.len() ==> #[trigger] token_views(paths@[i]@) == cp[i],
            first_text_at(*response, cp, k as int) is None,
        decreases paths.len() - k,
    {
        assert(token_views(paths@[k as int]@) == cp[k as int]);
        match follow_pointer(response, &paths[k]) {
            Some(x) => match text_from_json_value(x) {
                Some(t) => {
                    let tv = chars_of(t.as_str());
                    let tt = trim_vec(&tv);
                    if tt.len() > 0 {
                        proof {
                            assert(first_text_at(*response, cp, k as int + 1) == Some(tt@));
                            lemma_first_text_stable(*response, cp, k as int + 1, cp.len() as int);
                        }
                        return Ok(string_of(&tt));
                    }
                },
                None => {},
            },
            None => {},
        }
        k = k + 1;
    }
    let reasoning = vec!["choices", "0", "message", "reasoning_content"];
    assert(token_views(reasoning@) =~= seq!["choices"@, "0"@, "message"@, "reasoning_content"@]);
    match follow_pointer(response, &reasoning) {
        Some(JsonValue::Str(s)) => {
            let sv = chars_of(s.as_str());
            let (a, b) = trim_bounds(&sv);
            if a < sv.len() && sv[a] == '{' {
                return Ok(string_of_range(&sv, a, b));
            }
        },
        _ => {},
    }
    match response {
        JsonValue::Object(m) => {
            let mut names: Vec<String> = Vec::new();
            let mut i: usize = 0;
            while i < m.len()
                invariant
                    i <= m.len(),
                    names.len() == i,
                    names@.map_values(|n: String| n@) == member_names(m@).subrange(0, i as int),
                decreases m.len() - i,
            {
                let ghost old_names = names@;
                names.push(m[i].0.clone());
                assert(names@[i as int]@ == m@[i as int].0@);
                assert(member_names(m@)[i as int] == m@[i as int].0@);
                assert(names@ == old_names.push(m@[i as int].0));
                i = i + 1;
                assert(names@.map_values(|n: String| n@) =~= member_names(m@).subrange(0, i as int));
            }
            assert(member_names(m@).subrange(0, m@.len() as int) =~= member_names(m@));
            Err(Some(names))
        },
        _ => Err(None),
    }
}


/// The message for a response without reply text: its top-level member names (or a note
/// that it is no object) and the first 600 characters of its serialized form.
pub open spec fn content_error_message(names: Option<Seq<Seq<char>>>, serialized: Seq<char>) -> Seq<char> {
    "LLM response did not contain a supported content field. top_level_keys=["@
        + match names {
            Some(n) => join_seqs(n, ", "@),
            None => "non-object response"@,
        }
        + "], preview="@
        + serialized.take(if serialized.len() < 600 { serialized.len() as int } else { 600int })
}

/// Builds the message of [`content_error_message`]; `serialized` is the response as JSON text.
pub fn llm_content_error_message(names: &Option<Vec<String>>, serialized: &str) -> (r: String)
    ensures
        r@ == content_error_message(
            match names { Some(n) => Some(string_views(n@)), None => None },
            serialized@,
        ),
{
    let mut r = String::from_str("LLM response did not contain a supported content field. top_level_keys=[");
    match names {
        Some(n) => push_joined(&mut r, n, ", "),
        None => r.append("non-object response"),
    }
    r.append("], preview=");
    push_prefix(&mut r, serialized, 600);
    r
}

/// The reply text of a model response (see [`llm_content_of`]); `Err` with the message of
/// [`content_error_message`] over the response's JSON text when it has none.
pub fn parse_llm_content(response: &JsonValue) -> (r: Result<String, String>)
    ensures
        match llm_content_of(*response) {
            Ok(t) => r matches Ok(x) && x@ == t,
            Err(names) => r matches Err(e) && e@ == content_error_message(names, json_text(*response)),
        },
{
    match llm_content(response) {
        Ok(t) => Ok(t),
        Err(names) => {
            let serialized = json_to_string(response);
            let m = llm_content_error_message(&names, serialized.as_str());
            proof {
                match names {
                    Some(n) => {
                        assert(string_views(n@) =~= n@.map_values(|x: String| x@));
                    },
                    None => {},
                }
            }
            Err(m)
        },
    }
}

/// One character of the object scanner: from brace depth, inside-a-string and
/// after-a-backslash flags, whether `c` closes the object and the next state.
pub open spec fn scan_next(c: char, depth: int, in_string: bool, escaped: bool) -> (bool, int, bool, bool) {
    if escaped {
        (false, depth, in_string, false)
    } else if c == '\\' && in_string {
        (false, depth, in_string, true)
    } else if c == '"' {
        (false, depth, !in_string, false)
    } else if in_string {
        (false, depth, in_string, false)
    } else if c == '{' {
        (false, depth + 1, in_string, false)
    } else if c == '}' {
        (depth - 1 == 0, depth - 1, in_string, false)
    } else {
        (false, depth, in_string, false)
    }
}

/// The index just after the brace that closes the object whose scan is at index `i` in the
/// given state, if the text has one.
#[verifier::opaque]
pub open spec fn scan_object_end(s: Seq<char>, i: int, depth: int, in_string: bool, escaped: bool) -> Option<int>
    decreases s.len() - i,
{
    if i < 0 || i >= s.len() {
        None
    } else {
        let (close, d, ins, esc) = scan_next(s[i], depth, in_string, escaped);
        if close {
            Some(i + 1)
        } else {
            scan_object_end(s, i + 1, d, ins, esc)
        }
    }
}

/// The first balanced `{ ... }` of `s`, skipping braces inside string literals.
pub open spec fn json_object_text(s: Seq<char>) -> Option<Seq<char>> {
    match first_occurrence(s, seq!['{']) {
        None => None,
        Some(start) => match scan_object_end(s, start, 0, false, false) {
            Some(end) => Some(s.subrange(start, end)),
            None => None,
        },
    }
}

/// One character of the scan, unfolded.
pub proof fn lemma_scan_step(s: Seq<char>, i: int, depth: int, in_string: bool, escaped: bool)
    ensures
        scan_object_end(s, i, depth, in_string, escaped) == (if i < 0 || i >= s.len() {
            None
        } else {
            let (close, d, ins, esc) = scan_next(s[i], depth, in_string, escaped);
            if close { Some(i + 1) } else { scan_object_end(s, i + 1, d, ins, esc) }
        }),
{
    reveal(scan_object_end);
}

pub proof fn lemma_scan_end(s: Seq<char>, i: int, depth: int, in_string: bool, escaped: bool)
    ensures
        scan_object_end(s, i, depth, in_string, escaped) matches Some(e) ==> i < e <= s.len() && s[e - 1] == '}',
    decreases s.len() - i,
{
    lemma_scan_step(s, i, depth, in_string, escaped);
    if 0 <= i < s.len() {
        let (close, d, ins, esc) = scan_next(s[i], depth, in_string, escaped);
        lemma_scan_end(s, i + 1, d, ins, esc);
    }
}

fn scan_next_exec(c: char, depth: usize, in_string: bool, escaped: bool) -> (r: (bool, usize, bool, bool))
    requires
        depth < usize::MAX,
        !escaped && !in_string && c == '}' ==> depth >= 1,
    ensures
        (r.0, r.1 as int, r.2, r.3) == scan_next(c, depth as int, in_string, escaped),
{
    if escaped {
        (false, depth, in_string, false)
    } else if c == '\\' && in_string {
        (false, depth, in_string, true)
    } else if c == '"' {
        (false, depth, !in_string, false)
    } else if in_string {
        (false, depth, in_string, false)
    } else if c == '{' {
        (false, depth + 1, in_string, false)
    } else if c == '}' {
        (depth - 1 == 0, depth - 1, in_string, false)
    } else {
        (false, depth, in_string, false)
    }
}

fn scan_to_close(v: &Vec<char>, start: usize) -> (r: Option<usize>)
    requires
        start < v.len(),
        v@[start as int] == '{',
    ensures
        match r {
            Some(e) => scan_object_end(v@, start as int, 0, false, false) == Some(e as int),
            None => scan_object_end(v@, start as int, 0, false, false) is None,
        },
{
    let mut depth: usize = 0;
    let mut in_string = false;
    let mut escaped = false;
    let mut i: usize = start;
    while i < v.len()
        invariant
            start <= i <= v.len(),
            v@[start as int] == '{',
            depth <= i - start,
            i == start ==> depth == 0 && !in_string && !escaped,
            i > start ==> depth >= 1,
            scan_object_end(v@, start as int, 0, false, false) == scan_object_end(v@, i as int, depth as int, in_string, escaped),
        decreases v.len() - i,
    {
        proof {
            lemma_scan_step(v@, i as int, depth as int, in_string, escaped);
        }
        let (close, d, ins, esc) = scan_next_exec(v[i], depth, in_string, escaped);
        if close {
            return Some(i + 1);
        }
        depth = d;
        in_string = ins;
        escaped = esc;
        i = i + 1;
    }
    proof {
        lemma_scan_step(v@, i as int, depth as int, in_string, escaped);
    }
    None
}

/// Finds the first balanced JSON object in a text: from the first `{` to the brace that
/// closes it, ignoring braces inside string literals.
pub fn extract_json_object_text(value: &str) -> (r: Option<String>)
    ensures
        match r {
            Some(t) => json_object_text(value@) == Some(t@),
            None => json_object_text(value@) is None,
        },
        r matches Some(t) ==> t@.len() >= 2 && t@[0] == '{' && t@.last() == '}',
{
    let v = chars_of(value);
    let mut open: Vec<char> = Vec::new();
    open.push('{');
    assert(open@ =~= seq!['{']);
    let start = match find_vec(&v, &open) {
        Some(i) => i,
        None => return None,
    };
    proof {
        lemma_first_occurrence(v@, seq!['{']);
        assert(v@.subrange(start as int, start + 1)[0] == v@[start as int]);
    }
    match scan_to_close(&v, start) {
        Some(e) => {
            proof {
                lemma_scan_end(v@, start as int, 0, false, false);
            }
            let t = subvec(&v, start, e);
            Some(string_of(&t))
        },
        None => None,
    }
}

/// A model reply with Markdown code fences and surrounding text removed: trimmed, leading
/// "```json" and "```" and trailing "```" stripped, trimmed again, and narrowed to its first
/// JSON object when it has one.
pub open spec fn llm_json_text(content: Seq<char>) -> Seq<char> {
    let cleaned = trim(strip_suffix_repeat(
        strip_prefix_repeat(strip_prefix_repeat(trim(content), "```json"@), "```"@),
        "```"@,
    ));
    match json_object_text(cleaned) {
        Some(t) => t,
        None => cleaned,
    }
}

/// Cleans a model reply into the JSON text it carries (see [`llm_json_text`]).
pub fn clean_llm_json_text(content: &str) -> (r: String)
    ensures
        r@ == llm_json_text(content@),
{
    let v = chars_of(content);
    let t = trim_vec(&v);
    let a = trim_start_matches_vec(&t, &lit("```json"));
    let b = trim_start_matches_vec(&a, &lit("```"));
    let c = trim_end_matches_vec(&b, &lit("```"));
    let d = trim_vec(&c);
    let cleaned = string_of(&d);
    match extract_json_object_text(cleaned.as_str()) {
        Some(o) => o,
        None => cleaned,
    }
}


/// The strings stored under `names`, in that order, of a JSON record: an object whose members
/// with those names are all strings (other members are ignored), or an array of exactly that
/// many strings. This is how a record of string fields is deserialized. A JSON object here
/// holds one value per member name (the parser keeps the last of repeated names), so a reply
/// that repeats a member name is read with its last value.
pub open spec fn string_record(v: JsonValue, names: Seq<Seq<char>>) -> Option<Seq<Seq<char>>> {
    match v {
        JsonValue::Object(_) => if forall|i: int| 0 <= i < names.len() ==> (#[trigger] json_get(v, names[i])) matches Some(JsonValue::Str(_)) {
            Some(Seq::new(names.len(), |i: int| match json_get(v, names[i]) {
                Some(JsonValue::Str(s)) => s@,
                _ => seq![],
            }))
        } else {
            None
        },
        JsonValue::Array(a) => if a@.len() == names.len() && forall|i: int| 0 <= i < a@.len() ==> (#[trigger] a@[i]) matches JsonValue::Str(_) {
            Some(Seq::new(names.len(), |i: int| match a@[i] {
                JsonValue::Str(s) => s@,
                _ => seq![],
            }))
        } else {
            None
        },
        _ => None,
    }
}

/// Reads a record of string fields (see [`string_record`]).
pub fn decode_string_record(v: &JsonValue, names: &Vec<&str>) -> (r: Option<Vec<String>>)
    ensures
        match r {
            Some(vals) => string_record(*v, token_views(names@)) == Some(string_views(vals@)),
            None => string_record(*v, token_views(names@)) is None,
        },
        r matches Some(vals) ==> vals.len() == names.len(),
{
    let ghost ns = token_views(names@);
    match v {
        JsonValue::Object(_) => {
            let mut out: Vec<String> = Vec::new();
            let mut i: usize = 0;
            while i < names.len()
                invariant
                    i <= names.len(),
                    ns == token_views(names@),
                    v is Object,
                    out.len() == i,
                    forall|j: int| 0 <= j < i ==> ((#[trigger] json_get(*v, ns[j])) matches Some(JsonValue::Str(s)) && out@[j]@ == s@),
                decreases names.len() - i,
            {
                match get_member(v, names[i]) {
                    Some(JsonValue::Str(s)) => {
                        out.push(s.clone());
                    },
                    _ => {
                        assert(!(json_get(*v, ns[i as int]) matches Some(JsonValue::Str(_))));
                        return None;
                    },
                }
                i = i + 1;
            }
            let ghost expected = Seq::new(ns.len(), |i: int| match json_get(*v, ns[i]) {
                Some(JsonValue::Str(s)) => s@,
                _ => seq![],
            });
            assert(string_views(out@) =~= expected);
            Some(out)
        },
        JsonValue::Array(a) => {
            if a.len() != names.len() {
                return None;
            }
            let mut out: Vec<String> = Vec::new();
            let mut i: usize = 0;
            while i < a.len()
                invariant
                    i <= a.len(),
                    *v == JsonValue::Array(*a),
                    out.len() == i,
                    forall|j: int| 0 <= j < i ==> ((#[trigger] a@[j]) matches JsonValue::Str(s) && out@[j]@ == s@),
                decreases a.len() - i,
            {
                match &a[i] {
                    JsonValue::Str(s) => {
                        out.push(s.clone());
                    },
                    _ => {
                        return None;
                    },
                }
                i = i + 1;
            }
            let ghost expected = Seq::new(ns.len(), |i: int| match a@[i] {
                JsonValue::Str(s) => s@,
                _ => seq![],
            });
            assert(string_views(out@) =~= expected);
            Some(out)
        },
        _ => None,
    }
}


/// The field names of a dialogue line.
pub open spec fn scene_line_names() -> Seq<Seq<char>> {
    seq!["speaker"@, "english"@, "chinese"@]
}

/// The lines of a scene: an array whose every element is a dialogue-line record.
pub open spec fn scene_lines_of(v: JsonValue) -> Option<Seq<Seq<Seq<char>>>> {
    match v {
        JsonValue::Array(a) => if forall|i: int| 0 <= i < a@.len() ==> (#[trigger] string_record(a@[i], scene_line_names())) is Some {
            Some(Seq::new(a@.len(), |i: int| string_record(a@[i], scene_line_names())->Some_0))
        } else {
            None
        },
        _ => None,
    }
}

/// A scene record: `title` and `scenario` strings and `lines`, given as an object's members
/// (others, such as `coverageReport`, are ignored) or as an array of three or four elements
/// in that order.
pub open spec fn scene_payload_of(v: JsonValue) -> Option<(Seq<char>, Seq<char>, Seq<Seq<Seq<char>>>)> {
    match v {
        JsonValue::Object(_) => match (json_get(v, "title"@), json_get(v, "scenario"@), json_get(v, "lines"@)) {
            (Some(JsonValue::Str(t)), Some(JsonValue::Str(sc)), Some(ls)) => match scene_lines_of(ls) {
                Some(lines) => Some((t@, sc@, lines)),
                None => None,
            },
            _ => None,
        },
        JsonValue::Array(a) => if a@.len() == 3 || a@.len() == 4 {
            match (a@[0], a@[1]) {
                (JsonValue::Str(t), JsonValue::Str(sc)) => match scene_lines_of(a@[2]) {
                    Some(lines) => Some((t@, sc@, lines)),
                    None => None,
                },
                _ => None,
            }
        } else {
            None
        },
        _ => None,
    }
}

/// The fields of a dialogue line, in record order.
pub open spec fn line_fields(l: ScenePayloadLine) -> Seq<Seq<char>> {
    seq![l.speaker@, l.english@, l.chinese@]
}

/// The fields of every line of a scene.
pub open spec fn payload_lines(lines: Seq<ScenePayloadLine>) -> Seq<Seq<Seq<char>>> {
    lines.map_values(|l: ScenePayloadLine| line_fields(l))
}

fn decode_scene_lines(v: &JsonValue) -> (r: Option<Vec<ScenePayloadLine>>)
    ensures
        match r {
            Some(ls) => scene_lines_of(*v) == Some(payload_lines(ls@)),
            None => scene_lines_of(*v) is None,
        },
{
    let names = vec!["speaker", "english", "chinese"];
    assert(token_views(names@) =~= scene_line_names());
    match v {
        JsonValue::Array(a) => {
            let mut out: Vec<ScenePayloadLine> = Vec::new();
            let mut i: usize = 0;
            while i < a.len()
                invariant
                    i <= a.len(),
                    *v == JsonValue::Array(*a),
                    token_views(names@) == scene_line_names(),
                    out.len() == i,
                    forall|j: int| 0 <= j < i ==> (#[trigger] string_record(a@[j], scene_line_names())) == Some(line_fields(out@[j])),
                decreases a.len() - i,
            {
                match decode_string_record(&a[i], &names) {
                    Some(vals) => {
                        assert(vals@.len() == 3);
                        let line = ScenePayloadLine {
                            speaker: vals[0].clone(),
                            english: vals[1].clone(),
                            chinese: vals[2].clone(),
                        };
                        assert(string_views(vals@) =~= line_fields(line));
                        out.push(line);
                    },
                    None => {
                        return None;
                    },
                }
                i = i + 1;
            }
            assert(payload_lines(out@) =~= Seq::new(a@.len(), |i: int| string_record(a@[i], scene_line_names())->Some_0));
            Some(out)
        },
        _ => None,
    }
}

/// Reads a scene from the JSON value of a model reply (see [`scene_payload_of`]). A value of
/// the wrong shape is refused with a fixed message that does not name the offending member.
pub fn scene_payload_from_json(value: &JsonValue) -> (r: Result<ScenePayload, String>)
    ensures
        match r {
            Ok(p) => scene_payload_of(*value) == Some((p.title@, p.scenario@, payload_lines(p.lines@))),
            Err(e) => scene_payload_of(*value) is None && e@ == "LLM returned invalid scene JSON"@,
        },
{
    let err = String::from_str("LLM returned invalid scene JSON");
    match value {
        JsonValue::Object(_) => {
            let t = get_member(value, "title");
            let sc = get_member(value, "scenario");
            let ls = get_member(value, "lines");
            match (t, sc, ls) {
                (Some(JsonValue::Str(t)), Some(JsonValue::Str(sc)), Some(ls)) => match decode_scene_lines(ls) {
                    Some(lines) => Ok(ScenePayload { title: t.clone(), scenario: sc.clone(), lines }),
                    None => Err(err),
                },
                _ => Err(err),
            }
        },
        JsonValue::Array(a) => {
            if a.len() == 3 || a.len() == 4 {
                match (&a[0], &a[1]) {
                    (JsonValue::Str(t), JsonValue::Str(sc)) => match decode_scene_lines(&a[2]) {
                        Some(lines) => Ok(ScenePayload { title: t.clone(), scenario: sc.clone(), lines }),
                        None => Err(err),
                    },
                    _ => Err(err),
                }
            } else {
                Err(err)
            }
        },
        _ => Err(err),
    }
}

/// The camelCase field names of an enriched vocabulary entry.
pub open spec fn enriched_entry_names() -> Seq<Seq<char>> {
    seq![
        "text"@, "primaryMeaning"@, "phonetic"@, "partOfSpeech"@, "example"@, "exampleCn"@,
        "roots"@, "wordFamily"@, "synonyms"@, "antonyms"@, "memoryHint"@, "tags"@, "difficulty"@,
    ]
}

/// The fields of an enriched entry, in record order.
pub open spec fn enriched_fields(e: EnrichedVocabularyEntry) -> Seq<Seq<char>> {
    seq![
        e.text@, e.primary_meaning@, e.phonetic@, e.part_of_speech@, e.example@, e.example_cn@,
        e.roots@, e.word_family@, e.synonyms@, e.antonyms@, e.memory_hint@, e.tags@, e.difficulty@,
    ]
}

/// The entry records of an enrichment reply: the `entries` member when the reply is an object
/// that has one, else the reply itself; it must be an array of complete entry records.
pub open spec fn enriched_entries_of(v: JsonValue) -> Option<Seq<Seq<Seq<char>>>> {
    entry_records(entries_list(v))
}

/// The `entries` member of an object that has one, else the value itself.
pub open spec fn entries_list(v: JsonValue) -> JsonValue {
    match json_get(v, "entries"@) {
        Some(e) => e,
        None => v,
    }
}

/// An array of complete entry records.
pub open spec fn entry_records(list: JsonValue) -> Option<Seq<Seq<Seq<char>>>> {
    match list {
        JsonValue::Array(a) => if forall|i: int| 0 <= i < a@.len() ==> (#[trigger] string_record(a@[i], enriched_entry_names())) is Some {
            Some(Seq::new(a@.len(), |i: int| string_record(a@[i], enriched_entry_names())->Some_0))
        } else {
            None
        },
        _ => None,
    }
}

/// Reads the entries of an enrichment reply (see [`enriched_entries_of`]). A value of the
/// wrong shape is refused with a fixed message that does not name the offending member.
pub fn enriched_entries_from_json(value: &JsonValue) -> (r: Result<Vec<EnrichedVocabularyEntry>, String>)
    ensures
        match r {
            Ok(es) => enriched_entries_of(*value) == Some(es@.map_values(|e: EnrichedVocabularyEntry| enriched_fields(e))),
            Err(e) => enriched_entries_of(*value) is None && e@ == "LLM vocabulary entries were invalid"@,
        },
{
    let names = vec![
        "text", "primaryMeaning", "phonetic", "partOfSpeech", "example", "exampleCn", "roots",
        "wordFamily", "synonyms", "antonyms", "memoryHint", "tags", "difficulty",
    ];
    assert(token_views(names@) =~= enriched_entry_names());
    let list = match get_member(value, "entries") {
        Some(e) => e,
        None => value,
    };
    match list {
        JsonValue::Array(a) => {
            let mut out: Vec<EnrichedVocabularyEntry> = Vec::new();
            let mut i: usize = 0;
            while i < a.len()
                invariant
                    i <= a.len(),
                    *list == JsonValue::Array(*a),
                    json_get(*value, "entries"@) matches Some(e) ==> e == *list,
                    json_get(*value, "entries"@) is None ==> *value == *list,
                    token_views(names@) == enriched_entry_names(),
                    out.len() == i,
                    forall|j: int| 0 <= j < i ==> (#[trigger] string_record(a@[j], enriched_entry_names())) == Some(enriched_fields(out@[j])),
                decreases a.len() - i,
            {
                match decode_string_record(&a[i], &names) {
                    Some(vals) => {
                        assert(vals@.len() == 13);
                        let e = EnrichedVocabularyEntry {
                            text: vals[0].clone(),
                            primary_meaning: vals[1].clone(),
                            phonetic: vals[2].clone(),
                            part_of_speech: vals[3].clone(),
                            example: vals[4].clone(),
                            example_cn: vals[5].clone(),
                            roots: vals[6].clone(),
                            word_family: vals[7].clone(),
                            synonyms: vals[8].clone(),
                            antonyms: vals[9].clone(),
                            memory_hint: vals[10].clone(),
                            tags: vals[11].clone(),
                            difficulty: vals[12].clone(),
                        };
                        assert(string_views(vals@) =~= enriched_fields(e));
                        out.push(e);
                    },
                    None => {
                        assert(string_record(a@[i as int], enriched_entry_names()) is None);
                        assert(json_get(*value, "entries"@) matches Some(e) ==> e == *list);
                        assert(json_get(*value, "entries"@) is None ==> *value == *list);
                        assert(entries_list(*value) == *list);
                        assert(entry_records(*list) is None);
                        return Err(String::from_str("LLM vocabulary entries were invalid"));
                    },
                }
                i = i + 1;
            }
            assert(out@.map_values(|e: EnrichedVocabularyEntry| enriched_fields(e))
                =~= Seq::new(a@.len(), |i: int| string_record(a@[i], enriched_entry_names())->Some_0));
            Ok(out)
        },
        _ => Err(String::from_str("LLM vocabulary entries were invalid")),
    }
}


/// `prefix` followed by `detail`.
fn prefixed_message(prefix: &str, detail: &str) -> (r: String)
    ensures
        r@ == prefix@ + detail@,
{
    let mut r = String::from_str(prefix);
    r.append(detail);
    r
}

/// The scene in a JSON text: `Err` with the parser's message after
/// "LLM returned invalid scene JSON: " when the text is not JSON, else as
/// [`scene_payload_from_json`] reads the value.
pub fn parse_scene_payload_json(value: &str) -> (r: Result<ScenePayload, String>)
    ensures
        match parsed_json(value@) {
            Some(v) => match r {
                Ok(p) => scene_payload_of(v) == Some((p.title@, p.scenario@, payload_lines(p.lines@))),
                Err(e) => scene_payload_of(v) is None && e@ == "LLM returned invalid scene JSON"@,
            },
            None => r matches Err(e) && "LLM returned invalid scene JSON: "@.is_prefix_of(e@),
        },
{
    match parse_json_text(value) {
        Ok(v) => scene_payload_from_json(&v),
        Err(e) => {
            let m = prefixed_message("LLM returned invalid scene JSON: ", e.as_str());
            proof {
                reveal_strlit("LLM returned invalid scene JSON: ");
                assert("LLM returned invalid scene JSON: "@.is_prefix_of(m@)) by {
                    assert(m@.subrange(0, "LLM returned invalid scene JSON: "@.len() as int) =~= "LLM returned invalid scene JSON: "@);
                }
            }
            Err(m)
        },
    }
}

/// The scene in a model reply: the reply cleaned by [`clean_llm_json_text`], then read by
/// [`parse_scene_payload_json`].
pub fn parse_scene_payload(content: &str) -> (r: Result<ScenePayload, String>)
    ensures
        match parsed_json(llm_json_text(content@)) {
            Some(v) => match r {
                Ok(p) => scene_payload_of(v) == Some((p.title@, p.scenario@, payload_lines(p.lines@))),
                Err(e) => scene_payload_of(v) is None && e@ == "LLM returned invalid scene JSON"@,
            },
            None => r matches Err(e) && "LLM returned invalid scene JSON: "@.is_prefix_of(e@),
        },
{
    let text = clean_llm_json_text(content);
    parse_scene_payload_json(text.as_str())
}

/// The enriched entries in a model reply: the reply cleaned by [`clean_llm_json_text`];
/// `Err` with the parser's message after "LLM returned invalid vocabulary JSON: " when that
/// is not JSON, else as [`enriched_entries_from_json`] reads the value.
pub fn parse_enriched_entries(content: &str) -> (r: Result<Vec<EnrichedVocabularyEntry>, String>)
    ensures
        match parsed_json(llm_json_text(content@)) {
            Some(v) => match r {
                Ok(es) => enriched_entries_of(v) == Some(es@.map_values(|e: EnrichedVocabularyEntry| enriched_fields(e))),
                Err(e) => enriched_entries_of(v) is None && e@ == "LLM vocabulary entries were invalid"@,
            },
            None => r matches Err(e) && "LLM returned invalid vocabulary JSON: "@.is_prefix_of(e@),
        },
{
    let text = clean_llm_json_text(content);
    match parse_json_text(text.as_str()) {
        Ok(v) => enriched_entries_from_json(&v),
        Err(e) => {
            let m = prefixed_message("LLM returned invalid vocabulary JSON: ", e.as_str());
            proof {
                assert(m@.subrange(0, "LLM returned invalid vocabulary JSON: "@.len() as int) =~= "LLM returned invalid vocabulary JSON: "@);
            }
            Err(m)
        },
    }
}

/// A target word as a prompt line: `- word: meaning | level=… | weak_score=…`.
pub open spec fn target_line(t: VocabularyTarget) -> Seq<char> {
    "- "@ + t.text@ + ": "@ + t.meaning@ + " | level="@ + t.difficulty@ + " | weak_score="@
        + decimal_int(t.weak_score as int)
}

/// A support word as a prompt line: `- word: meaning`.
pub open spec fn support_line(t: VocabularyTarget) -> Seq<char> {
    "- "@ + t.text@ + ": "@ + t.meaning@
}

/// The prompt lines of a list of target words.
pub open spec fn target_lines(ts: Seq<VocabularyTarget>) -> Seq<Seq<char>> {
    ts.map_values(|t: VocabularyTarget| target_line(t))
}

/// The prompt lines of a list of support words.
pub open spec fn support_lines(ts: Seq<VocabularyTarget>) -> Seq<Seq<char>> {
    ts.map_values(|t: VocabularyTarget| support_line(t))
}

fn target_line_strings(ts: &[VocabularyTarget], full: bool) -> (r: Vec<String>)
    ensures
        full ==> string_views(r@) == target_lines(ts@),
        !full ==> string_views(r@) == support_lines(ts@),
{
    let mut out: Vec<String> = Vec::new();
    let mut i: usize = 0;
    while i < ts.len()
        invariant
            i <= ts.len(),
            full ==> string_views(out@) == target_lines(ts@).subrange(0, i as int),
            !full ==> string_views(out@) == support_lines(ts@).subrange(0, i as int),
        decreases ts.len() - i,
    {
        let t = &ts[i];
        let mut line = String::from_str("- ");
        line.append(t.text.as_str());
        line.append(": ");
        line.append(t.meaning.as_str());
        if full {
            line.append(" | level=");
            line.append(t.difficulty.as_str());
            line.append(" | weak_score=");
            push_decimal_i64(&mut line, t.weak_score);
        }
        let ghost before = out@;
        out.push(line);
        proof {
            assert(string_views(out@) =~= string_views(before).push(line@));
            if full {
                assert(line@ =~= target_line(ts@[i as int]));
                assert(string_views(out@) =~= target_lines(ts@).subrange(0, i + 1));
            } else {
                assert(line@ =~= support_line(ts@[i as int]));
                assert(string_views(out@) =~= support_lines(ts@).subrange(0, i + 1));
            }
        }
        i = i + 1;
    }
    assert(target_lines(ts@).subrange(0, ts@.len() as int) =~= target_lines(ts@));
    assert(support_lines(ts@).subrange(0, ts@.len() as int) =~= support_lines(ts@));
    out
}

/// The prompt that asks for one dialogue on `topic` using the target words.
pub open spec fn scene_prompt(topic: Seq<char>, targets: Seq<VocabularyTarget>) -> Seq<char> {
    "Create one natural daily spoken-English dialogue for MomoLite.\n\nTopic: "@ + topic + "\n\nTarget vocabulary:\n"@ + join_seqs(target_lines(targets), "\n"@) + "\n\nRules:\n- Use realistic, modern, everyday English.\n- Make the dialogue useful for Chinese learners who want to actively use the words.\n- Include most target words naturally; do not force awkward sentences.\n- Keep it short: 6 to 10 lines.\n- Chinese translations must be natural, not word-by-word.\n- Return valid JSON only.\n\nJSON schema:\n{\n  \"title\": \"short Chinese title\",\n  \"scenario\": \"one-sentence Chinese scenario\",\n  \"lines\": [\n    {\n      \"speaker\": \"A\",\n      \"english\": \"English line\",\n      \"chinese\": \"Chinese translation\"\n    }\n  ]\n}"@
}

/// Builds the prompt of [`scene_prompt`].
pub fn build_prompt(topic: &str, targets: &[VocabularyTarget]) -> (r: String)
    ensures
        r@ == scene_prompt(topic@, targets@),
{
    let lines = target_line_strings(targets, true);
    let mut r = String::from_str("Create one natural daily spoken-English dialogue for MomoLite.\n\nTopic: ");
    r.append(topic);
    r.append("\n\nTarget vocabulary:\n");
    push_joined(&mut r, &lines, "\n");
    r.append("\n\nRules:\n- Use realistic, modern, everyday English.\n- Make the dialogue useful for Chinese learners who want to actively use the words.\n- Include most target words naturally; do not force awkward sentences.\n- Keep it short: 6 to 10 lines.\n- Chinese translations must be natural, not word-by-word.\n- Return valid JSON only.\n\nJSON schema:\n{\n  \"title\": \"short Chinese title\",\n  \"scenario\": \"one-sentence Chinese scenario\",\n  \"lines\": [\n    {\n      \"speaker\": \"A\",\n      \"english\": \"English line\",\n      \"chinese\": \"Chinese translation\"\n    }\n  ]\n}");
    r
}

/// The repair note that lists core words a first attempt missed (empty when none were).
pub open spec fn repair_note(missing: Seq<Seq<char>>) -> Seq<char> {
    if missing.len() == 0 {
        seq![]
    } else {
        "\nRepair requirement: these core words were missing and must be used naturally: "@
            + join_seqs(missing, ", "@) + ".\n"@
    }
}

/// The prompt that asks for one scene lesson covering every core word.
pub open spec fn scene_lesson_prompt(
    title: Seq<char>,
    topic: Seq<char>,
    core: Seq<VocabularyTarget>,
    support: Seq<VocabularyTarget>,
    missing: Seq<Seq<char>>,
) -> Seq<char> {
    "Create one MomoLite scene lesson as a natural native-speaker daily dialogue.\n\nLesson title hint: "@ + title + "\nAllowed scene/topic: "@ + topic + "\n\nCore target words (must cover 100%, exact word or natural inflection):\n"@ + join_seqs(target_lines(core), "\n"@) + "\n\nSupport/weak old words (use only if natural):\n"@
        + join_seqs(support_lines(support), "\n"@) + "\n"@ + repair_note(missing) + "\nQuality rules:\n- Write modern, natural spoken English; no textbook example tone.\n- Make a real daily situation with useful speaking/listening value.\n- 8 to 14 dialogue lines, 2 speakers max unless the scene really needs more.\n- Use every core target word at least once.\n- Use support words only when they improve the dialogue.\n- Chinese translations should be natural.\n- Return valid JSON only.\n\nJSON schema:\n{\n  \"title\": \"short Chinese lesson title\",\n  \"scenario\": \"one-sentence Chinese scenario\",\n  \"lines\": [\n    {\n      \"speaker\": \"A\",\n      \"english\": \"English dialogue line\",\n      \"chinese\": \"自然中文翻译\"\n    }\n  ],\n  \"coverageReport\": {\n    \"usedCoreWords\": [\"word\"],\n    \"missingCoreWords\": [],\n    \"usedSupportWords\": [\"word\"]\n  }\n}"@
}

/// Builds the prompt of [`scene_lesson_prompt`].
pub fn build_scene_lesson_prompt(
    title: &str,
    topic: &str,
    core_targets: &[VocabularyTarget],
    support_targets: &[VocabularyTarget],
    missing_words: &Vec<String>,
) -> (r: String)
    ensures
        r@ == scene_lesson_prompt(title@, topic@, core_targets@, support_targets@, string_views(missing_words@)),
{
    let core_lines = target_line_strings(core_targets, true);
    let support = target_line_strings(support_targets, false);
    let mut r = String::from_str("Create one MomoLite scene lesson as a natural native-speaker daily dialogue.\n\nLesson title hint: ");
    r.append(title);
    r.append("\nAllowed scene/topic: ");
    r.append(topic);
    r.append("\n\nCore target words (must cover 100%, exact word or natural inflection):\n");
    push_joined(&mut r, &core_lines, "\n");
    r.append("\n\nSupport/weak old words (use only if natural):\n");
    push_joined(&mut r, &support, "\n");
    r.append("\n");
    if missing_words.len() > 0 {
        r.append("\nRepair requirement: these core words were missing and must be used naturally: ");
        push_joined(&mut r, missing_words, ", ");
        r.append(".\n");
    }
    r.append("\nQuality rules:\n- Write modern, natural spoken English; no textbook example tone.\n- Make a real daily situation with useful speaking/listening value.\n- 8 to 14 dialogue lines, 2 speakers max unless the scene really needs more.\n- Use every core target word at least once.\n- Use support words only when they improve the dialogue.\n- Chinese translations should be natural.\n- Return valid JSON only.\n\nJSON schema:\n{\n  \"title\": \"short Chinese lesson title\",\n  \"scenario\": \"one-sentence Chinese scenario\",\n  \"lines\": [\n    {\n      \"speaker\": \"A\",\n      \"english\": \"English dialogue line\",\n      \"chinese\": \"自然中文翻译\"\n    }\n  ],\n  \"coverageReport\": {\n    \"usedCoreWords\": [\"word\"],\n    \"missingCoreWords\": [],\n    \"usedSupportWords\": [\"word\"]\n  }\n}");
    r
}

/// The prompt lines of the words to enrich: `- word`, trimmed.
pub open spec fn word_lines(words: Seq<String>) -> Seq<Seq<char>> {
    words.map_values(|w: String| "- "@ + trim(w@))
}

/// The prompt that asks for the learning fields of each word.
pub open spec fn enrich_prompt(words: Seq<String>) -> Seq<char> {
    "Enrich these English vocabulary items for MomoLite, a Chinese learner's focused vocabulary trainer.\n\nInput words:\n"@ + join_seqs(word_lines(words), "\n"@) + "\n\nRules:\n- Keep one entry for every input word.\n- Use accurate Chinese meanings for Chinese learners.\n- Prefer modern everyday English and avoid stiff textbook sentences.\n- Generate at least 2 natural example sentences for each word, especially speaking/listening scenarios.\n- Include common collocations, a short confusion note when useful, and a practical usage tip.\n- Include speaking/listening scenario tags such as commute, shopping, work, appointment, family, study, travel, small-talk.\n- Keep the JSON schema unchanged. Fold extra learning help into existing fields:\n  - Put the strongest example first in \"example\"; if there is room, append a second short example separated by \" / \".\n  - Put matching Chinese translations in \"exampleCn\" using the same order.\n  - Put image memory, collocations, confusion note, and usage tip together in \"memoryHint\".\n  - Put scenario tags and topic tags in \"tags\".\n- Return valid JSON only.\n\nJSON schema:\n{\n  \"entries\": [\n    {\n      \"text\": \"word or phrase\",\n      \"primaryMeaning\": \"中文释义\",\n      \"phonetic\": \"/phonetic/\",\n      \"partOfSpeech\": \"noun/verb/...\",\n      \"example\": \"Example 1. / Example 2.\",\n      \"exampleCn\": \"例句 1 中文。 / 例句 2 中文。\",\n      \"roots\": \"词根词缀说明；没有则留空\",\n      \"wordFamily\": \"related forms\",\n      \"synonyms\": \"synonyms\",\n      \"antonyms\": \"antonyms\",\n      \"memoryHint\": \"形象记忆；常见搭配；易混提醒；使用提示\",\n      \"tags\": \"daily, work, commute, speaking\",\n      \"difficulty\": \"A1/A2/B1/B2/C1/C2\"\n    }\n  ]\n}"@
}

/// Builds the prompt of [`enrich_prompt`].
pub fn build_enrich_prompt(words: &Vec<String>) -> (r: String)
    ensures
        r@ == enrich_prompt(words@),
{
    let mut lines: Vec<String> = Vec::new();
    let mut i: usize = 0;
    while i < words.len()
        invariant
            i <= words.len(),
            lines.len() == i,
            string_views(lines@) == word_lines(words@).subrange(0, i as int),
        decreases words.len() - i,
    {
        let mut line = String::from_str("- ");
        let t = trim_str(words[i].as_str());
        line.append(t.as_str());
        let ghost before = lines@;
        lines.push(line);
        proof {
            assert(line@ =~= "- "@ + trim(words@[i as int]@));
            assert(string_views(lines@) =~= string_views(before).push(line@));
            assert(string_views(lines@) =~= word_lines(words@).subrange(0, i + 1));
        }
        i = i + 1;
    }
    assert(word_lines(words@).subrange(0, words@.len() as int) =~= word_lines(words@));
    let mut r = String::from_str("Enrich these English vocabulary items for MomoLite, a Chinese learner's focused vocabulary trainer.\n\nInput words:\n");
    push_joined(&mut r, &lines, "\n");
    r.append("\n\nRules:\n- Keep one entry for every input word.\n- Use accurate Chinese meanings for Chinese learners.\n- Prefer modern everyday English and avoid stiff textbook sentences.\n- Generate at least 2 natural example sentences for each word, especially speaking/listening scenarios.\n- Include common collocations, a short confusion note when useful, and a practical usage tip.\n- Include speaking/listening scenario tags such as commute, shopping, work, appointment, family, study, travel, small-talk.\n- Keep the JSON schema unchanged. Fold extra learning help into existing fields:\n  - Put the strongest example first in \"example\"; if there is room, append a second short example separated by \" / \".\n  - Put matching Chinese translations in \"exampleCn\" using the same order.\n  - Put image memory, collocations, confusion note, and usage tip together in \"memoryHint\".\n  - Put scenario tags and topic tags in \"tags\".\n- Return valid JSON only.\n\nJSON schema:\n{\n  \"entries\": [\n    {\n      \"text\": \"word or phrase\",\n      \"primaryMeaning\": \"中文释义\",\n      \"phonetic\": \"/phonetic/\",\n      \"partOfSpeech\": \"noun/verb/...\",\n      \"example\": \"Example 1. / Example 2.\",\n      \"exampleCn\": \"例句 1 中文。 / 例句 2 中文。\",\n      \"roots\": \"词根词缀说明；没有则留空\",\n      \"wordFamily\": \"related forms\",\n      \"synonyms\": \"synonyms\",\n      \"antonyms\": \"antonyms\",\n      \"memoryHint\": \"形象记忆；常见搭配；易混提醒；使用提示\",\n      \"tags\": \"daily, work, commute, speaking\",\n      \"difficulty\": \"A1/A2/B1/B2/C1/C2\"\n    }\n  ]\n}");
    r
}

} // verus!

verus! {

/// The lowercased English lines of a scene, joined by newlines: the text in which core words
/// are looked for.
pub open spec fn scene_search_text(lines: Seq<ScenePayloadLine>) -> Seq<char> {
    join_seqs(lines.map_values(|l: ScenePayloadLine| lowercase_of(l.english@)), "\n"@)
}

/// A core word counts as used when its normalized form is non-empty and occurs in the text.
pub open spec fn word_used(text: Seq<char>, t: VocabularyTarget) -> bool {
    normalized_text(t.text@).len() > 0 && first_occurrence(text, normalized_text(t.text@)) is Some
}

/// The texts of the targets whose use in `text` is `used`, in the targets' order.
pub open spec fn texts_by_use(text: Seq<char>, ts: Seq<VocabularyTarget>, used: bool) -> Seq<Seq<char>>
    decreases ts.len(),
{
    if ts.len() == 0 {
        seq![]
    } else {
        let rest = texts_by_use(text, ts.drop_last(), used);
        if word_used(text, ts.last()) == used {
            rest.push(ts.last().text@)
        } else {
            rest
        }
    }
}

/// Which core words a generated scene uses and which it misses.
pub struct CoreCoverage {
    pub used_core_words: Vec<String>,
    pub missing_core_words: Vec<String>,
}

pub proof fn lemma_texts_by_use_len(text: Seq<char>, ts: Seq<VocabularyTarget>)
    ensures
        texts_by_use(text, ts, true).len() + texts_by_use(text, ts, false).len() == ts.len(),
    decreases ts.len(),
{
    if ts.len() > 0 {
        lemma_texts_by_use_len(text, ts.drop_last());
    }
}

/// Splits the core words into those the scene's English lines use and those they miss
/// (the share used is `used / total`, or all when there are no core words).
pub fn compute_coverage(lines: &[ScenePayloadLine], core_targets: &[VocabularyTarget]) -> (r: CoreCoverage)
    ensures
        string_views(r.used_core_words@) == texts_by_use(scene_search_text(lines@), core_targets@, true),
        string_views(r.missing_core_words@) == texts_by_use(scene_search_text(lines@), core_targets@, false),
        r.used_core_words.len() + r.missing_core_words.len() == core_targets.len(),
{
    let ghost lowered = lines@.map_values(|l: ScenePayloadLine| lowercase_of(l.english@));
    let mut lower_lines: Vec<String> = Vec::new();
    let mut i: usize = 0;
    while i < lines.len()
        invariant
            i <= lines.len(),
            lowered == lines@.map_values(|l: ScenePayloadLine| lowercase_of(l.english@)),
            string_views(lower_lines@) == lowered.subrange(0, i as int),
        decreases lines.len() - i,
    {
        let l = crate::text::to_lowercase(lines[i].english.as_str());
        let ghost before = lower_lines@;
        lower_lines.push(l);
        assert(string_views(lower_lines@) =~= string_views(before).push(l@));
        assert(string_views(lower_lines@) =~= lowered.subrange(0, i + 1));
        i = i + 1;
    }
    assert(lowered.subrange(0, lines@.len() as int) =~= lowered);
    let mut joined = String::new();
    push_joined(&mut joined, &lower_lines, "\n");
    assert(joined@ =~= scene_search_text(lines@));
    let hay = chars_of(joined.as_str());
    let ghost text = scene_search_text(lines@);
    let mut used: Vec<String> = Vec::new();
    let mut missing: Vec<String> = Vec::new();
    let mut k: usize = 0;
    while k < core_targets.len()
        invariant
            k <= core_targets.len(),
            hay@ == text,
            string_views(used@) == texts_by_use(text, core_targets@.subrange(0, k as int), true),
            string_views(missing@) == texts_by_use(text, core_targets@.subrange(0, k as int), false),
        decreases core_targets.len() - k,
    {
        let t = &core_targets[k];
        let normalized = normalize_text(t.text.as_str());
        let nv = chars_of(normalized.as_str());
        let hit = nv.len() > 0 && find_vec(&hay, &nv).is_some();
        let ghost pre = core_targets@.subrange(0, k as int);
        let ghost post = core_targets@.subrange(0, k + 1);
        assert(post.drop_last() =~= pre);
        assert(post.last() == core_targets@[k as int]);
        assert(hit == word_used(text, core_targets@[k as int]));
        if hit {
            let ghost b = used@;
            used.push(t.text.clone());
            assert(string_views(used@) =~= string_views(b).push(t.text@));
        } else {
            let ghost b = missing@;
            missing.push(t.text.clone());
            assert(string_views(missing@) =~= string_views(b).push(t.text@));
        }
        k = k + 1;
    }
    assert(core_targets@.subrange(0, core_targets@.len() as int) =~= core_targets@);
    proof {
        lemma_texts_by_use_len(text, core_targets@);
    }
    CoreCoverage { used_core_words: used, missing_core_words: missing }
}

/// The strings among the elements of an array (other elements skipped).
pub open spec fn array_strings(a: Seq<JsonValue>) -> Seq<Seq<char>>
    decreases a.len(),
{
    if a.len() == 0 {
        seq![]
    } else {
        let rest = array_strings(a.drop_last());
        match a.last() {
            JsonValue::Str(s) => rest.push(s@),
            _ => rest,
        }
    }
}

/// The `missingCoreWords` of a coverage report: the strings of that array, or none when the
/// report has no such array.
pub open spec fn missing_words_of(coverage: JsonValue) -> Seq<Seq<char>> {
    match json_get(coverage, "missingCoreWords"@) {
        Some(JsonValue::Array(a)) => array_strings(a@),
        _ => seq![],
    }
}

/// Reads the missing core words of a coverage report (see [`missing_words_of`]).
pub fn missing_core_words(coverage: &JsonValue) -> (r: Vec<String>)
    ensures
        string_views(r@) == missing_words_of(*coverage),
{
    let mut out: Vec<String> = Vec::new();
    match get_member(coverage, "missingCoreWords") {
        Some(JsonValue::Array(a)) => {
            let mut i: usize = 0;
            while i < a.len()
                invariant
                    i <= a.len(),
                    string_views(out@) == array_strings(a@.subrange(0, i as int)),
                decreases a.len() - i,
            {
                let ghost pre = a@.subrange(0, i as int);
                let ghost post = a@.subrange(0, i + 1);
                assert(post.drop_last() =~= pre);
                match &a[i] {
                    JsonValue::Str(s) => {
                        let ghost b = out@;
                        out.push(s.clone());
                        assert(string_views(out@) =~= string_views(b).push(s@));
                    },
                    _ => {},
                }
                i = i + 1;
            }
            assert(a@.subrange(0, a@.len() as int) =~= a@);
        },
        _ => {},
    }
    out
}

} // verus!

verus! {

/// What is wrong with a provider / model / wire-protocol choice, if anything: Volcengine
/// needs an endpoint id (`ep-…`) as its model, the model must not be blank, and the wire
/// protocol must be `chat_completions` or `responses`, checked in that order.
pub open spec fn llm_settings_problem(provider: Seq<char>, model: Seq<char>, wire_api: Seq<char>) -> Option<Seq<char>> {
    if provider == "volcengine_ark"@ && !"ep-"@.is_prefix_of(trim(model)) {
        Some("火山方舟调用需要在 Model 填写推理接入点 ID，通常以 ep- 开头。请到火山方舟控制台 -> 在线推理 -> 推理接入点，创建/复制接入点 ID；不要直接填写 doubao-seed-2.0-pro。"@)
    } else if trim(model).len() == 0 {
        Some("LLM Model 不能为空。"@)
    } else if wire_api != "chat_completions"@ && wire_api != "responses"@ {
        Some("wire_api must be chat_completions or responses"@)
    } else {
        None
    }
}

/// Checks the provider, model and wire protocol of a language-model setting (see
/// [`llm_settings_problem`]).
pub fn validate_llm_settings(provider: &str, model: &str, wire_api: &str) -> (r: Result<(), String>)
    ensures
        match r {
            Ok(_) => llm_settings_problem(provider@, model@, wire_api@) is None,
            Err(e) => llm_settings_problem(provider@, model@, wire_api@) == Some(e@),
        },
{
    let m = trim_vec(&chars_of(model));
    if str_eq(provider, "volcengine_ark") && !vec_starts_with(&m, &lit("ep-")) {
        return Err(String::from_str("火山方舟调用需要在 Model 填写推理接入点 ID，通常以 ep- 开头。请到火山方舟控制台 -> 在线推理 -> 推理接入点，创建/复制接入点 ID；不要直接填写 doubao-seed-2.0-pro。"));
    }
    if m.len() == 0 {
        return Err(String::from_str("LLM Model 不能为空。"));
    }
    if !str_eq(wire_api, "chat_completions") && !str_eq(wire_api, "responses") {
        return Err(String::from_str("wire_api must be chat_completions or responses"));
    }
    Ok(())
}

/// The provider, endpoint, model, wire protocol and reasoning effort that a saved
/// language-model setting resolves to.
pub struct LlmFields {
    pub provider: String,
    pub base_url: String,
    pub model: String,
    pub wire_api: String,
    pub reasoning_effort: String,
}

/// The provider a request names: `gpt2` when blank, else the trimmed name.
pub open spec fn provider_of(provider: Seq<char>) -> Seq<char> {
    if trim(provider).len() == 0 { "gpt2"@ } else { trim(provider) }
}

/// The model a provider uses when none is configured.
pub open spec fn provider_default_model_of(provider: Seq<char>) -> Seq<char> {
    if provider == "gpt2"@ { "gpt-5.4"@ } else if provider == "volcengine_ark"@ { ""@ } else { "gpt-4.1-mini"@ }
}

/// The wire protocol a request resolves to: the provider's default when blank, else the
/// normalised setting.
pub open spec fn resolved_wire_api(provider: Seq<char>, wire_api: Seq<char>) -> Seq<char> {
    if trim(wire_api).len() == 0 {
        if provider_of(provider) == "gpt2"@ { "responses"@ } else { "chat_completions"@ }
    } else {
        wire_api_of(wire_api)
    }
}

/// Whether the fields resolve as a request's settings do: each blank field takes the
/// provider's default, each given one is normalised.
pub open spec fn resolves_to(
    f: LlmFields,
    provider: Seq<char>,
    base_url: Seq<char>,
    model: Seq<char>,
    wire_api: Seq<char>,
    reasoning_effort: Seq<char>,
) -> bool {
    let p = provider_of(provider);
    let w = resolved_wire_api(provider, wire_api);
    &&& f.provider@ == p
    &&& f.wire_api@ == w
    &&& f.base_url@ == (if trim(base_url).len() == 0 { provider_default_url_of(p, w) } else { normalized_base_url(base_url, w) })
    &&& f.model@ == (if trim(model).len() == 0 { provider_default_model_of(p) } else { trim(model) })
    &&& f.reasoning_effort@ == (if trim(reasoning_effort).len() == 0 {
        if p == "gpt2"@ { "high"@ } else { "medium"@ }
    } else {
        reasoning_effort_of(reasoning_effort)
    })
}

fn is_blank(s: &str) -> (r: bool)
    ensures
        r == (trim(s@).len() == 0),
{
    trim_str(s).unicode_len() == 0
}

/// Resolves the fields of a language-model setting (see [`resolves_to`]).
pub fn resolve_llm_fields(
    provider: &str,
    base_url: &str,
    model: &str,
    wire_api: &str,
    reasoning_effort: &str,
) -> (r: LlmFields)
    ensures
        resolves_to(r, provider@, base_url@, model@, wire_api@, reasoning_effort@),
{
    let p = if is_blank(provider) { String::from_str("gpt2") } else { trim_str(provider) };
    let w = if is_blank(wire_api) {
        String::from_str(provider_default_wire_api(p.as_str()))
    } else {
        normalize_wire_api(wire_api)
    };
    let b = if is_blank(base_url) {
        String::from_str(provider_default_url(p.as_str(), w.as_str()))
    } else {
        normalize_base_url(base_url, w.as_str())
    };
    let m = if is_blank(model) { String::from_str(provider_default_model(p.as_str())) } else { trim_str(model) };
    let e = if is_blank(reasoning_effort) {
        String::from_str(provider_default_reasoning_effort(p.as_str()))
    } else {
        normalize_reasoning_effort(reasoning_effort)
    };
    LlmFields { provider: p, base_url: b, model: m, wire_api: w, reasoning_effort: e }
}

/// The name a profile is saved under: the trimmed name, or "未命名 LLM 配置" when blank.
pub fn llm_profile_name(name: &str) -> (r: String)
    ensures
        r@ == (if trim(name@).len() == 0 { "未命名 LLM 配置"@ } else { trim(name@) }),
{
    if is_blank(name) { String::from_str("未命名 LLM 配置") } else { trim_str(name) }
}

/// The id a profile is saved under: the given id when it is not blank, else a fresh
/// `llm_profile_…` id.
pub fn llm_profile_id(id: &Option<String>) -> (r: String)
    ensures
        match id {
            Some(v) => trim(v@).len() > 0 ==> r@ == v@,
            None => true,
        },
        (id matches Some(v) && trim(v@).len() > 0) || crate::clock::is_generated_id(r@, "llm_profile"@, 0),
{
    match id {
        Some(v) => {
            if !is_blank(v.as_str()) {
                return v.clone();
            }
        },
        None => {},
    }
    crate::clock::generated_id("llm_profile", 0)
}

} // verus!

verus! {

/// `v` is the JSON string `s`.
pub open spec fn is_json_str(v: JsonValue, s: Seq<char>) -> bool {
    v matches JsonValue::Str(x) && x@ == s
}

/// `v` is the chat message `{"role": role, "content": content}`.
pub open spec fn is_chat_message(v: JsonValue, role: Seq<char>, content: Seq<char>) -> bool {
    v matches JsonValue::Object(m) && m@.len() == 2
        && m@[0].0@ == "role"@ && is_json_str(m@[0].1, role)
        && m@[1].0@ == "content"@ && is_json_str(m@[1].1, content)
}

/// The system instruction sent with every request.
pub open spec fn llm_instructions() -> Seq<char> {
    "You generate structured English learning dialogues. Return JSON only."@
}

/// The request body for a prompt. For the `responses` protocol: `model`, `input` (the prompt
/// as the one user message), `instructions`, `reasoning.effort`, and `store` (false when
/// response storage is disabled). Otherwise a chat-completions body: `model`, `temperature`,
/// `response_format` `{"type": "json_object"}`, and `messages` (the system instruction, then
/// the prompt as the user message).
pub open spec fn is_llm_request(
    r: JsonValue,
    model: Seq<char>,
    wire_api: Seq<char>,
    reasoning_effort: Seq<char>,
    disable_response_storage: bool,
    temperature: JsonValue,
    prompt: Seq<char>,
) -> bool {
    if wire_api == "responses"@ {
        r matches JsonValue::Object(m) && m@.len() == 5
            && m@[0].0@ == "model"@ && is_json_str(m@[0].1, model)
            && m@[1].0@ == "input"@ && (m@[1].1 matches JsonValue::Array(a) && a@.len() == 1 && is_chat_message(a@[0], "user"@, prompt))
            && m@[2].0@ == "instructions"@ && is_json_str(m@[2].1, llm_instructions())
            && m@[3].0@ == "reasoning"@ && (m@[3].1 matches JsonValue::Object(e) && e@.len() == 1
                && e@[0].0@ == "effort"@ && is_json_str(e@[0].1, reasoning_effort))
            && m@[4].0@ == "store"@ && m@[4].1 == JsonValue::Bool(!disable_response_storage)
    } else {
        r matches JsonValue::Object(m) && m@.len() == 4
            && m@[0].0@ == "model"@ && is_json_str(m@[0].1, model)
            && m@[1].0@ == "temperature"@ && m@[1].1 == temperature
            && m@[2].0@ == "response_format"@ && (m@[2].1 matches JsonValue::Object(f) && f@.len() == 1
                && f@[0].0@ == "type"@ && is_json_str(f@[0].1, "json_object"@))
            && m@[3].0@ == "messages"@ && (m@[3].1 matches JsonValue::Array(a) && a@.len() == 2
                && is_chat_message(a@[0], "system"@, llm_instructions())
                && is_chat_message(a@[1], "user"@, prompt))
    }
}

fn json_str(s: &str) -> (r: JsonValue)
    ensures
        is_json_str(r, s@),
{
    JsonValue::Str(String::from_str(s))
}

fn chat_message(role: &str, content: &str) -> (r: JsonValue)
    ensures
        is_chat_message(r, role@, content@),
{
    let mut m: Vec<(String, JsonValue)> = Vec::new();
    m.push((String::from_str("role"), json_str(role)));
    m.push((String::from_str("content"), json_str(content)));
    JsonValue::Object(m)
}

/// Builds the request body for a prompt (see [`is_llm_request`]). `temperature` is the JSON
/// number of the configured sampling temperature.
pub fn build_llm_request_json(
    model: &str,
    wire_api: &str,
    reasoning_effort: &str,
    disable_response_storage: bool,
    temperature: JsonValue,
    prompt: &str,
) -> (r: JsonValue)
    ensures
        is_llm_request(r, model@, wire_api@, reasoning_effort@, disable_response_storage, temperature, prompt@),
{
    let instructions = "You generate structured English learning dialogues. Return JSON only.";
    let mut m: Vec<(String, JsonValue)> = Vec::new();
    m.push((String::from_str("model"), json_str(model)));
    if str_eq(wire_api, "responses") {
        let mut input: Vec<JsonValue> = Vec::new();
        input.push(chat_message("user", prompt));
        m.push((String::from_str("input"), JsonValue::Array(input)));
        m.push((String::from_str("instructions"), json_str(instructions)));
        let mut effort: Vec<(String, JsonValue)> = Vec::new();
        effort.push((String::from_str("effort"), json_str(reasoning_effort)));
        m.push((String::from_str("reasoning"), JsonValue::Object(effort)));
        m.push((String::from_str("store"), JsonValue::Bool(!disable_response_storage)));
    } else {
        m.push((String::from_str("temperature"), temperature));
        let mut format: Vec<(String, JsonValue)> = Vec::new();
        format.push((String::from_str("type"), json_str("json_object")));
        m.push((String::from_str("response_format"), JsonValue::Object(format)));
        let mut messages: Vec<JsonValue> = Vec::new();
        messages.push(chat_message("system", instructions));
        messages.push(chat_message("user", prompt));
        m.push((String::from_str("messages"), JsonValue::Array(messages)));
    }
    JsonValue::Object(m)
}

} // verus!

verus! {

/// A copy of a target word.
pub fn clone_target(t: &VocabularyTarget) -> (r: VocabularyTarget)
    ensures
        r == *t,
{
    VocabularyTarget {
        id: t.id.clone(),
        text: t.text.clone(),
        normalized_text: t.normalized_text.clone(),
        meaning: t.meaning.clone(),
        difficulty: t.difficulty.clone(),
        weak_score: t.weak_score,
    }
}

/// No core word has the id of `t`.
pub open spec fn outside_core(core: Seq<VocabularyTarget>, t: VocabularyTarget) -> bool {
    forall|i: int| 0 <= i < core.len() ==> (#[trigger] core[i]).id@ != t.id@
}

/// The candidates that are not core words, in order.
pub open spec fn non_core(candidates: Seq<VocabularyTarget>, core: Seq<VocabularyTarget>) -> Seq<VocabularyTarget>
    decreases candidates.len(),
{
    if candidates.len() == 0 {
        seq![]
    } else {
        let rest = non_core(candidates.drop_last(), core);
        if outside_core(core, candidates.last()) { rest.push(candidates.last()) } else { rest }
    }
}

/// The support words of a batch: the first `limit` candidates that are not core words.
pub open spec fn support_selection(candidates: Seq<VocabularyTarget>, core: Seq<VocabularyTarget>, limit: nat) -> Seq<VocabularyTarget> {
    let k = non_core(candidates, core);
    k.take(if k.len() < limit { k.len() as int } else { limit as int })
}

proof fn lemma_non_core_grows(candidates: Seq<VocabularyTarget>, core: Seq<VocabularyTarget>, i: int)
    requires
        0 <= i < candidates.len(),
    ensures
        non_core(candidates.subrange(0, i + 1), core) == (if outside_core(core, candidates[i]) {
            non_core(candidates.subrange(0, i), core).push(candidates[i])
        } else {
            non_core(candidates.subrange(0, i), core)
        }),
{
    assert(candidates.subrange(0, i + 1).drop_last() =~= candidates.subrange(0, i));
}

fn is_core_id(core: &[VocabularyTarget], t: &VocabularyTarget) -> (r: bool)
    ensures
        r == !outside_core(core@, *t),
{
    let mut i: usize = 0;
    while i < core.len()
        invariant
            i <= core.len(),
            forall|j: int| 0 <= j < i ==> (#[trigger] core@[j]).id@ != t.id@,
        decreases core.len() - i,
    {
        if str_eq(core[i].id.as_str(), t.id.as_str()) {
            assert(core@[i as int].id@ == t.id@);
            return true;
        }
        i = i + 1;
    }
    false
}

/// Picks the support words of a batch (see [`support_selection`]).
pub fn select_support_targets(
    candidates: &[VocabularyTarget],
    core_targets: &[VocabularyTarget],
    limit: usize,
) -> (r: Vec<VocabularyTarget>)
    ensures
        r@ == support_selection(candidates@, core_targets@, limit as nat),
{
    let mut out: Vec<VocabularyTarget> = Vec::new();
    let mut i: usize = 0;
    while i < candidates.len()
        invariant
            i <= candidates.len(),
            out@ == support_selection(candidates@.subrange(0, i as int), core_targets@, limit as nat),
        decreases candidates.len() - i,
    {
        proof {
            lemma_non_core_grows(candidates@, core_targets@, i as int);
        }
        let ghost k0 = non_core(candidates@.subrange(0, i as int), core_targets@);
        if !is_core_id(core_targets, &candidates[i]) && out.len() < limit {
            out.push(clone_target(&candidates[i]));
            assert(out@ =~= support_selection(candidates@.subrange(0, i + 1), core_targets@, limit as nat));
        } else {
            assert(out@ =~= support_selection(candidates@.subrange(0, i + 1), core_targets@, limit as nat));
        }
        i = i + 1;
    }
    assert(candidates@.subrange(0, candidates@.len() as int) =~= candidates@);
    out
}

/// The topics a batch rotates through when none are chosen.
pub open spec fn default_scene_topics() -> Seq<Seq<char>> {
    seq![
        "daily work and study"@,
        "commute and errands"@,
        "friends making plans"@,
        "restaurant or cafe"@,
        "planning and decisions"@,
    ]
}

/// The trimmed strings that are not blank, in order.
pub open spec fn trimmed_nonblank(ss: Seq<Seq<char>>) -> Seq<Seq<char>>
    decreases ss.len(),
{
    if ss.len() == 0 {
        seq![]
    } else {
        let rest = trimmed_nonblank(ss.drop_last());
        if trim(ss.last()).len() > 0 { rest.push(trim(ss.last())) } else { rest }
    }
}

/// Trims each string and drops the blank ones.
pub fn trimmed_nonblank_strings(ss: &Vec<String>) -> (r: Vec<String>)
    ensures
        string_views(r@) == trimmed_nonblank(string_views(ss@)),
{
    let ghost all = string_views(ss@);
    let mut out: Vec<String> = Vec::new();
    let mut i: usize = 0;
    while i < ss.len()
        invariant
            i <= ss.len(),
            all == string_views(ss@),
            string_views(out@) == trimmed_nonblank(all.subrange(0, i as int)),
        decreases ss.len() - i,
    {
        assert(all.subrange(0, i + 1).drop_last() =~= all.subrange(0, i as int));
        assert(all.subrange(0, i + 1).last() == ss@[i as int]@);
        let t = trim_str(ss[i].as_str());
        if t.unicode_len() > 0 {
            let ghost b = out@;
            out.push(t);
            assert(string_views(out@) =~= string_views(b).push(t@));
        }
        i = i + 1;
    }
    assert(all.subrange(0, all.len() as int) =~= all);
    out
}

/// The topics of a batch: the default topics when none are chosen, else the chosen ones
/// trimmed, blank ones dropped.
pub fn scene_batch_topics(selected: &Vec<String>) -> (r: Vec<String>)
    ensures
        string_views(r@) == (if selected.len() == 0 {
            default_scene_topics()
        } else {
            trimmed_nonblank(string_views(selected@))
        }),
{
    if selected.len() == 0 {
        let mut r: Vec<String> = Vec::new();
        r.push(String::from_str("daily work and study"));
        r.push(String::from_str("commute and errands"));
        r.push(String::from_str("friends making plans"));
        r.push(String::from_str("restaurant or cafe"));
        r.push(String::from_str("planning and decisions"));
        assert(string_views(r@) =~= default_scene_topics());
        r
    } else {
        trimmed_nonblank_strings(selected)
    }
}

/// The trimmed text, or `default` when it is blank.
pub open spec fn or_default(value: Seq<char>, default: Seq<char>) -> Seq<char> {
    if trim(value).len() == 0 { default } else { trim(value) }
}

/// The trimmed text, or `default` when it is blank.
pub fn text_or_default(value: &str, default: &str) -> (r: String)
    ensures
        r@ == or_default(value@, default@),
{
    let t = trim_str(value);
    if t.unicode_len() == 0 { String::from_str(default) } else { t }
}

/// The title of a batch: the trimmed title, or "AI 场景课批次" when blank.
pub fn scene_batch_title(title: &str) -> (r: String)
    ensures
        r@ == or_default(title@, "AI 场景课批次"@),
{
    text_or_default(title, "AI 场景课批次")
}

/// The core words of the `i`-th lesson of a batch: the `i`-th run of ten.
pub open spec fn planned_core(core: Seq<VocabularyTarget>, i: int) -> Seq<VocabularyTarget> {
    core.subrange(10 * i, if 10 * i + 10 < core.len() { 10 * i + 10 } else { core.len() as int })
}

/// The support words of the `i`-th lesson of a batch: five consecutive support words,
/// wrapping around, starting at `5 i` (modulo their number); none when there are none.
pub open spec fn planned_support(support: Seq<VocabularyTarget>, i: int) -> Seq<VocabularyTarget> {
    if support.len() == 0 {
        seq![]
    } else {
        Seq::new(5, |j: int| support[((5 * i) % (support.len() as int) + j) % (support.len() as int)])
    }
}

/// The title of the `i`-th lesson of a batch: `第 {i + 1} 课：{topic}`.
pub open spec fn planned_title(i: int, topic: Seq<char>) -> Seq<char> {
    "第 "@ + decimal_int(i + 1) + " 课："@ + topic
}

/// The topic of the `i`-th lesson of a batch: the topics taken in turn, or "daily life" when
/// there is none.
pub open spec fn planned_topic(topics: Seq<Seq<char>>, i: int) -> Seq<char> {
    if topics.len() == 0 { "daily life"@ } else { topics[i % (topics.len() as int)] }
}

/// One lesson of a batch plan.
pub struct PlannedSceneLesson {
    pub title: String,
    pub topic: String,
    pub core_targets: Vec<VocabularyTarget>,
    pub support_targets: Vec<VocabularyTarget>,
}

fn clone_targets(ts: &[VocabularyTarget], a: usize, b: usize) -> (r: Vec<VocabularyTarget>)
    requires
        a <= b <= ts.len(),
    ensures
        r@ == ts@.subrange(a as int, b as int),
{
    let mut out: Vec<VocabularyTarget> = Vec::new();
    let mut i: usize = a;
    while i < b
        invariant
            a <= i <= b <= ts.len(),
            out@ == ts@.subrange(a as int, i as int),
        decreases b - i,
    {
        out.push(clone_target(&ts[i]));
        assert(out@ =~= ts@.subrange(a as int, i + 1));
        i = i + 1;
    }
    out
}

fn support_window(support: &[VocabularyTarget], i: usize) -> (r: Vec<VocabularyTarget>)
    requires
        i <= usize::MAX / 5,
    ensures
        r@ == planned_support(support@, i as int),
{
    let mut out: Vec<VocabularyTarget> = Vec::new();
    if support.len() == 0 {
        assert(out@ =~= planned_support(support@, i as int));
        return out;
    }
    let n = support.len();
    let start = (i * 5) % n;
    let mut j: usize = 0;
    while j < 5
        invariant
            n == support.len() > 0,
            start == (5 * i) % (n as int),
            j <= 5,
            out@ == Seq::new(j as nat, |k: int| support@[((5 * i) % (n as int) + k) % (n as int)]),
        decreases 5 - j,
    {
        let idx = ((start as u128 + j as u128) % (n as u128)) as usize;
        out.push(clone_target(&support[idx]));
        assert(out@ =~= Seq::new((j + 1) as nat, |k: int| support@[((5 * i) % (n as int) + k) % (n as int)]));
        j = j + 1;
    }
    out
}

/// Splits the core words of a batch into lessons of ten, each with its support words and a
/// topic taken in turn from `topics` ("daily life" when there is none, see [`planned_topic`]).
pub fn plan_scene_lessons(
    core_targets: &[VocabularyTarget],
    support_targets: &[VocabularyTarget],
    topics: &Vec<String>,
) -> (r: Vec<PlannedSceneLesson>)
    ensures
        r.len() == (core_targets.len() + 9) / 10,
        forall|i: int| 0 <= i < r.len() ==> {
            &&& (#[trigger] r@[i]).core_targets@ == planned_core(core_targets@, i)
            &&& r@[i].support_targets@ == planned_support(support_targets@, i)
            &&& r@[i].topic@ == planned_topic(string_views(topics@), i)
            &&& r@[i].title@ == planned_title(i, r@[i].topic@)
        },
{
    let n = core_targets.len();
    let mut out: Vec<PlannedSceneLesson> = Vec::new();
    let mut start: usize = 0;
    let mut i: usize = 0;
    while start < n
        invariant
            n == core_targets.len(),
            start <= n,
            start < n ==> start == 10 * i,
            start == n ==> 10 * i >= n,
            i > 0 ==> 10 * (i - 1) < n,
            i == out.len(),
            forall|k: int| 0 <= k < out.len() ==> {
                &&& (#[trigger] out@[k]).core_targets@ == planned_core(core_targets@, k)
                &&& out@[k].support_targets@ == planned_support(support_targets@, k)
                &&& out@[k].topic@ == planned_topic(string_views(topics@), k)
                &&& out@[k].title@ == planned_title(k, out@[k].topic@)
            },
        decreases n - start,
    {
        let end = if n - start > 10 { start + 10 } else { n };
        let core = clone_targets(core_targets, start, end);
        let support = support_window(support_targets, i);
        let topic = if topics.len() == 0 {
            let d = String::from_str("daily life");
            proof {
                reveal_strlit("daily life");
            }
            d
        } else {
            topics[i % topics.len()].clone()
        };
        assert(topic@ == planned_topic(string_views(topics@), i as int));
        let mut title = String::from_str("第 ");
        push_decimal(&mut title, (i as u128) + 1);
        title.append(" 课：");
        title.append(topic.as_str());
        proof {
            assert(decimal((i as u128 + 1) as nat) == decimal_int(i + 1));
            assert(title@ =~= planned_title(i as int, topic@));
        }
        out.push(PlannedSceneLesson { title, topic, core_targets: core, support_targets: support });
        start = end;
        i = i + 1;
    }
    assert(out.len() == (n + 9) / 10) by (nonlinear_arith)
        requires
            out.len() == i,
            10 * i >= n,
            i > 0 ==> 10 * (i - 1) < n;
    out
}

} // verus!

verus! {

/// Which attempt at a planned scene a reply answers.
pub enum SceneAttempt {
    /// The first request for the lesson.
    First,
    /// The repair request that names the core words the first reply missed.
    Repair,
}

/// What came back for a planned scene: an error (from the request or from reading the
/// reply), or a scene whose lines miss the listed core words.
pub enum SceneReply {
    Failed(String),
    Parsed(Vec<String>),
}

/// What to do next with a planned scene.
pub enum SceneStep {
    /// Save the scene and mark the plan succeeded.
    Save,
    /// Ask again, naming the missing core words.
    Repair(Vec<String>),
    /// Mark the scene and the plan failed with this message, and go on with the batch.
    MarkFailed(String),
    /// Stop the whole batch with this error.
    Abort(String),
}

/// The message of a scene that still misses core words: `核心词未完全覆盖：` and the words
/// joined by `, `.
pub open spec fn coverage_failure_text(missing: Seq<Seq<char>>) -> Seq<char> {
    "核心词未完全覆盖："@ + join_seqs(missing, ", "@)
}

/// Decides the next step for a planned scene from the attempt and its reply. A failed first
/// attempt marks the plan failed; a failed repair stops the batch; a scene that covers every
/// core word is saved; a first scene that misses words is repaired, a repaired one that still
/// misses words is marked failed.
pub fn scene_plan_step(attempt: SceneAttempt, reply: SceneReply) -> (r: SceneStep)
    ensures
        match (attempt, reply) {
            (SceneAttempt::First, SceneReply::Failed(e)) => r matches SceneStep::MarkFailed(m) && m@ == e@,
            (SceneAttempt::Repair, SceneReply::Failed(e)) => r matches SceneStep::Abort(m) && m@ == e@,
            (_, SceneReply::Parsed(missing)) => if missing.len() == 0 {
                r is Save
            } else if attempt is First {
                r matches SceneStep::Repair(w) && w@ == missing@
            } else {
                r matches SceneStep::MarkFailed(m) && m@ == coverage_failure_text(string_views(missing@))
            },
        },
{
    match reply {
        SceneReply::Failed(e) => match attempt {
            SceneAttempt::First => SceneStep::MarkFailed(e),
            SceneAttempt::Repair => SceneStep::Abort(e),
        },
        SceneReply::Parsed(missing) => {
            if missing.len() == 0 {
                SceneStep::Save
            } else {
                match attempt {
                    SceneAttempt::First => SceneStep::Repair(missing),
                    SceneAttempt::Repair => {
                        let mut m = String::from_str("核心词未完全覆盖：");
                        push_joined(&mut m, &missing, ", ");
                        SceneStep::MarkFailed(m)
                    },
                }
            }
        },
    }
}

/// The running count of a batch's plans: how many succeeded and how many failed.
#[derive(Clone, Copy)]
pub struct SceneBatchTally {
    pub succeeded: i64,
    pub failed: i64,
}

/// How a plan of a batch ended.
pub enum PlanOutcome {
    Succeeded,
    Failed,
}

/// Counts one plan of a batch (a plan that had succeeded before counts as succeeded).
pub fn tally_plan(t: SceneBatchTally, o: PlanOutcome) -> (r: SceneBatchTally)
    requires
        t.succeeded < i64::MAX,
        t.failed < i64::MAX,
    ensures
        o is Succeeded ==> r.succeeded == t.succeeded + 1 && r.failed == t.failed,
        o is Failed ==> r.failed == t.failed + 1 && r.succeeded == t.succeeded,
{
    match o {
        PlanOutcome::Succeeded => SceneBatchTally { succeeded: t.succeeded + 1, failed: t.failed },
        PlanOutcome::Failed => SceneBatchTally { succeeded: t.succeeded, failed: t.failed + 1 },
    }
}

/// The status of a finished batch: `succeeded` when no plan failed, `partial` when some
/// failed and some succeeded, `failed` when none succeeded.
pub open spec fn batch_status_of(succeeded: int, failed: int) -> Seq<char> {
    if failed == 0 { "succeeded"@ } else if succeeded > 0 { "partial"@ } else { "failed"@ }
}

/// The status of a finished batch (see [`batch_status_of`]).
pub fn scene_batch_status(t: SceneBatchTally) -> (r: &'static str)
    ensures
        r@ == batch_status_of(t.succeeded as int, t.failed as int),
{
    if t.failed == 0 {
        "succeeded"
    } else if t.succeeded > 0 {
        "partial"
    } else {
        "failed"
    }
}

fn json_number_i64(n: i64) -> (r: JsonValue)
    ensures
        r matches JsonValue::Number(s) && s@ == decimal_int(n as int),
{
    let mut s = String::new();
    push_decimal_i64(&mut s, n);
    JsonValue::Number(s)
}

/// The coverage summary of a finished batch: `{"succeeded": s, "failed": f, "total": s + f}`.
pub fn batch_coverage_summary(t: SceneBatchTally) -> (r: JsonValue)
    requires
        0 <= t.succeeded,
        0 <= t.failed,
        t.succeeded + t.failed <= i64::MAX,
    ensures
        r matches JsonValue::Object(m) && m@.len() == 3
            && m@[0].0@ == "succeeded"@ && (m@[0].1 matches JsonValue::Number(x) && x@ == decimal_int(t.succeeded as int))
            && m@[1].0@ == "failed"@ && (m@[1].1 matches JsonValue::Number(x) && x@ == decimal_int(t.failed as int))
            && m@[2].0@ == "total"@ && (m@[2].1 matches JsonValue::Number(x) && x@ == decimal_int(t.succeeded + t.failed)),
{
    let mut m: Vec<(String, JsonValue)> = Vec::new();
    m.push((String::from_str("succeeded"), json_number_i64(t.succeeded)));
    m.push((String::from_str("failed"), json_number_i64(t.failed)));
    m.push((String::from_str("total"), json_number_i64(t.succeeded + t.failed)));
    JsonValue::Object(m)
}

/// The course a scene is added to must be chosen: `Err("请选择要加入的课程。")` when its id
/// is blank.
pub fn check_course_choice(course_pack_id: &str) -> (r: Result<(), String>)
    ensures
        r is Ok <==> trim(course_pack_id@).len() > 0,
        r matches Err(e) ==> e@ == "请选择要加入的课程。"@,
{
    if is_blank(course_pack_id) { Err(String::from_str("请选择要加入的课程。")) } else { Ok(()) }
}

/// A scene with this status and mark joins a course: it succeeded and has not joined yet.
pub open spec fn scene_joins(status: Seq<char>, added: bool) -> bool {
    status == "succeeded"@ && !added
}

/// A generated scene joins a course only once, and only when it succeeded.
pub fn scene_can_join_course(status: &str, is_added_to_course: bool) -> (r: bool)
    ensures
        r == scene_joins(status@, is_added_to_course),
{
    str_eq(status, "succeeded") && !is_added_to_course
}

/// The title of the lesson a scene becomes, given how many lessons of the course already
/// carry the scene's title: the title itself when none does, else `{title} #{count + 1}`.
pub fn scene_lesson_title(title: &str, existing_title_count: i64) -> (r: String)
    requires
        existing_title_count < i64::MAX,
    ensures
        r@ == (if existing_title_count > 0 {
            title@ + " #"@ + decimal_int(existing_title_count + 1)
        } else {
            title@
        }),
{
    let mut r = String::from_str(title);
    if existing_title_count > 0 {
        r.append(" #");
        push_decimal_i64(&mut r, existing_title_count + 1);
    }
    r
}

/// The note on each sentence that comes from a scene: `AI 场景课：{scenario}`.
pub fn scene_sentence_note(scenario: &str) -> (r: String)
    ensures
        r@ == "AI 场景课："@ + scenario@,
{
    let mut r = String::from_str("AI 场景课：");
    r.append(scenario);
    r
}

/// The topic of a single scene: the trimmed topic, or "a realistic daily situation" when
/// blank.
pub fn scene_topic(topic: &str) -> (r: String)
    ensures
        r@ == or_default(topic@, "a realistic daily situation"@),
{
    text_or_default(topic, "a realistic daily situation")
}

/// The title a single scene is stored under while it is generated: the trimmed title, or
/// "AI 场景对话" when blank.
pub fn scene_title(title: &str) -> (r: String)
    ensures
        r@ == or_default(title@, "AI 场景对话"@),
{
    text_or_default(title, "AI 场景对话")
}

/// The words to enrich: each trimmed, blank ones dropped, at most eighty; `Err` with
/// "请先输入要补全的单词。" when none is left.
pub fn enrich_word_list(words: &Vec<String>) -> (r: Result<Vec<String>, String>)
    ensures
        match r {
            Ok(ws) => trimmed_nonblank(string_views(words@)).len() > 0
                && string_views(ws@) == trimmed_nonblank(string_views(words@)).take(
                    if trimmed_nonblank(string_views(words@)).len() < 80 { trimmed_nonblank(string_views(words@)).len() as int } else { 80 }),
            Err(e) => trimmed_nonblank(string_views(words@)).len() == 0 && e@ == "请先输入要补全的单词。"@,
        },
{
    let all = trimmed_nonblank_strings(words);
    if all.len() == 0 {
        return Err(String::from_str("请先输入要补全的单词。"));
    }
    let n = if all.len() < 80 { all.len() } else { 80 };
    let mut out: Vec<String> = Vec::new();
    let mut i: usize = 0;
    while i < n
        invariant
            i <= n <= all.len(),
            string_views(out@) == string_views(all@).take(i as int),
        decreases n - i,
    {
        let ghost b = out@;
        out.push(all[i].clone());
        assert(string_views(out@) =~= string_views(b).push(all@[i as int]@));
        assert(string_views(out@) =~= string_views(all@).take(i + 1));
        i = i + 1;
    }
    Ok(out)
}

} // verus!

verus! {

/// The core words of the first `k` lessons of a batch, lesson after lesson.
pub open spec fn planned_core_prefix(core: Seq<VocabularyTarget>, k: int) -> Seq<VocabularyTarget>
    decreases k,
{
    if k <= 0 { seq![] } else { planned_core_prefix(core, k - 1) + planned_core(core, k - 1) }
}

proof fn lemma_planned_core_prefix(core: Seq<VocabularyTarget>, k: int)
    requires
        0 <= k,
        10 * (k - 1) < core.len() || k == 0,
    ensures
        planned_core_prefix(core, k) == core.take(if 10 * k < core.len() { 10 * k } else { core.len() as int }),
    decreases k,
{
    if k > 0 {
        lemma_planned_core_prefix(core, k - 1);
        let a = 10 * (k - 1);
        let b = if 10 * k < core.len() { 10 * k } else { core.len() as int };
        assert(core.take(a) + core.subrange(a, b) =~= core.take(b));
    }
}

/// Splitting a batch into lessons loses and repeats no core word: the lessons' core words,
/// lesson after lesson, are the batch's core words in their order.
pub proof fn law_lessons_cover_core_words(core: Seq<VocabularyTarget>)
    ensures
        planned_core_prefix(core, ((core.len() + 9) / 10) as int) == core,
{
    let k: int = ((core.len() + 9) / 10) as int;
    if k > 0 {
        assert(10 * (k - 1) < core.len() && 10 * k >= core.len()) by (nonlinear_arith)
            requires k == (core.len() + 9) / 10, k > 0;
    } else {
        assert(core.len() == 0);
    }
    lemma_planned_core_prefix(core, k);
    assert(core.take(core.len() as int) =~= core);
}

/// The support words of a batch are never core words, keep the candidates' order, and number
/// at most the limit.
pub proof fn law_support_words_exclude_core(candidates: Seq<VocabularyTarget>, core: Seq<VocabularyTarget>, limit: nat)
    ensures
        support_selection(candidates, core, limit).len() <= limit,
        forall|i: int| 0 <= i < support_selection(candidates, core, limit).len()
            ==> outside_core(core, #[trigger] support_selection(candidates, core, limit)[i]),
{
    lemma_non_core_outside(candidates, core);
}

proof fn lemma_non_core_outside(candidates: Seq<VocabularyTarget>, core: Seq<VocabularyTarget>)
    ensures
        forall|i: int| 0 <= i < non_core(candidates, core).len() ==> outside_core(core, #[trigger] non_core(candidates, core)[i]),
    decreases candidates.len(),
{
    if candidates.len() > 0 {
        lemma_non_core_outside(candidates.drop_last(), core);
        let rest = non_core(candidates.drop_last(), core);
        let all = non_core(candidates, core);
        assert forall|i: int| 0 <= i < all.len() implies outside_core(core, #[trigger] all[i]) by {
            if i < rest.len() {
                assert(all[i] == rest[i]);
            }
        }
    }
}

} // verus!

verus! {

proof fn lemma_trim_kept(s: Seq<char>)
    requires
        s.len() > 0,
        !is_ws(s[0]),
        !is_ws(s.last()),
    ensures
        trim(s) == s,
{
    crate::text::lemma_trim_by_noop(s, crate::text::ws_pred());
}

/// Normalising an endpoint twice gives what normalising once gave, except for a blank URL
/// under the `responses` protocol: that becomes the bare API root, which a second pass
/// completes with `/responses`.
pub proof fn law_endpoint_normalization_idempotent(value: Seq<char>, wire_api: Seq<char>)
    requires
        !(trim(value).len() == 0 && wire_api_of(wire_api) == "responses"@),
    ensures
        normalized_base_url(normalized_base_url(value, wire_api), wire_api) == normalized_base_url(value, wire_api),
{
    let t = trim(value);
    let wire = wire_api_of(wire_api);
    let r = normalized_base_url(value, wire_api);
    let chat = "/chat/completions"@;
    let resp = "/responses"@;
    reveal_strlit("/chat/completions");
    reveal_strlit("/responses");
    reveal_strlit("https://api.openai.com/v1/chat/completions");
    crate::text::lemma_trim_by_ends(value, crate::text::ws_pred());
    crate::text::lemma_trim_by_idempotent(value, crate::text::ws_pred());
    if t.len() == 0 {
        let d = "https://api.openai.com/v1/chat/completions"@;
        reveal_strlit("openai_compatible");
        reveal_strlit("gpt2");
        reveal_strlit("volcengine_ark");
        assert("openai_compatible"@ != "gpt2"@) by { assert("openai_compatible"@.len() != "gpt2"@.len()); }
        assert("openai_compatible"@ != "volcengine_ark"@) by { assert("openai_compatible"@[0] != "volcengine_ark"@[0]); }
        assert(r == d);
        lemma_trim_kept(d);
        assert(d.subrange(d.len() - chat.len(), d.len() as int) =~= chat);
        assert(chat.is_suffix_of(d));
    } else if chat.is_suffix_of(t) || resp.is_suffix_of(t) {
        assert(r == t);
    } else if ends_with_api_root(t) {
        let slash = trim_pred(TrimKind::Exactly('/'));
        let base = trim_end_by(t, slash);
        let route = if wire == "responses"@ { resp } else { chat };
        assert(r == base + route);
        reveal_strlit("/api/v3");
        reveal_strlit("/api/v3/");
        reveal_strlit("/v1");
        reveal_strlit("/v1/");
        let k: int = if "/api/v3"@.is_suffix_of(t) || "/v1"@.is_suffix_of(t) { t.len() - 1 } else { t.len() - 2 };
        assert(!slash(t[k])) by {
            if "/api/v3"@.is_suffix_of(t) {
                assert(t.subrange(t.len() - 7, t.len() as int)[6] == t[t.len() - 1]);
            } else if "/v1"@.is_suffix_of(t) {
                assert(t.subrange(t.len() - 3, t.len() as int)[2] == t[t.len() - 1]);
            } else if "/api/v3/"@.is_suffix_of(t) {
                assert(t.subrange(t.len() - 8, t.len() as int)[6] == t[t.len() - 2]);
            } else {
                assert(t.subrange(t.len() - 4, t.len() as int)[2] == t[t.len() - 2]);
            }
        }
        crate::text::lemma_trim_end_keeps(t, slash, k);
        crate::text::lemma_trim_end_shape(t, slash);
        assert(base[0] == t[0]);
        assert((base + route)[0] == t[0]);
        assert((base + route).last() == 's');
        lemma_trim_kept(base + route);
        assert((base + route).subrange((base + route).len() - route.len(), (base + route).len() as int) =~= route);
    } else {
        assert(r == t);
    }
}

} // verus!

verus! {

/// A request to the model needs an API key: `Err("LLM API key is empty")` when it is blank.
pub fn check_api_key(api_key: &str) -> (r: Result<(), String>)
    ensures
        r is Ok <==> trim(api_key@).len() > 0,
        r matches Err(e) ==> e@ == "LLM API key is empty"@,
{
    if is_blank(api_key) { Err(String::from_str("LLM API key is empty")) } else { Ok(()) }
}

/// The last profile cannot be deleted: `Err("至少保留一个 LLM 配置。")` when there is at most
/// one.
pub fn check_profile_deletion(profile_count: usize) -> (r: Result<(), String>)
    ensures
        r is Ok <==> profile_count > 1,
        r matches Err(e) ==> e@ == "至少保留一个 LLM 配置。"@,
{
    if profile_count <= 1 { Err(String::from_str("至少保留一个 LLM 配置。")) } else { Ok(()) }
}

/// Whether the profile being deleted is the default one: the default flag of the first
/// listed profile with that id (false when none has it).
pub open spec fn deleted_was_default(profiles: Seq<(String, bool)>, id: Seq<char>) -> bool
    decreases profiles.len(),
{
    if profiles.len() == 0 {
        false
    } else if profiles[0].0@ == id {
        profiles[0].1
    } else {
        deleted_was_default(profiles.drop_first(), id)
    }
}

/// Tells whether the profile being deleted is the default one (see [`deleted_was_default`]);
/// `profiles` lists each profile's id and default flag.
pub fn profile_was_default(profiles: &Vec<(String, bool)>, profile_id: &str) -> (r: bool)
    ensures
        r == deleted_was_default(profiles@, profile_id@),
{
    let mut i: usize = 0;
    assert(profiles@.skip(0) =~= profiles@);
    while i < profiles.len()
        invariant
            i <= profiles.len(),
            deleted_was_default(profiles@, profile_id@) == deleted_was_default(profiles@.skip(i as int), profile_id@),
        decreases profiles.len() - i,
    {
        let ghost rest = profiles@.skip(i as int);
        assert(rest[0] == profiles@[i as int]);
        if str_eq(profiles[i].0.as_str(), profile_id) {
            return profiles[i].1;
        }
        assert(rest.drop_first() =~= profiles@.skip(i + 1));
        i = i + 1;
    }
    assert(profiles@.skip(i as int) =~= Seq::<(String, bool)>::empty());
    false
}

/// After a profile is saved, the saved one becomes the default when no profile is.
pub fn needs_default_profile(default_flags: &Vec<bool>) -> (r: bool)
    ensures
        r == no_default(default_flags@),
{
    let mut i: usize = 0;
    while i < default_flags.len()
        invariant
            i <= default_flags.len(),
            forall|k: int| 0 <= k < i ==> !#[trigger] default_flags@[k],
        decreases default_flags.len() - i,
    {
        if default_flags[i] {
            return false;
        }
        i = i + 1;
    }
    true
}

/// No profile is marked as the default.
pub open spec fn no_default(flags: Seq<bool>) -> bool {
    forall|i: int| 0 <= i < flags.len() ==> !#[trigger] flags[i]
}

/// At most one profile is marked as the default.
pub open spec fn at_most_one_default(flags: Seq<bool>) -> bool {
    forall|i: int, j: int| 0 <= i < j < flags.len() ==> !(#[trigger] flags[i] && #[trigger] flags[j])
}

/// Exactly one profile, the one at `d`, is marked as the default.
pub open spec fn sole_default(flags: Seq<bool>, d: int) -> bool {
    &&& 0 <= d < flags.len()
    &&& flags[d]
    &&& forall|j: int| 0 <= j < flags.len() && j != d ==> !#[trigger] flags[j]
}

/// The default marks of the stored profiles after saving the profile at `saved` (a stored
/// one, or a new one at the end when `saved` is the count): a default request clears every
/// mark first; the saved profile gets the requested mark; when no mark is left, the saved
/// profile becomes the default.
pub open spec fn defaults_after_save(flags: Seq<bool>, saved: int, make_default: bool) -> Seq<bool> {
    let cleared = if make_default { Seq::new(flags.len(), |i: int| false) } else { flags };
    let upserted = if saved < cleared.len() { cleared.update(saved, make_default) } else { cleared.push(make_default) };
    if no_default(upserted) { upserted.update(saved, true) } else { upserted }
}

/// Saving a language-model profile leaves exactly one default profile, provided there was at
/// most one before: the saved one when it was asked to be the default (or when no other
/// default is left), else the earlier default.
pub proof fn law_save_keeps_one_default_profile(flags: Seq<bool>, saved: int, make_default: bool)
    requires
        0 <= saved <= flags.len(),
        at_most_one_default(flags),
    ensures
        exists|d: int| sole_default(defaults_after_save(flags, saved, make_default), d),
        make_default ==> sole_default(defaults_after_save(flags, saved, make_default), saved),
        !make_default && (exists|d: int| 0 <= d < flags.len() && d != saved && #[trigger] flags[d]) ==> (forall|d: int|
            0 <= d < flags.len() && d != saved && #[trigger] flags[d] ==> sole_default(defaults_after_save(flags, saved, make_default), d)),
{
    let cleared = if make_default { Seq::new(flags.len(), |i: int| false) } else { flags };
    let upserted = if saved < cleared.len() { cleared.update(saved, make_default) } else { cleared.push(make_default) };
    let after = defaults_after_save(flags, saved, make_default);
    assert(upserted.len() == if saved < flags.len() { flags.len() } else { flags.len() + 1 });
    assert(upserted[saved] == make_default);
    assert forall|j: int| 0 <= j < upserted.len() && j != saved implies upserted[j] == (!make_default && flags[j]) by {}
    if no_default(upserted) {
        assert(after == upserted.update(saved, true));
        assert(sole_default(after, saved));
        if !make_default {
            assert forall|d: int| 0 <= d < flags.len() && d != saved && #[trigger] flags[d] implies sole_default(after, d) by {
                assert(upserted[d]);
            }
        }
    } else {
        assert(after == upserted);
        let d = choose|d: int| 0 <= d < upserted.len() && upserted[d];
        assert(upserted[d]);
        if make_default {
            assert(d == saved);
            assert(sole_default(after, saved));
        } else {
            assert(d != saved);
            assert(flags[d]);
            assert forall|j: int| 0 <= j < after.len() && j != d implies !#[trigger] after[j] by {
                if j != saved && after[j] {
                    assert(flags[j]);
                    if j < d {
                        assert(!(flags[j] && flags[d]));
                    } else {
                        assert(!(flags[d] && flags[j]));
                    }
                }
            }
            assert(sole_default(after, d));
            assert forall|e: int| 0 <= e < flags.len() && e != saved && #[trigger] flags[e] implies sole_default(after, e) by {
                if e != d {
                    if e < d {
                        assert(!(flags[e] && flags[d]));
                    } else {
                        assert(!(flags[d] && flags[e]));
                    }
                }
            }
        }
    }
}

/// The marks of the scenes after the scenes at `ids` are added to a course in turn: each
/// scene that joins (see `scene_joins`) is marked as added. A scene is its status and mark.
pub open spec fn scenes_after_adding(scenes: Seq<(Seq<char>, bool)>, ids: Seq<int>) -> Seq<(Seq<char>, bool)>
    decreases ids.len(),
{
    if ids.len() == 0 {
        scenes
    } else {
        let before = scenes_after_adding(scenes, ids.drop_last());
        let id = ids.last();
        if 0 <= id < before.len() && scene_joins(before[id].0, before[id].1) {
            before.update(id, (before[id].0, true))
        } else {
            before
        }
    }
}

/// How many scenes join a course when the scenes at `ids` are added in turn.
pub open spec fn joined_count(scenes: Seq<(Seq<char>, bool)>, ids: Seq<int>) -> nat
    decreases ids.len(),
{
    if ids.len() == 0 {
        0
    } else {
        let before = scenes_after_adding(scenes, ids.drop_last());
        let id = ids.last();
        joined_count(scenes, ids.drop_last()) + if 0 <= id < before.len() && scene_joins(before[id].0, before[id].1) { 1nat } else { 0nat }
    }
}

proof fn lemma_added_scenes_stay_out(scenes: Seq<(Seq<char>, bool)>, ids: Seq<int>)
    ensures
        scenes_after_adding(scenes, ids).len() == scenes.len(),
        forall|j: int| 0 <= j < ids.len() && 0 <= ids[j] < scenes.len() ==> !scene_joins(
            #[trigger] scenes_after_adding(scenes, ids)[ids[j]].0, scenes_after_adding(scenes, ids)[ids[j]].1),
    decreases ids.len(),
{
    if ids.len() > 0 {
        let p = ids.drop_last();
        lemma_added_scenes_stay_out(scenes, p);
        let before = scenes_after_adding(scenes, p);
        let after = scenes_after_adding(scenes, ids);
        assert forall|j: int| 0 <= j < ids.len() && 0 <= ids[j] < scenes.len() implies !scene_joins(
            #[trigger] after[ids[j]].0, after[ids[j]].1) by {
            if j < ids.len() - 1 {
                assert(ids[j] == p[j]);
                assert(!scene_joins(before[p[j]].0, before[p[j]].1));
            }
        }
    }
}

proof fn lemma_no_joiner_keeps_scenes(scenes: Seq<(Seq<char>, bool)>, ids: Seq<int>)
    requires
        forall|j: int| 0 <= j < ids.len() && 0 <= ids[j] < scenes.len() ==> !scene_joins(
            #[trigger] scenes[ids[j]].0, scenes[ids[j]].1),
    ensures
        scenes_after_adding(scenes, ids) == scenes,
        joined_count(scenes, ids) == 0,
    decreases ids.len(),
{
    if ids.len() > 0 {
        let p = ids.drop_last();
        assert forall|j: int| 0 <= j < p.len() && 0 <= p[j] < scenes.len() implies !scene_joins(
            #[trigger] scenes[p[j]].0, scenes[p[j]].1) by {
            assert(p[j] == ids[j]);
        }
        lemma_no_joiner_keeps_scenes(scenes, p);
        let id = ids.last();
        assert(id == ids[ids.len() - 1]);
    }
}

/// Adding the same scenes to a course a second time adds nothing: no scene joins again and
/// every mark stays as the first call left it. A scene that has joined never joins again.
pub proof fn law_adding_scenes_twice_adds_nothing(scenes: Seq<(Seq<char>, bool)>, ids: Seq<int>)
    ensures
        joined_count(scenes_after_adding(scenes, ids), ids) == 0,
        scenes_after_adding(scenes_after_adding(scenes, ids), ids) == scenes_after_adding(scenes, ids),
        forall|status: Seq<char>| !scene_joins(status, true),
{
    lemma_added_scenes_stay_out(scenes, ids);
    lemma_no_joiner_keeps_scenes(scenes_after_adding(scenes, ids), ids);
}

/// A finished batch is `succeeded` when no plan failed, `partial` when at least one plan
/// succeeded and at least one failed, whatever the counts, and `failed` only when plans failed
/// and none succeeded.
pub proof fn law_batch_status_follows_outcomes(succeeded: int, failed: int)
    requires
        succeeded >= 0,
        failed >= 0,
    ensures
        failed == 0 ==> batch_status_of(succeeded, failed) == "succeeded"@,
        succeeded > 0 && failed > 0 ==> batch_status_of(succeeded, failed) == "partial"@,
        succeeded == 0 && failed > 0 ==> batch_status_of(succeeded, failed) == "failed"@,
        batch_status_of(succeeded, failed) == "failed"@ <==> (succeeded == 0 && failed > 0),
{
    reveal_strlit("succeeded");
    reveal_strlit("partial");
    reveal_strlit("failed");
    assert("succeeded"@[0] != "failed"@[0]);
    assert("partial"@[0] != "failed"@[0]);
}

/// An ordinary chat-completions reply is read from its first choice's message: when
/// `/choices/0/message/content` is a string that is not blank, the reply text is that string
/// trimmed.
pub proof fn law_chat_message_content_is_the_reply(response: JsonValue)
    requires
        json_pointer(response, seq!["choices"@, "0"@, "message"@, "content"@]) matches Some(JsonValue::Str(s))
            && trim(s@).len() > 0,
    ensures
        json_pointer(response, seq!["choices"@, "0"@, "message"@, "content"@]) matches Some(JsonValue::Str(s))
            && llm_content_of(response) == Ok::<Seq<char>, Option<Seq<Seq<char>>>>(trim(s@)),
{
    let paths = content_paths();
    assert(paths[0] == seq!["choices"@, "0"@, "message"@, "content"@]);
    assert(first_text_at(response, paths, 0) is None);
    assert(first_text_at(response, paths, 1) == text_at(response, paths[0]));
    lemma_first_text_stable(response, paths, 1, paths.len() as int);
}

/// A responses-API reply is read from its `output_text`: for a response object with no
/// `choices`, `data` or `result` member, whose `output_text` member is a string that is not
/// blank, the reply text is that string trimmed.
pub proof fn law_responses_output_text_is_the_reply(response: JsonValue)
    requires
        response is Object,
        json_get(response, "choices"@) is None,
        json_get(response, "data"@) is None,
        json_get(response, "result"@) is None,
        json_get(response, "output_text"@) matches Some(JsonValue::Str(s)) && trim(s@).len() > 0,
    ensures
        json_get(response, "output_text"@) matches Some(JsonValue::Str(s))
            && llm_content_of(response) == Ok::<Seq<char>, Option<Seq<Seq<char>>>>(trim(s@)),
{
    let paths = content_paths();
    assert(first_text_at(response, paths, 0) is None);
    assert(json_pointer(response, paths[0]) is None);
    assert(first_text_at(response, paths, 1) is None);
    assert(json_pointer(response, paths[1]) is None);
    assert(first_text_at(response, paths, 2) is None);
    assert(json_pointer(response, paths[2]) is None);
    assert(first_text_at(response, paths, 3) is None);
    assert(json_pointer(response, paths[3]) is None);
    assert(first_text_at(response, paths, 4) is None);
    assert(json_pointer(response, paths[4]) is None);
    assert(first_text_at(response, paths, 5) is None);
    assert(paths[5] == seq!["output_text"@]);
    assert(paths[5][0] == "output_text"@);
    assert(paths[5].drop_first() =~= Seq::<Seq<char>>::empty());
    assert(pointer_step(response, "output_text"@) == json_get(response, "output_text"@));
    let w = json_get(response, "output_text"@)->Some_0;
    assert(json_pointer(w, paths[5].drop_first()) == Some(w));
    assert(json_pointer(response, paths[5]) == json_get(response, "output_text"@));
    assert(first_text_at(response, paths, 6) == text_at(response, paths[5]));
    lemma_first_text_stable(response, paths, 6, paths.len() as int);
}

/// The text of the string stored under member `name` of an object.
pub open spec fn member_string(v: JsonValue, name: Seq<char>) -> Option<Seq<char>> {
    match json_get(v, name) {
        Some(JsonValue::Str(s)) => Some(s@),
        _ => None,
    }
}

/// The `j`-th record of an enrichment reply's entry list.
pub open spec fn entry_record_at(v: JsonValue, j: int) -> JsonValue {
    match entries_list(v) {
        JsonValue::Array(a) => a@[j],
        _ => JsonValue::Null,
    }
}

/// Each field of a decoded enrichment entry given as an object takes the value of its own
/// camelCase member: `text`, `primaryMeaning`, `phonetic`, `partOfSpeech`, `example`,
/// `exampleCn`, `roots`, `wordFamily`, `synonyms`, `antonyms`, `memoryHint`, `tags`,
/// `difficulty`.
pub proof fn law_entry_fields_read_their_own_members(v: JsonValue, es: Seq<EnrichedVocabularyEntry>, j: int)
    requires
        enriched_entries_of(v) == Some(es.map_values(|e: EnrichedVocabularyEntry| enriched_fields(e))),
        0 <= j < es.len(),
        entry_record_at(v, j) is Object,
    ensures
        member_string(entry_record_at(v, j), "text"@) == Some(es[j].text@),
        member_string(entry_record_at(v, j), "primaryMeaning"@) == Some(es[j].primary_meaning@),
        member_string(entry_record_at(v, j), "phonetic"@) == Some(es[j].phonetic@),
        member_string(entry_record_at(v, j), "partOfSpeech"@) == Some(es[j].part_of_speech@),
        member_string(entry_record_at(v, j), "example"@) == Some(es[j].example@),
        member_string(entry_record_at(v, j), "exampleCn"@) == Some(es[j].example_cn@),
        member_string(entry_record_at(v, j), "roots"@) == Some(es[j].roots@),
        member_string(entry_record_at(v, j), "wordFamily"@) == Some(es[j].word_family@),
        member_string(entry_record_at(v, j), "synonyms"@) == Some(es[j].synonyms@),
        member_string(entry_record_at(v, j), "antonyms"@) == Some(es[j].antonyms@),
        member_string(entry_record_at(v, j), "memoryHint"@) == Some(es[j].memory_hint@),
        member_string(entry_record_at(v, j), "tags"@) == Some(es[j].tags@),
        member_string(entry_record_at(v, j), "difficulty"@) == Some(es[j].difficulty@),
{
    let list = entries_list(v);
    let names = enriched_entry_names();
    let fields = es.map_values(|e: EnrichedVocabularyEntry| enriched_fields(e));
    match list {
        JsonValue::Array(a) => {
            assert(fields.len() == a@.len());
            let rec = a@[j];
            assert(string_record(rec, names) is Some);
            let vals = string_record(rec, names)->Some_0;
            assert(vals == fields[j]);
            assert(fields[j] == enriched_fields(es[j]));
            assert forall|i: int| 0 <= i < names.len() implies member_string(rec, names[i]) == Some(vals[i]) by {
                assert(json_get(rec, names[i]) matches Some(JsonValue::Str(_)));
            }
            assert(member_string(rec, names[0]) == Some(vals[0]));
            assert(member_string(rec, names[1]) == Some(vals[1]));
            assert(member_string(rec, names[2]) == Some(vals[2]));
            assert(member_string(rec, names[3]) == Some(vals[3]));
            assert(member_string(rec, names[4]) == Some(vals[4]));
            assert(member_string(rec, names[5]) == Some(vals[5]));
            assert(member_string(rec, names[6]) == Some(vals[6]));
            assert(member_string(rec, names[7]) == Some(vals[7]));
            assert(member_string(rec, names[8]) == Some(vals[8]));
            assert(member_string(rec, names[9]) == Some(vals[9]));
            assert(member_string(rec, names[10]) == Some(vals[10]));
            assert(member_string(rec, names[11]) == Some(vals[11]));
            assert(member_string(rec, names[12]) == Some(vals[12]));
        },
        _ => {},
    }
}

/// The `j`-th line record of a scene reply given as an object.
pub open spec fn line_record_at(v: JsonValue, j: int) -> JsonValue {
    match json_get(v, "lines"@) {
        Some(JsonValue::Array(a)) => a@[j],
        _ => JsonValue::Null,
    }
}

/// A scene given as an object takes its title from the `title` member and its scenario from
/// the `scenario` member, and each line given as an object takes its speaker, English and
/// Chinese text from its own `speaker`, `english` and `chinese` members.
pub proof fn law_scene_fields_read_their_own_members(
    v: JsonValue,
    title: Seq<char>,
    scenario: Seq<char>,
    lines: Seq<ScenePayloadLine>,
)
    requires
        v is Object,
        scene_payload_of(v) == Some((title, scenario, payload_lines(lines))),
    ensures
        member_string(v, "title"@) == Some(title),
        member_string(v, "scenario"@) == Some(scenario),
        forall|j: int| 0 <= j < lines.len() && (#[trigger] line_record_at(v, j)) is Object ==> {
            &&& member_string(line_record_at(v, j), "speaker"@) == Some(lines[j].speaker@)
            &&& member_string(line_record_at(v, j), "english"@) == Some(lines[j].english@)
            &&& member_string(line_record_at(v, j), "chinese"@) == Some(lines[j].chinese@)
        },
{
    let names = scene_line_names();
    let pl = payload_lines(lines);
    match json_get(v, "lines"@) {
        Some(ls) => {
            assert(scene_lines_of(ls) == Some(pl));
            match ls {
                JsonValue::Array(a) => {
                    assert forall|j: int| 0 <= j < lines.len() && (#[trigger] line_record_at(v, j)) is Object implies {
                        &&& member_string(line_record_at(v, j), "speaker"@) == Some(lines[j].speaker@)
                        &&& member_string(line_record_at(v, j), "english"@) == Some(lines[j].english@)
                        &&& member_string(line_record_at(v, j), "chinese"@) == Some(lines[j].chinese@)
                    } by {
                        let rec = a@[j];
                        assert(pl.len() == a@.len());
                        assert(string_record(rec, names) is Some);
                        let vals = string_record(rec, names)->Some_0;
                        assert(vals == pl[j]);
                        assert(pl[j] == line_fields(lines[j]));
                        assert(json_get(rec, names[0]) matches Some(JsonValue::Str(_)));
                        assert(json_get(rec, names[1]) matches Some(JsonValue::Str(_)));
                        assert(json_get(rec, names[2]) matches Some(JsonValue::Str(_)));
                        assert(member_string(rec, names[0]) == Some(vals[0]));
                        assert(member_string(rec, names[1]) == Some(vals[1]));
                        assert(member_string(rec, names[2]) == Some(vals[2]));
                    }
                },
                _ => {},
            }
        },
        None => {},
    }
}

} // verus!
