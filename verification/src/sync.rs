//! WebDAV sync: the sync settings, the remote paths and URLs, which rows of a remote
//! snapshot are merged, and the statements that merge them.

use base64::Engine;
use vstd::prelude::*;
use crate::json::{get_member, json_get, JsonValue};
use crate::text::{decimal, join_seqs, push_decimal, push_joined, string_views};
use crate::text::{
    chars_of, lemma_trim_by_ends, lemma_trim_by_noop, lemma_trim_by_wrapped, lit, str_eq, string_of, trim, trim_by,
    trim_end_by, trim_end_vec_by, trim_pred, trim_start_by, trim_start_vec_by, trim_str, trim_vec, trim_vec_by,
    vec_starts_with, ws_pred, TrimKind,
};

verus! {

pub struct SyncSettings {
    pub provider: String,
    pub base_url: String,
    pub username: String,
    pub remote_path: String,
    pub device_id: String,
    pub auto_sync_enabled: bool,
    pub last_sync_at: Option<String>,
    pub sync_status: String,
    pub last_error: String,
    pub updated_at: String,
}

pub struct SaveSyncSettingsRequest {
    pub provider: String,
    pub base_url: String,
    pub username: String,
    pub remote_path: String,
    pub auto_sync_enabled: bool,
}

pub struct WebDavSecretRequest {
    pub password: String,
}

pub struct SyncActionResult {
    pub ok: bool,
    pub message: String,
    pub remote_snapshot_url: String,
    pub uploaded_bytes: usize,
    pub merged_rows: usize,
    pub synced_at: String,
}

/// Stripping `/`.
pub open spec fn slash() -> spec_fn(char) -> bool {
    trim_pred(TrimKind::Exactly('/'))
}

/// The WebDAV server a setting names: the default Jianguoyun server when blank, else the
/// trimmed URL without trailing slashes.
pub open spec fn sync_base_url(value: Seq<char>) -> Seq<char> {
    if trim(value).len() == 0 {
        "https://dav.jianguoyun.com/dav/"@
    } else {
        trim_end_by(trim(value), slash())
    }
}

/// Normalises the WebDAV server of a setting (see [`sync_base_url`]).
pub fn normalize_base_url(value: &str) -> (r: String)
    ensures
        r@ == sync_base_url(value@),
{
    let t = trim_vec(&chars_of(value));
    if t.len() == 0 {
        String::from_str("https://dav.jianguoyun.com/dav/")
    } else {
        string_of(&trim_end_vec_by(&t, &TrimKind::Exactly('/')))
    }
}

/// The default sync folder.
pub open spec fn default_remote_path() -> Seq<char> {
    "/MomoLite/sync/"@
}

/// The sync folder a setting names: the path trimmed of whitespace and of slashes, between
/// one leading and one trailing slash; the default folder when nothing is left.
pub open spec fn remote_path_of(value: Seq<char>) -> Seq<char> {
    let t = trim(value);
    let inner = trim_by(t, slash());
    if t.len() == 0 || inner.len() == 0 {
        default_remote_path()
    } else {
        seq!['/'] + inner + seq!['/']
    }
}

/// Normalises the sync folder of a setting (see [`remote_path_of`]).
pub fn normalize_remote_path(value: &str) -> (r: String)
    ensures
        r@ == remote_path_of(value@),
{
    let t = trim_vec(&chars_of(value));
    let inner = trim_vec_by(&t, &TrimKind::Exactly('/'));
    if t.len() == 0 || inner.len() == 0 {
        String::from_str("/MomoLite/sync/")
    } else {
        let mut r = String::from_str("/");
        r.append(string_of(&inner).as_str());
        r.append("/");
        proof {
            reveal_strlit("/");
        }
        assert(r@ =~= seq!['/'] + inner@ + seq!['/']);
        r
    }
}

/// Normalising a server URL twice gives what normalising once gave, unless the first pass
/// leaves nothing (a blank URL, which becomes the default server whose trailing slash a
/// second pass removes, or one of slashes only) or leaves whitespace at the end (spaces
/// before the trailing slashes, which a second pass trims).
pub proof fn law_sync_base_url_idempotent(value: Seq<char>)
    requires
        trim_end_by(trim(value), slash()).len() > 0,
        !crate::text::is_ws(trim_end_by(trim(value), slash()).last()),
    ensures
        sync_base_url(sync_base_url(value)) == sync_base_url(value),
{
    let t = trim(value);
    let b = trim_end_by(t, slash());
    lemma_trim_by_ends(value, ws_pred());
    crate::text::lemma_trim_end_shape(t, slash());
    assert(b[0] == t[0]);
    crate::text::lemma_trim_end_shape(b, slash());
    lemma_trim_by_noop(b, ws_pred());
    assert(trim(b) == b);
}

/// A normalised sync folder is normalised already: normalising twice gives what normalising
/// once gave. It starts and ends with `/` and has no blank name between them.
pub proof fn law_remote_path_idempotent(value: Seq<char>)
    ensures
        remote_path_of(remote_path_of(value)) == remote_path_of(value),
        remote_path_of(value).len() >= 3,
        remote_path_of(value)[0] == '/',
        remote_path_of(value).last() == '/',
{
    let q = remote_path_of(value);
    let t = trim(value);
    let inner = trim_by(t, slash());
    lemma_trim_by_ends(t, slash());
    if t.len() == 0 || inner.len() == 0 {
        reveal_strlit("/MomoLite/sync/");
        let name = "MomoLite/sync"@;
        reveal_strlit("MomoLite/sync");
        assert(q =~= seq!['/'] + name + seq!['/']);
        lemma_trim_by_noop(q, ws_pred());
        lemma_trim_by_wrapped(name, '/', slash());
    } else {
        lemma_trim_by_noop(q, ws_pred());
        lemma_trim_by_wrapped(inner, '/', slash());
    }
}

/// The URL of a file or folder in the sync folder: the server, the folder, and the suffix
/// (when there is one), joined by single slashes.
pub open spec fn remote_url_of(base_url: Seq<char>, remote_path: Seq<char>, suffix: Seq<char>) -> Seq<char> {
    let joined = trim_end_by(sync_base_url(base_url), slash()) + seq!['/'] + trim_by(remote_path_of(remote_path), slash());
    if suffix.len() == 0 {
        joined
    } else {
        trim_end_by(joined, slash()) + seq!['/'] + trim_start_by(suffix, slash())
    }
}

/// The URL of `suffix` in the sync folder of the settings (see [`remote_url_of`]).
pub fn remote_url(settings: &SyncSettings, suffix: &str) -> (r: String)
    ensures
        r@ == remote_url_of(settings.base_url@, settings.remote_path@, suffix@),
{
    let slash_kind = TrimKind::Exactly('/');
    let base = normalize_base_url(settings.base_url.as_str());
    let remote = normalize_remote_path(settings.remote_path.as_str());
    let b = trim_end_vec_by(&chars_of(base.as_str()), &slash_kind);
    let m = trim_vec_by(&chars_of(remote.as_str()), &slash_kind);
    let mut joined = b.clone();
    joined.push('/');
    let mut rest = m.clone();
    joined.append(&mut rest);
    let ghost jv = trim_end_by(sync_base_url(settings.base_url@), slash()) + seq!['/']
        + trim_by(remote_path_of(settings.remote_path@), slash());
    assert(joined@ =~= jv);
    let sv = chars_of(suffix);
    if sv.len() == 0 {
        string_of(&joined)
    } else {
        let e = trim_end_vec_by(&joined, &slash_kind);
        let t = trim_start_vec_by(&sv, &slash_kind);
        let mut out = e.clone();
        out.push('/');
        let mut tail = t.clone();
        out.append(&mut tail);
        assert(out@ =~= trim_end_by(jv, slash()) + seq!['/'] + trim_start_by(suffix@, slash()));
        string_of(&out)
    }
}

} // verus!

verus! {

/// The names of a slash-separated path read so far, and the name being read.
pub open spec fn segments_acc(s: Seq<char>) -> (Seq<Seq<char>>, Seq<char>)
    decreases s.len(),
{
    if s.len() == 0 {
        (seq![], seq![])
    } else {
        let (done, cur) = segments_acc(s.drop_last());
        if s.last() == '/' {
            if cur.len() > 0 { (done.push(cur), seq![]) } else { (done, seq![]) }
        } else {
            (done, cur.push(s.last()))
        }
    }
}

/// The non-empty names of a slash-separated path, in order (`split('/')` without the empty
/// pieces).
pub open spec fn path_segments(s: Seq<char>) -> Seq<Seq<char>> {
    let (done, cur) = segments_acc(s);
    if cur.len() > 0 { done.push(cur) } else { done }
}

/// The folders that sync creates, outermost first: the names of the sync folder, then
/// `changes` inside it.
pub open spec fn sync_folder_names(remote_path: Seq<char>) -> Seq<Seq<char>> {
    path_segments(trim_by(remote_path_of(remote_path), slash())).push("changes"@)
}

/// The URL of the `i`-th folder that sync creates: the server, then the names of that folder
/// and of the folders around it, joined by slashes.
pub open spec fn sync_folder_url(base_url: Seq<char>, remote_path: Seq<char>, i: int) -> Seq<char> {
    trim_end_by(sync_base_url(base_url), slash()) + seq!['/']
        + crate::text::join_seqs(sync_folder_names(remote_path).take(i + 1), "/"@)
}

fn path_segments_exec(s: &Vec<char>) -> (r: Vec<Vec<char>>)
    ensures
        r@.map_values(|v: Vec<char>| v@) == path_segments(s@),
{
    let mut done: Vec<Vec<char>> = Vec::new();
    let mut cur: Vec<char> = Vec::new();
    let mut i: usize = 0;
    while i < s.len()
        invariant
            i <= s.len(),
            (done@.map_values(|v: Vec<char>| v@), cur@) == segments_acc(s@.take(i as int)),
        decreases s.len() - i,
    {
        assert(s@.take(i + 1).drop_last() =~= s@.take(i as int));
        let c = s[i];
        let ghost d0 = done@;
        if c == '/' {
            if cur.len() > 0 {
                done.push(cur);
                assert(done@.map_values(|v: Vec<char>| v@) =~= d0.map_values(|v: Vec<char>| v@).push(cur@));
            }
            cur = Vec::new();
        } else {
            cur.push(c);
        }
        i = i + 1;
    }
    assert(s@.take(s@.len() as int) =~= s@);
    if cur.len() > 0 {
        let ghost d0 = done@;
        done.push(cur);
        assert(done@.map_values(|v: Vec<char>| v@) =~= d0.map_values(|v: Vec<char>| v@).push(cur@));
    }
    done
}

/// The URLs of the folders that sync creates, outermost first (see [`sync_folder_url`]).
pub fn remote_folder_urls(settings: &SyncSettings) -> (r: Vec<String>)
    ensures
        r.len() == sync_folder_names(settings.remote_path@).len(),
        forall|i: int| 0 <= i < r.len() ==> (#[trigger] r@[i])@ == sync_folder_url(settings.base_url@, settings.remote_path@, i),
{
    let slash_kind = TrimKind::Exactly('/');
    let base = normalize_base_url(settings.base_url.as_str());
    let remote = normalize_remote_path(settings.remote_path.as_str());
    let inner = trim_vec_by(&chars_of(remote.as_str()), &slash_kind);
    let mut parts = path_segments_exec(&inner);
    parts.push(lit("changes"));
    let ghost names = sync_folder_names(settings.remote_path@);
    assert(parts@.map_values(|v: Vec<char>| v@) =~= names);
    let b = trim_end_vec_by(&chars_of(base.as_str()), &slash_kind);
    let mut urls: Vec<String> = Vec::new();
    let mut current: Vec<char> = Vec::new();
    let mut i: usize = 0;
    while i < parts.len()
        invariant
            i <= parts.len(),
            names == sync_folder_names(settings.remote_path@),
            parts@.map_values(|v: Vec<char>| v@) == names,
            b@ == trim_end_by(sync_base_url(settings.base_url@), slash()),
            current@ == crate::text::join_seqs(names.take(i as int), "/"@),
            urls.len() == i,
            forall|k: int| 0 <= k < i ==> (#[trigger] urls@[k])@ == sync_folder_url(settings.base_url@, settings.remote_path@, k),
        decreases parts.len() - i,
    {
        assert(names.take(i + 1).drop_last() =~= names.take(i as int));
        assert(names.take(i + 1).last() == parts@[i as int]@);
        if i > 0 {
            current.push('/');
        }
        let mut piece = parts[i].clone();
        current.append(&mut piece);
        proof {
            reveal_strlit("/");
        }
        assert(current@ =~= crate::text::join_seqs(names.take(i + 1), "/"@));
        let mut url = b.clone();
        url.push('/');
        let mut tail = current.clone();
        url.append(&mut tail);
        let u = string_of(&url);
        assert(u@ =~= sync_folder_url(settings.base_url@, settings.remote_path@, i as int));
        urls.push(u);
        i = i + 1;
    }
    urls
}

/// WebDAV answers to a folder request that leave the folder in place: created (201), not
/// allowed because it exists (405), or OK (200).
pub fn remote_folder_ready(status: u16) -> (r: bool)
    ensures
        r == (status == 201 || status == 405 || status == 200),
{
    status == 201 || status == 405 || status == 200
}

/// The tables a snapshot carries, in the order they are exported and merged (parents before
/// the rows that refer to them).
pub fn sync_table_order() -> (r: [&'static str; 18])
    ensures
        r@.map_values(|t: &str| t@) == seq![
            "course_packs"@, "lessons"@, "sentence_items"@, "review_logs"@, "daily_stats"@,
            "vocabulary_books"@, "vocabulary_items"@, "vocabulary_book_items"@, "vocabulary_reviews"@,
            "vocabulary_memory_states"@, "learning_plan_settings"@, "daily_learning_plans"@, "llm_profiles"@,
            "scene_generation_batches"@, "scene_generation_plans"@, "generated_scenes"@, "scene_lines"@,
            "scene_vocabulary_links"@,
        ],
{
    let r = [
        "course_packs",
        "lessons",
        "sentence_items",
        "review_logs",
        "daily_stats",
        "vocabulary_books",
        "vocabulary_items",
        "vocabulary_book_items",
        "vocabulary_reviews",
        "vocabulary_memory_states",
        "learning_plan_settings",
        "daily_learning_plans",
        "llm_profiles",
        "scene_generation_batches",
        "scene_generation_plans",
        "generated_scenes",
        "scene_lines",
        "scene_vocabulary_links",
    ];
    assert(r@.map_values(|t: &str| t@) =~= seq![
        "course_packs"@, "lessons"@, "sentence_items"@, "review_logs"@, "daily_stats"@,
        "vocabulary_books"@, "vocabulary_items"@, "vocabulary_book_items"@, "vocabulary_reviews"@,
        "vocabulary_memory_states"@, "learning_plan_settings"@, "daily_learning_plans"@, "llm_profiles"@,
        "scene_generation_batches"@, "scene_generation_plans"@, "generated_scenes"@, "scene_lines"@,
        "scene_vocabulary_links"@,
    ]);
    r
}

/// Why sync cannot start, if it cannot: no username, no password (both checked after
/// trimming), or a server URL that is not `http://` or `https://`.
pub open spec fn sync_settings_problem(username: Seq<char>, password: Seq<char>, base_url: Seq<char>) -> Option<Seq<char>> {
    if trim(username).len() == 0 {
        Some("WebDAV username is empty"@)
    } else if trim(password).len() == 0 {
        Some("WebDAV app password is empty"@)
    } else if !"http://"@.is_prefix_of(base_url) && !"https://"@.is_prefix_of(base_url) {
        Some("WebDAV server URL must start with http:// or https://"@)
    } else {
        None
    }
}

/// Checks that the settings and password are enough to reach the server (see
/// [`sync_settings_problem`]).
pub fn require_ready_settings(settings: &SyncSettings, password: &str) -> (r: Result<(), String>)
    ensures
        match r {
            Ok(_) => sync_settings_problem(settings.username@, password@, settings.base_url@) is None,
            Err(e) => sync_settings_problem(settings.username@, password@, settings.base_url@) == Some(e@),
        },
{
    if trim_str(settings.username.as_str()).unicode_len() == 0 {
        return Err(String::from_str("WebDAV username is empty"));
    }
    if trim_str(password).unicode_len() == 0 {
        return Err(String::from_str("WebDAV app password is empty"));
    }
    let b = chars_of(settings.base_url.as_str());
    if !vec_starts_with(&b, &lit("http://")) && !vec_starts_with(&b, &lit("https://")) {
        return Err(String::from_str("WebDAV server URL must start with http:// or https://"));
    }
    Ok(())
}

} // verus!

verus! {

/// `a` sorts before `b` (character by character, a proper prefix first): how `str`
/// compares, since UTF-8 keeps the order of code points.
pub open spec fn text_lt(a: Seq<char>, b: Seq<char>) -> bool
    decreases a.len(),
{
    if a.len() == 0 {
        b.len() > 0
    } else if b.len() == 0 {
        false
    } else if a[0] != b[0] {
        (a[0] as u32) < (b[0] as u32)
    } else {
        text_lt(a.drop_first(), b.drop_first())
    }
}

pub proof fn lemma_text_lt_irreflexive(a: Seq<char>)
    ensures
        !text_lt(a, a),
    decreases a.len(),
{
    if a.len() > 0 {
        lemma_text_lt_irreflexive(a.drop_first());
    }
}

pub proof fn lemma_text_lt_asymmetric(a: Seq<char>, b: Seq<char>)
    ensures
        !(text_lt(a, b) && text_lt(b, a)),
    decreases a.len(),
{
    if a.len() > 0 && b.len() > 0 && a[0] == b[0] {
        lemma_text_lt_asymmetric(a.drop_first(), b.drop_first());
    }
}

/// Compares two texts (see [`text_lt`]).
pub fn text_less(a: &str, b: &str) -> (r: bool)
    ensures
        r == text_lt(a@, b@),
{
    let va = chars_of(a);
    let vb = chars_of(b);
    let mut i: usize = 0;
    assert(a@.skip(0) =~= a@);
    assert(b@.skip(0) =~= b@);
    while i < va.len() && i < vb.len() && va[i] == vb[i]
        invariant
            i <= va.len(),
            i <= vb.len(),
            va@ == a@,
            vb@ == b@,
            text_lt(a@, b@) == text_lt(a@.skip(i as int), b@.skip(i as int)),
        decreases va.len() - i,
    {
        assert(a@.skip(i as int).drop_first() =~= a@.skip(i + 1));
        assert(b@.skip(i as int).drop_first() =~= b@.skip(i + 1));
        i = i + 1;
    }
    if i == va.len() {
        i < vb.len()
    } else if i == vb.len() {
        false
    } else {
        assert(a@.skip(i as int)[0] == va@[i as int]);
        assert(b@.skip(i as int)[0] == vb@[i as int]);
        let x: u32 = va[i] as u32;
        let y: u32 = vb[i] as u32;
        x < y
    }
}

/// Whether a row of a remote snapshot is written over the local database. A row that carries
/// an `updated_at` text is written unless the local row is newer: when there is no local row,
/// or the local `updated_at` does not sort after the remote one. A row without one is written
/// only when there is no local row yet.
pub open spec fn remote_row_wins(remote_updated_at: Option<Seq<char>>, local_updated_at: Option<Seq<char>>, local_row_exists: bool) -> bool {
    match remote_updated_at {
        Some(r) => match local_updated_at {
            None => true,
            Some(l) => !text_lt(r, l),
        },
        None => !local_row_exists,
    }
}

/// Decides whether a remote row is written over the local database (see
/// [`remote_row_wins`]). `local_updated_at` is the local row's `updated_at` (absent when there
/// is no local row); `local_row_exists` tells whether a local row exists.
pub fn should_upsert_remote_row(
    remote_updated_at: &Option<String>,
    local_updated_at: &Option<String>,
    local_row_exists: bool,
) -> (r: bool)
    ensures
        r == remote_row_wins(
            match remote_updated_at { Some(s) => Some(s@), None => None },
            match local_updated_at { Some(s) => Some(s@), None => None },
            local_row_exists,
        ),
{
    match remote_updated_at {
        Some(remote) => match local_updated_at {
            None => true,
            Some(local) => !text_less(remote.as_str(), local.as_str()),
        },
        None => !local_row_exists,
    }
}

/// A merge never replaces a local row by an older remote one: whichever row is kept after the
/// decision, its `updated_at` sorts no earlier than either side's.
pub proof fn law_merge_keeps_newer_row(remote: Seq<char>, local: Seq<char>)
    ensures
        ({
            let kept = if remote_row_wins(Some(remote), Some(local), true) { remote } else { local };
            !text_lt(kept, remote) && !text_lt(kept, local)
        }),
        text_lt(remote, local) ==> !remote_row_wins(Some(remote), Some(local), true),
{
    lemma_text_lt_irreflexive(remote);
    lemma_text_lt_irreflexive(local);
    lemma_text_lt_asymmetric(remote, local);
}

/// The `updated_at` text of a remote row, when it has one.
pub fn remote_updated_at(row: &JsonValue) -> (r: Option<String>)
    ensures
        match r {
            Some(s) => json_get(*row, "updated_at"@) matches Some(JsonValue::Str(x)) && x@ == s@,
            None => !(json_get(*row, "updated_at"@) matches Some(JsonValue::Str(_))),
        },
{
    match get_member(row, "updated_at") {
        Some(JsonValue::Str(s)) => Some(s.clone()),
        _ => None,
    }
}

/// The key text of a primary-key value: a string itself, or a number's JSON text.
pub open spec fn json_key_of(v: JsonValue) -> Option<Seq<char>> {
    match v {
        JsonValue::Str(s) => Some(s@),
        JsonValue::Number(n) => Some(n@),
        _ => None,
    }
}

/// Reads a primary-key value (see [`json_key_of`]).
pub fn json_key(value: &JsonValue) -> (r: Option<String>)
    ensures
        match r {
            Some(s) => json_key_of(*value) == Some(s@),
            None => json_key_of(*value) is None,
        },
{
    match value {
        JsonValue::Str(s) => Some(s.clone()),
        JsonValue::Number(n) => Some(n.clone()),
        _ => None,
    }
}

} // verus!

verus! {

/// The object has a member named `key`.
pub open spec fn has_member(row: Seq<(String, JsonValue)>, key: Seq<char>) -> bool {
    crate::json::member_index(row, key) is Some
}

/// The table's columns that the remote row carries, in the table's order.
pub open spec fn row_columns_of(columns: Seq<Seq<char>>, row: Seq<(String, JsonValue)>) -> Seq<Seq<char>>
    decreases columns.len(),
{
    if columns.len() == 0 {
        seq![]
    } else {
        let rest = row_columns_of(columns.drop_last(), row);
        if has_member(row, columns.last()) { rest.push(columns.last()) } else { rest }
    }
}

/// Picks the table's columns that the remote row carries (see [`row_columns_of`]).
pub fn remote_row_columns(columns: &Vec<String>, row: &JsonValue) -> (r: Vec<String>)
    requires
        row is Object,
    ensures
        string_views(r@) == row_columns_of(string_views(columns@), row->Object_0@),
{
    let ghost cs = string_views(columns@);
    let mut out: Vec<String> = Vec::new();
    let mut i: usize = 0;
    while i < columns.len()
        invariant
            i <= columns.len(),
            row is Object,
            cs == string_views(columns@),
            string_views(out@) == row_columns_of(cs.take(i as int), row->Object_0@),
        decreases columns.len() - i,
    {
        assert(cs.take(i + 1).drop_last() =~= cs.take(i as int));
        assert(cs.take(i + 1).last() == columns@[i as int]@);
        let present = get_member(row, columns[i].as_str()).is_some();
        if present {
            let ghost b = out@;
            out.push(columns[i].clone());
            assert(string_views(out@) =~= string_views(b).push(columns@[i as int]@));
        }
        i = i + 1;
    }
    assert(cs.take(cs.len() as int) =~= cs);
    out
}

/// `?1, ?2, …, ?n`.
pub open spec fn placeholders(n: nat) -> Seq<char> {
    join_seqs(Seq::new(n, |i: int| "?"@ + decimal((i + 1) as nat)), ", "@)
}

/// `c = excluded.c` for each column but the primary key, joined by `, `.
pub open spec fn update_assignments(columns: Seq<Seq<char>>, primary_key: Seq<char>) -> Seq<Seq<char>>
    decreases columns.len(),
{
    if columns.len() == 0 {
        seq![]
    } else {
        let rest = update_assignments(columns.drop_last(), primary_key);
        if columns.last() != primary_key {
            rest.push(columns.last() + " = excluded."@ + columns.last())
        } else {
            rest
        }
    }
}

/// The statement that writes a remote row: an insert of its columns that, on a primary-key
/// conflict, updates the other columns (or does nothing when there are none).
pub open spec fn upsert_sql(table: Seq<char>, columns: Seq<Seq<char>>, primary_key: Seq<char>) -> Seq<char> {
    let assignments = update_assignments(columns, primary_key);
    "INSERT INTO "@ + table + " ("@ + join_seqs(columns, ", "@) + ") VALUES ("@ + placeholders(columns.len())
        + ") ON CONFLICT("@ + primary_key + ") "@
        + (if assignments.len() == 0 { "DO NOTHING"@ } else { "DO UPDATE SET "@ + join_seqs(assignments, ", "@) })
}

/// Builds the statement that writes a remote row (see [`upsert_sql`]).
pub fn upsert_statement(table: &str, columns: &Vec<String>, primary_key: &str) -> (r: String)
    ensures
        r@ == upsert_sql(table@, string_views(columns@), primary_key@),
{
    let ghost cs = string_views(columns@);
    let mut marks: Vec<String> = Vec::new();
    let mut assigns: Vec<String> = Vec::new();
    let mut i: usize = 0;
    while i < columns.len()
        invariant
            i <= columns.len(),
            cs == string_views(columns@),
            string_views(marks@) == Seq::new(i as nat, |k: int| "?"@ + decimal((k + 1) as nat)),
            string_views(assigns@) == update_assignments(cs.take(i as int), primary_key@),
        decreases columns.len() - i,
    {
        let mut m = String::from_str("?");
        push_decimal(&mut m, (i as u128) + 1);
        assert(m@ == "?"@ + decimal((i + 1) as nat));
        let ghost b = marks@;
        marks.push(m);
        assert(string_views(marks@) =~= string_views(b).push(m@));
        assert(string_views(marks@) =~= Seq::new((i + 1) as nat, |k: int| "?"@ + decimal((k + 1) as nat)));
        assert(cs.take(i + 1).drop_last() =~= cs.take(i as int));
        assert(cs.take(i + 1).last() == columns@[i as int]@);
        if !str_eq(columns[i].as_str(), primary_key) {
            let mut a = columns[i].clone();
            a.append(" = excluded.");
            a.append(columns[i].as_str());
            let ghost b2 = assigns@;
            assigns.push(a);
            assert(string_views(assigns@) =~= string_views(b2).push(a@));
        }
        i = i + 1;
    }
    assert(cs.take(cs.len() as int) =~= cs);
    let mut r = String::from_str("INSERT INTO ");
    r.append(table);
    r.append(" (");
    push_joined(&mut r, columns, ", ");
    r.append(") VALUES (");
    push_joined(&mut r, &marks, ", ");
    r.append(") ON CONFLICT(");
    r.append(primary_key);
    r.append(") ");
    if assigns.len() == 0 {
        r.append("DO NOTHING");
    } else {
        r.append("DO UPDATE SET ");
        push_joined(&mut r, &assigns, ", ");
    }
    assert(r@ =~= upsert_sql(table@, cs, primary_key@));
    r
}

/// The primary key of a table from its `(column, pk)` table info: the first column whose pk
/// position is positive.
pub open spec fn primary_key_index(info: Seq<(String, i64)>) -> Option<int>
    decreases info.len(),
{
    if info.len() == 0 {
        None
    } else if info[0].1 > 0 {
        Some(0)
    } else {
        match primary_key_index(info.drop_first()) {
            Some(i) => Some(i + 1),
            None => None,
        }
    }
}

/// Picks the primary key of a table (see [`primary_key_index`]); `Err("table {t} has no
/// primary key")` when it has none.
pub fn primary_key_column(table: &str, info: &Vec<(String, i64)>) -> (r: Result<String, String>)
    ensures
        match r {
            Ok(k) => primary_key_index(info@) matches Some(i) && 0 <= i < info.len() && info@[i].0@ == k@,
            Err(e) => primary_key_index(info@) is None && e@ == "table "@ + table@ + " has no primary key"@,
        },
{
    let mut i: usize = 0;
    assert(info@.skip(0) =~= info@);
    while i < info.len()
        invariant
            i <= info.len(),
            primary_key_index(info@) == (match primary_key_index(info@.skip(i as int)) {
                Some(k) => Some(k + i),
                None => None::<int>,
            }),
        decreases info.len() - i,
    {
        let ghost rest = info@.skip(i as int);
        assert(rest[0] == info@[i as int]);
        if info[i].1 > 0 {
            return Ok(info[i].0.clone());
        }
        assert(rest.drop_first() =~= info@.skip(i + 1));
        i = i + 1;
    }
    assert(info@.skip(i as int) =~= Seq::<(String, i64)>::empty());
    let mut e = String::from_str("table ");
    e.append(table);
    e.append(" has no primary key");
    Err(e)
}

/// The `tables` object of a remote snapshot; `Err("remote snapshot has no tables object")`
/// when it has none.
pub fn snapshot_tables(snapshot: &JsonValue) -> (r: Result<&JsonValue, String>)
    ensures
        match r {
            Ok(t) => json_get(*snapshot, "tables"@) == Some(*t) && t is Object,
            Err(e) => !(json_get(*snapshot, "tables"@) matches Some(JsonValue::Object(_)))
                && e@ == "remote snapshot has no tables object"@,
        },
{
    match get_member(snapshot, "tables") {
        Some(t) => match t {
            JsonValue::Object(_) => Ok(t),
            _ => Err(String::from_str("remote snapshot has no tables object")),
        },
        None => Err(String::from_str("remote snapshot has no tables object")),
    }
}

/// The rows of a remote table that are merged: the objects in the table's array (other
/// values skipped); none when the snapshot has no array for it.
pub open spec fn mergeable_rows(tables: JsonValue, table: Seq<char>) -> Seq<JsonValue> {
    match json_get(tables, table) {
        Some(JsonValue::Array(rows)) => rows@.filter(|v: JsonValue| v is Object),
        _ => seq![],
    }
}

/// The positions, in the table's array, of the rows of a remote table that are merged (see
/// [`mergeable_rows`]).
pub fn table_row_objects(tables: &JsonValue, table: &str) -> (r: Vec<usize>)
    ensures
        match json_get(*tables, table@) {
            Some(JsonValue::Array(rows)) => r@.map_values(|i: usize| rows@[i as int]) == rows@.filter(|v: JsonValue| v is Object)
                && forall|k: int| 0 <= k < r.len() ==> (#[trigger] r@[k]) < rows.len(),
            _ => r.len() == 0,
        },
{
    let mut out: Vec<usize> = Vec::new();
    match get_member(tables, table) {
        Some(JsonValue::Array(rows)) => {
            let mut i: usize = 0;
            while i < rows.len()
                invariant
                    i <= rows.len(),
                    out@.map_values(|j: usize| rows@[j as int]) == rows@.take(i as int).filter(|v: JsonValue| v is Object),
                    forall|k: int| 0 <= k < out.len() ==> (#[trigger] out@[k]) < i,
                decreases rows.len() - i,
            {
                let ghost b = out@;
                assert(rows@.take(i + 1).drop_last() =~= rows@.take(i as int));
                reveal(Seq::filter);
                if let JsonValue::Object(_) = &rows[i] {
                    out.push(i);
                    assert(out@.map_values(|j: usize| rows@[j as int]) =~= b.map_values(|j: usize| rows@[j as int]).push(rows@[i as int]));
                }
                i = i + 1;
            }
            assert(rows@.take(rows@.len() as int) =~= rows@);
        },
        _ => {},
    }
    out
}

} // verus!

verus! {

/// The fields that saving sync settings writes: the provider (`jianguoyun_webdav` when blank,
/// else trimmed), the normalised server URL, the trimmed username, and the normalised sync
/// folder.
pub struct SyncFields {
    pub provider: String,
    pub base_url: String,
    pub username: String,
    pub remote_path: String,
}

/// Resolves the fields of a request to save sync settings (see [`SyncFields`]).
pub fn resolve_sync_fields(request: &SaveSyncSettingsRequest) -> (r: SyncFields)
    ensures
        r.provider@ == (if trim(request.provider@).len() == 0 { "jianguoyun_webdav"@ } else { trim(request.provider@) }),
        r.base_url@ == sync_base_url(request.base_url@),
        r.username@ == trim(request.username@),
        r.remote_path@ == remote_path_of(request.remote_path@),
{
    let p = trim_str(request.provider.as_str());
    let provider = if p.unicode_len() == 0 { String::from_str("jianguoyun_webdav") } else { p };
    SyncFields {
        provider,
        base_url: normalize_base_url(request.base_url.as_str()),
        username: trim_str(request.username.as_str()),
        remote_path: normalize_remote_path(request.remote_path.as_str()),
    }
}

/// The sync settings created on first use: the Jianguoyun server and the default folder, no
/// username, automatic sync off, never synced, status `idle`.
pub fn default_sync_settings(device_id: String, updated_at: String) -> (r: SyncSettings)
    ensures
        r.provider@ == "jianguoyun_webdav"@,
        r.base_url@ == "https://dav.jianguoyun.com/dav/"@,
        r.username@ == Seq::<char>::empty(),
        r.remote_path@ == default_remote_path(),
        r.device_id == device_id,
        !r.auto_sync_enabled,
        r.last_sync_at is None,
        r.sync_status@ == "idle"@,
        r.last_error@ == Seq::<char>::empty(),
        r.updated_at == updated_at,
{
    SyncSettings {
        provider: String::from_str("jianguoyun_webdav"),
        base_url: String::from_str("https://dav.jianguoyun.com/dav/"),
        username: String::new(),
        remote_path: String::from_str("/MomoLite/sync/"),
        device_id,
        auto_sync_enabled: false,
        last_sync_at: None,
        sync_status: String::from_str("idle"),
        last_error: String::new(),
        updated_at,
    }
}

/// The stored flag for automatic sync is on exactly when it is 1.
pub fn auto_sync_flag(stored: i64) -> (r: bool)
    ensures
        r == (stored == 1),
{
    stored == 1
}

/// The character of a six-bit value in the standard base64 alphabet (RFC 4648): `A`-`Z`,
/// `a`-`z`, `0`-`9`, `+`, `/`.
pub open spec fn base64_char(v: int) -> char {
    if v < 26 {
        (65 + v) as char
    } else if v < 52 {
        (71 + v) as char
    } else if v < 62 {
        (v - 4) as char
    } else if v == 62 {
        '+'
    } else {
        '/'
    }
}

/// Standard base64 with padding (RFC 4648): each group of three bytes becomes four
/// characters of six bits each; a last group of one or two bytes is padded with `=`.
pub open spec fn base64_standard(b: Seq<u8>) -> Seq<char>
    decreases b.len(),
{
    if b.len() == 0 {
        seq![]
    } else if b.len() == 1 {
        let x = b[0] as int;
        seq![base64_char(x / 4), base64_char((x % 4) * 16), '=', '=']
    } else if b.len() == 2 {
        let x = b[0] as int;
        let y = b[1] as int;
        seq![base64_char(x / 4), base64_char((x % 4) * 16 + y / 16), base64_char((y % 16) * 4), '=']
    } else {
        let x = b[0] as int;
        let y = b[1] as int;
        let z = b[2] as int;
        seq![base64_char(x / 4), base64_char((x % 4) * 16 + y / 16), base64_char((y % 16) * 4 + z / 64), base64_char(z % 64)]
            + base64_standard(b.subrange(3, b.len() as int))
    }
}

/// The length of the padded base64 text of `n` bytes.
pub open spec fn base64_padded_len(n: int) -> int {
    (n / 3) * 4 + (if n % 3 > 0 { 4int } else { 0int })
}

/// Calls `Engine::encode` on `base64::engine::general_purpose::STANDARD` (the standard
/// alphabet with padding). Claimed: the result is [`base64_standard`] of the bytes and has the padded length the crate's `encoded_len`
/// computes; `requires` leaves out inputs for which that length overflows, where the crate
/// panics.
#[verifier::external_body]
fn base64_encode(bytes: &[u8]) -> (r: String)
    requires
        base64_padded_len(bytes@.len() as int) <= usize::MAX,
    ensures
        r@ == base64_standard(bytes@),
        r@.len() == base64_padded_len(bytes@.len() as int),
{
    base64::engine::general_purpose::STANDARD.encode(bytes)
}

/// Calls `getrandom::getrandom` on a 32-byte buffer, turning its error into its message.
/// Nothing is claimed of the bytes: they come from the operating system's random source.
#[verifier::external_body]
fn os_random_bytes(buf: &mut [u8; 32]) -> (r: Result<(), String>) {
    getrandom::getrandom(buf).map_err(|e| e.to_string())
}

/// A fresh secret: 32 random bytes in standard base64; `Err` with the source's message
/// after "failed to create local vault key: " when the system has no randomness to give.
pub fn random_secret() -> (r: Result<String, String>)
    ensures
        match r {
            Ok(s) => s@.len() == 44 && exists|b: Seq<u8>| b.len() == 32 && s@ == base64_standard(b),
            Err(e) => "failed to create local vault key: "@.is_prefix_of(e@),
        },
{
    let mut bytes = [0u8; 32];
    match os_random_bytes(&mut bytes) {
        Ok(()) => {
            let s = base64_encode(&bytes);
            assert(bytes@.len() == 32);
            Ok(s)
        },
        Err(e) => {
            let mut m = String::from_str("failed to create local vault key: ");
            m.append(e.as_str());
            assert(m@.subrange(0, "failed to create local vault key: "@.len() as int) =~= "failed to create local vault key: "@);
            Err(m)
        },
    }
}

/// A blob column in a snapshot: `{"base64": <the bytes in standard base64>}`.
pub fn blob_json(bytes: &[u8]) -> (r: JsonValue)
    requires
        base64_padded_len(bytes@.len() as int) <= usize::MAX,
    ensures
        r matches JsonValue::Object(m) && m@.len() == 1 && m@[0].0@ == "base64"@
            && (m@[0].1 matches JsonValue::Str(s) && s@ == base64_standard(bytes@)),
{
    let mut m: Vec<(String, JsonValue)> = Vec::new();
    m.push((String::from_str("base64"), JsonValue::Str(base64_encode(bytes))));
    JsonValue::Object(m)
}

} // verus!

verus! {

fn str_member(key: &str, value: &str) -> (r: (String, JsonValue))
    ensures
        r.0@ == key@,
        r.1 matches JsonValue::Str(s) && s@ == value@,
{
    (String::from_str(key), JsonValue::Str(String::from_str(value)))
}

fn number_member(key: &str, n: u128) -> (r: (String, JsonValue))
    ensures
        r.0@ == key@,
        r.1 matches JsonValue::Number(s) && s@ == decimal(n as nat),
{
    let mut s = String::new();
    push_decimal(&mut s, n);
    (String::from_str(key), JsonValue::Number(s))
}

/// The change-log record of an upload: `{"id", "type": "snapshot_uploaded", "deviceId",
/// "syncedAt", "snapshotBytes"}`.
pub fn sync_change_record(id: &str, device_id: &str, synced_at: &str, snapshot_bytes: usize) -> (r: JsonValue)
    ensures
        r matches JsonValue::Object(m) && m@.len() == 5
            && m@[0].0@ == "id"@ && (m@[0].1 matches JsonValue::Str(s) && s@ == id@)
            && m@[1].0@ == "type"@ && (m@[1].1 matches JsonValue::Str(s) && s@ == "snapshot_uploaded"@)
            && m@[2].0@ == "deviceId"@ && (m@[2].1 matches JsonValue::Str(s) && s@ == device_id@)
            && m@[3].0@ == "syncedAt"@ && (m@[3].1 matches JsonValue::Str(s) && s@ == synced_at@)
            && m@[4].0@ == "snapshotBytes"@ && (m@[4].1 matches JsonValue::Number(s) && s@ == decimal(snapshot_bytes as nat)),
{
    let mut m: Vec<(String, JsonValue)> = Vec::new();
    m.push(str_member("id", id));
    m.push(str_member("type", "snapshot_uploaded"));
    m.push(str_member("deviceId", device_id));
    m.push(str_member("syncedAt", synced_at));
    m.push(number_member("snapshotBytes", snapshot_bytes as u128));
    JsonValue::Object(m)
}

/// The snapshot a device uploads: `{"schemaVersion": 1, "deviceId", "exportedAt", "tables"}`.
pub fn snapshot_document(device_id: &str, exported_at: &str, tables: Vec<(String, JsonValue)>) -> (r: JsonValue)
    ensures
        r matches JsonValue::Object(m) && m@.len() == 4
            && m@[0].0@ == "schemaVersion"@ && (m@[0].1 matches JsonValue::Number(s) && s@ == "1"@)
            && m@[1].0@ == "deviceId"@ && (m@[1].1 matches JsonValue::Str(s) && s@ == device_id@)
            && m@[2].0@ == "exportedAt"@ && (m@[2].1 matches JsonValue::Str(s) && s@ == exported_at@)
            && m@[3].0@ == "tables"@ && m@[3].1 == JsonValue::Object(tables),
{
    let mut m: Vec<(String, JsonValue)> = Vec::new();
    m.push((String::from_str("schemaVersion"), JsonValue::Number(String::from_str("1"))));
    m.push(str_member("deviceId", device_id));
    m.push(str_member("exportedAt", exported_at));
    m.push((String::from_str("tables"), JsonValue::Object(tables)));
    JsonValue::Object(m)
}

/// The name of a device's own snapshot file: `snapshots-{device}.json`.
pub fn device_snapshot_name(device_id: &str) -> (r: String)
    ensures
        r@ == "snapshots-"@ + device_id@ + ".json"@,
{
    let mut r = String::from_str("snapshots-");
    r.append(device_id);
    r.append(".json");
    r
}

/// The name of a device's change log: `changes/{device}.jsonl`.
pub fn change_log_name(device_id: &str) -> (r: String)
    ensures
        r@ == "changes/"@ + device_id@ + ".jsonl"@,
{
    let mut r = String::from_str("changes/");
    r.append(device_id);
    r.append(".jsonl");
    r
}

/// An HTTP status of success (2xx); WebDAV's Created and Multi-Status are among them.
pub fn http_success(status: u16) -> (r: bool)
    ensures
        r == (200 <= status < 300),
{
    200 <= status && status < 300
}

/// The answer to a successful connection test.
pub fn connection_test_result(settings: &SyncSettings, synced_at: String) -> (r: SyncActionResult)
    ensures
        r.ok,
        r.message@ == "WebDAV connection ok"@,
        r.remote_snapshot_url@ == remote_url_of(settings.base_url@, settings.remote_path@, "snapshot.json"@),
        r.uploaded_bytes == 0,
        r.merged_rows == 0,
        r.synced_at == synced_at,
{
    SyncActionResult {
        ok: true,
        message: String::from_str("WebDAV connection ok"),
        remote_snapshot_url: remote_url(settings, "snapshot.json"),
        uploaded_bytes: 0,
        merged_rows: 0,
        synced_at,
    }
}

/// The answer to a finished sync.
pub fn sync_result(snapshot_url: String, uploaded_bytes: usize, merged_rows: usize, synced_at: String) -> (r: SyncActionResult)
    ensures
        r.ok,
        r.message@ == "Remote snapshot merged and local snapshot uploaded to WebDAV"@,
        r.remote_snapshot_url == snapshot_url,
        r.uploaded_bytes == uploaded_bytes,
        r.merged_rows == merged_rows,
        r.synced_at == synced_at,
{
    SyncActionResult {
        ok: true,
        message: String::from_str("Remote snapshot merged and local snapshot uploaded to WebDAV"),
        remote_snapshot_url: snapshot_url,
        uploaded_bytes,
        merged_rows,
        synced_at,
    }
}

} // verus!

verus! {

/// The primary-key text of a remote row; `Err("remote {table} row is missing primary key
/// {key}")` when the row has no string or number under its primary key.
pub fn row_primary_value(table: &str, primary_key: &str, row: &JsonValue) -> (r: Result<String, String>)
    ensures
        match r {
            Ok(k) => json_get(*row, primary_key@) matches Some(v) && json_key_of(v) == Some(k@),
            Err(e) => !(json_get(*row, primary_key@) matches Some(v) && json_key_of(v) is Some)
                && e@ == "remote "@ + table@ + " row is missing primary key "@ + primary_key@,
        },
{
    match get_member(row, primary_key) {
        Some(v) => match json_key(v) {
            Some(k) => {
                return Ok(k);
            },
            None => {},
        },
        None => {},
    }
    let mut e = String::from_str("remote ");
    e.append(table);
    e.append(" row is missing primary key ");
    e.append(primary_key);
    Err(e)
}

} // verus!
