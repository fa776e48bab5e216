//! Where the target words occur in the lines of a generated scene: the links between scene
//! lines and vocabulary items, with byte offsets into the lowercased line.

use vstd::prelude::*;
use crate::llm::{normalize_text, normalized_text, ScenePayloadLine, VocabularyTarget};
use crate::text::{chars_of, find_vec, first_occurrence, lemma_first_occurrence, lowercase_of, occurs_at, string_of_range, to_lowercase, vec_eq};

verus! {

/// The number of bytes UTF-8 takes for a character.
pub open spec fn char_width(c: char) -> nat {
    if (c as u32) < 0x80 { 1 } else if (c as u32) < 0x800 { 2 } else if (c as u32) < 0x10000 { 3 } else { 4 }
}

/// The number of bytes UTF-8 takes for a string.
pub open spec fn utf8_len(s: Seq<char>) -> nat
    decreases s.len(),
{
    if s.len() == 0 { 0 } else { utf8_len(s.drop_last()) + char_width(s.last()) }
}

/// The character index at byte offset `b` of a string, when `b` falls on a character
/// boundary (the end of the string included).
pub open spec fn char_at_byte(s: Seq<char>, b: int) -> Option<int> {
    if exists|a: int| 0 <= a <= s.len() && utf8_len(s.take(a)) == b {
        Some(choose|a: int| 0 <= a <= s.len() && utf8_len(s.take(a)) == b)
    } else {
        None
    }
}

pub proof fn lemma_utf8_prefix_step(s: Seq<char>, a: int)
    requires
        0 <= a < s.len(),
    ensures
        utf8_len(s.take(a + 1)) == utf8_len(s.take(a)) + char_width(s[a]),
{
    assert(s.take(a + 1).drop_last() =~= s.take(a));
}

pub proof fn lemma_utf8_prefix_increasing(s: Seq<char>, a1: int, a2: int)
    requires
        0 <= a1 < a2 <= s.len(),
    ensures
        utf8_len(s.take(a1)) < utf8_len(s.take(a2)),
    decreases a2 - a1,
{
    lemma_utf8_prefix_step(s, a2 - 1);
    if a1 < a2 - 1 {
        lemma_utf8_prefix_increasing(s, a1, a2 - 1);
    }
}

fn char_width_exec(c: char) -> (r: u128)
    ensures
        r == char_width(c),
{
    let u = c as u32;
    if u < 0x80 { 1 } else if u < 0x800 { 2 } else if u < 0x10000 { 3 } else { 4 }
}

/// The byte offset of character index `a`.
fn byte_offset(v: &Vec<char>, a: usize) -> (r: u128)
    requires
        a <= v.len(),
    ensures
        r == utf8_len(v@.take(a as int)),
{
    let mut acc: u128 = 0;
    let mut i: usize = 0;
    while i < a
        invariant
            i <= a <= v.len(),
            acc == utf8_len(v@.take(i as int)),
            acc <= 4 * i,
        decreases a - i,
    {
        proof {
            lemma_utf8_prefix_step(v@, i as int);
        }
        acc = acc + char_width_exec(v[i]);
        i = i + 1;
    }
    acc
}

/// The number of bytes UTF-8 takes for a string.
pub fn utf8_length(v: &Vec<char>) -> (r: u128)
    ensures
        r == utf8_len(v@),
{
    let r = byte_offset(v, v.len());
    assert(v@.take(v@.len() as int) =~= v@);
    r
}

/// The character index at a byte offset (see [`char_at_byte`]).
fn char_index_at_byte(v: &Vec<char>, b: u128) -> (r: Option<usize>)
    ensures
        match r {
            Some(a) => char_at_byte(v@, b as int) == Some(a as int),
            None => char_at_byte(v@, b as int) is None,
        },
{
    let mut acc: u128 = 0;
    let mut i: usize = 0;
    while i < v.len() && acc < b
        invariant
            i <= v.len(),
            acc == utf8_len(v@.take(i as int)),
            acc <= 4 * i,
            forall|j: int| 0 <= j < i ==> utf8_len(v@.take(j)) < b,
        decreases v.len() - i,
    {
        proof {
            lemma_utf8_prefix_step(v@, i as int);
        }
        acc = acc + char_width_exec(v[i]);
        i = i + 1;
    }
    if acc == b {
        proof {
            let w = choose|a: int| 0 <= a <= v@.len() && utf8_len(v@.take(a)) == b;
            if w < i {
                lemma_utf8_prefix_increasing(v@, w, i as int);
            } else if w > i {
                lemma_utf8_prefix_increasing(v@, i as int, w);
            }
        }
        Some(i)
    } else {
        proof {
            assert forall|a: int| 0 <= a <= v@.len() implies utf8_len(v@.take(a)) != b by {
                if a > i {
                    lemma_utf8_prefix_increasing(v@, i as int, a);
                }
            }
        }
        None
    }
}

/// One link: line index, target index, start and end byte offsets, and the matched text.
pub type LinkView = (int, int, int, int, Seq<char>);

/// `keys[i]` is the last of the equal keys: the target that a map keyed by the normalized
/// text keeps.
pub open spec fn last_of_key(keys: Seq<Seq<char>>, i: int) -> bool {
    forall|j: int| i < j < keys.len() ==> keys[j] != keys[i]
}

/// The link of key `k` (target `i`) in line `l`: none when the key does not occur in the
/// lowercased line; else its first occurrence there, as byte offsets into the lowercased line,
/// with the text of the line itself between those offsets. `None` when such offsets do not
/// fall on character boundaries of the line itself.
#[verifier::opaque]
pub open spec fn key_link_view(l: int, i: int, english: Seq<char>, lower: Seq<char>, k: Seq<char>) -> Option<Option<LinkView>> {
    match first_occurrence(lower, k) {
        None => Some(None),
        Some(c) => {
            let s = utf8_len(lower.take(c)) as int;
            let e = s + utf8_len(k);
            match (char_at_byte(english, s), char_at_byte(english, e)) {
                (Some(a), Some(b)) => Some(Some((l, i, s, e, english.subrange(a, b)))),
                _ => None,
            }
        },
    }
}

/// The links of line `l` among the first `n` targets: the link of each non-empty key that is
/// the last of its kind (see [`key_link_view`]); `None` when one of them is.
pub open spec fn line_links(l: int, english: Seq<char>, lower: Seq<char>, keys: Seq<Seq<char>>, n: int) -> Option<Seq<LinkView>>
    decreases n,
{
    if n <= 0 {
        Some(seq![])
    } else {
        match line_links(l, english, lower, keys, n - 1) {
            None => None,
            Some(prev) => {
                let k = keys[n - 1];
                if k.len() == 0 || !last_of_key(keys, n - 1) {
                    Some(prev)
                } else {
                    match key_link_view(l, n - 1, english, lower, k) {
                        None => None,
                        Some(None) => Some(prev),
                        Some(Some(v)) => Some(prev.push(v)),
                    }
                }
            },
        }
    }
}

/// The links of the first `n` lines, line by line.
pub open spec fn scene_links_upto(lines: Seq<ScenePayloadLine>, keys: Seq<Seq<char>>, n: int) -> Option<Seq<LinkView>>
    decreases n,
{
    if n <= 0 {
        Some(seq![])
    } else {
        match (scene_links_upto(lines, keys, n - 1),
            line_links(n - 1, lines[n - 1].english@, lowercase_of(lines[n - 1].english@), keys, keys.len() as int)) {
            (Some(a), Some(b)) => Some(a + b),
            _ => None,
        }
    }
}

/// The normalized texts of the targets.
pub open spec fn target_keys(targets: Seq<VocabularyTarget>) -> Seq<Seq<char>> {
    targets.map_values(|t: VocabularyTarget| normalized_text(t.text@))
}

/// A link between a scene line and a target word.
pub struct SceneLinkMatch {
    pub line_index: usize,
    pub target_index: usize,
    pub start_offset: u128,
    pub end_offset: u128,
    pub matched_text: String,
}

pub open spec fn link_view(m: SceneLinkMatch) -> LinkView {
    (m.line_index as int, m.target_index as int, m.start_offset as int, m.end_offset as int, m.matched_text@)
}

pub open spec fn link_views(ms: Seq<SceneLinkMatch>) -> Seq<LinkView> {
    ms.map_values(|m: SceneLinkMatch| link_view(m))
}

fn is_last_key(keys: &Vec<Vec<char>>, i: usize) -> (r: bool)
    requires
        i < keys.len(),
    ensures
        r == last_of_key(keys@.map_values(|k: Vec<char>| k@), i as int),
{
    let ghost ks = keys@.map_values(|k: Vec<char>| k@);
    let mut j: usize = i + 1;
    while j < keys.len()
        invariant
            i < j <= keys.len(),
            ks == keys@.map_values(|k: Vec<char>| k@),
            forall|m: int| i < m < j ==> ks[m] != ks[i as int],
        decreases keys.len() - j,
    {
        if vec_eq(&keys[j], &keys[i]) {
            assert(ks[j as int] == keys@[j as int]@ && ks[i as int] == keys@[i as int]@);
            return false;
        }
        j = j + 1;
    }
    true
}

/// The link of key `k` (target `i`) in line `l`, when the key occurs there: `Err` when its
/// byte offsets miss the line's character boundaries.
fn key_link(l: usize, i: usize, eng: &Vec<char>, lower: &Vec<char>, k: &Vec<char>) -> (r: Result<Option<SceneLinkMatch>, ()>)
    requires
        k.len() > 0,
    ensures
        match r {
            Ok(Some(m)) => key_link_view(l as int, i as int, eng@, lower@, k@) == Some(Some(link_view(m))),
            Ok(None) => key_link_view(l as int, i as int, eng@, lower@, k@) == Some(None::<LinkView>),
            Err(_) => key_link_view(l as int, i as int, eng@, lower@, k@) is None,
        },
{
    reveal(key_link_view);
    match find_vec(lower, k) {
        Some(c) => {
            proof {
                lemma_first_occurrence(lower@, k@);
                lemma_utf8_bound(lower@.take(c as int));
                lemma_utf8_bound(k@);
            }
            let s = byte_offset(lower, c);
            let w = byte_offset(k, k.len());
            assert(k@.take(k@.len() as int) =~= k@);
            let e = s + w;
            match (char_index_at_byte(eng, s), char_index_at_byte(eng, e)) {
                (Some(a), Some(b)) => {
                    proof {
                        assert(a <= b) by {
                            if a > b {
                                lemma_utf8_prefix_increasing(eng@, b as int, a as int);
                            }
                        };
                    }
                    let text = string_of_range(eng, a, b);
                    Ok(Some(SceneLinkMatch { line_index: l, target_index: i, start_offset: s, end_offset: e, matched_text: text }))
                },
                _ => Err(()),
            }
        },
        None => Ok(None),
    }
}

fn links_of_line(
    l: usize,
    english: &str,
    keys: &Vec<Vec<char>>,
    out: &mut Vec<SceneLinkMatch>,
) -> (ok: bool)
    ensures
        ok ==> (line_links(l as int, english@, lowercase_of(english@), keys@.map_values(|k: Vec<char>| k@), keys.len() as int)
            matches Some(b) && link_views(final(out)@) == link_views(old(out)@) + b),
        !ok ==> line_links(l as int, english@, lowercase_of(english@), keys@.map_values(|k: Vec<char>| k@), keys.len() as int) is None,
{
    let ghost ks = keys@.map_values(|k: Vec<char>| k@);
    let ghost start = link_views(out@);
    let lower_s = to_lowercase(english);
    let lower = chars_of(lower_s.as_str());
    let eng = chars_of(english);
    let mut i: usize = 0;
    let ghost mut acc: Seq<LinkView> = seq![];
    assert(link_views(out@) =~= start + acc);
    while i < keys.len()
        invariant
            i <= keys.len(),
            ks == keys@.map_values(|k: Vec<char>| k@),
            lower@ == lowercase_of(english@),
            eng@ == english@,
            line_links(l as int, english@, lower@, ks, i as int) == Some(acc),
            link_views(out@) == start + acc,
        decreases keys.len() - i,
    {
        assert(ks[i as int] == keys@[i as int]@);
        if keys[i].len() > 0 && is_last_key(keys, i) {
            match key_link(l, i, &eng, &lower, &keys[i]) {
                Ok(Some(m)) => {
                    let ghost before = out@;
                    out.push(m);
                    proof {
                        assert(link_views(out@) =~= link_views(before).push(link_view(m)));
                        acc = acc.push(link_view(m));
                    }
                },
                Ok(None) => {},
                Err(()) => {
                    proof {
                        lemma_line_links_none_stays(l as int, english@, lower@, ks, i + 1, keys.len() as int);
                    }
                    return false;
                },
            }
        }
        i = i + 1;
    }
    true
}

pub proof fn lemma_line_links_none_stays(l: int, english: Seq<char>, lower: Seq<char>, keys: Seq<Seq<char>>, n: int, m: int)
    requires
        0 <= n <= m,
        line_links(l, english, lower, keys, n) is None,
    ensures
        line_links(l, english, lower, keys, m) is None,
    decreases m - n,
{
    if n < m {
        lemma_line_links_none_stays(l, english, lower, keys, n, m - 1);
    }
}

pub proof fn lemma_links_none_stays(lines: Seq<ScenePayloadLine>, keys: Seq<Seq<char>>, n: int, m: int)
    requires
        0 <= n <= m,
        scene_links_upto(lines, keys, n) is None,
    ensures
        scene_links_upto(lines, keys, m) is None,
    decreases m - n,
{
    if n < m {
        lemma_links_none_stays(lines, keys, n, m - 1);
    }
}

pub proof fn lemma_utf8_bound(s: Seq<char>)
    ensures
        utf8_len(s) <= 4 * s.len(),
    decreases s.len(),
{
    if s.len() > 0 {
        lemma_utf8_bound(s.drop_last());
    }
}

/// Finds the vocabulary links of a scene (see [`scene_links_upto`]): `None` when a match's
/// byte offsets in the lowercased line do not fall on character boundaries of the line itself.
pub fn scene_vocabulary_links(lines: &[ScenePayloadLine], targets: &[VocabularyTarget]) -> (r: Option<Vec<SceneLinkMatch>>)
    ensures
        match r {
            Some(ms) => scene_links_upto(lines@, target_keys(targets@), lines.len() as int) == Some(link_views(ms@)),
            None => scene_links_upto(lines@, target_keys(targets@), lines.len() as int) is None,
        },
{
    let mut keys: Vec<Vec<char>> = Vec::new();
    let mut t: usize = 0;
    while t < targets.len()
        invariant
            t <= targets.len(),
            keys@.map_values(|k: Vec<char>| k@) == target_keys(targets@).take(t as int),
        decreases targets.len() - t,
    {
        let key = normalize_text(targets[t].text.as_str());
        let kv = chars_of(key.as_str());
        let ghost b = keys@;
        keys.push(kv);
        assert(keys@.map_values(|k: Vec<char>| k@) =~= b.map_values(|k: Vec<char>| k@).push(kv@));
        assert(target_keys(targets@)[t as int] == normalized_text(targets@[t as int].text@));
        assert(target_keys(targets@).take(t + 1) =~= target_keys(targets@).take(t as int).push(kv@));
        t = t + 1;
    }
    assert(target_keys(targets@).take(targets@.len() as int) =~= target_keys(targets@));
    let mut out: Vec<SceneLinkMatch> = Vec::new();
    let mut l: usize = 0;
    while l < lines.len()
        invariant
            l <= lines.len(),
            keys@.map_values(|k: Vec<char>| k@) == target_keys(targets@),
            keys.len() == targets.len(),
            scene_links_upto(lines@, target_keys(targets@), l as int) == Some(link_views(out@)),
        decreases lines.len() - l,
    {
        let ok = links_of_line(l, lines[l].english.as_str(), &keys, &mut out);
        if !ok {
            proof {
                lemma_links_none_stays(lines@, target_keys(targets@), l + 1, lines.len() as int);
            }
            return None;
        }
        l = l + 1;
    }
    Some(out)
}

/// Link `v` spans its word in the scene: its line and target exist, the target's key is not
/// empty and first occurs in the lowercased line at byte offset `start`, `end` is `start` plus
/// the key's UTF-8 length, and the matched text is the line's own text between the two offsets.
pub open spec fn link_spans_word(lines: Seq<ScenePayloadLine>, keys: Seq<Seq<char>>, v: LinkView) -> bool {
    let english = lines[v.0].english@;
    let lower = lowercase_of(english);
    &&& 0 <= v.0 < lines.len()
    &&& 0 <= v.1 < keys.len()
    &&& keys[v.1].len() > 0
    &&& first_occurrence(lower, keys[v.1]) matches Some(c) && utf8_len(lower.take(c)) == v.2
    &&& v.3 == v.2 + utf8_len(keys[v.1])
    &&& char_at_byte(english, v.2) matches Some(a) && char_at_byte(english, v.3) matches Some(b)
        && v.4 == english.subrange(a, b)
}

proof fn lemma_line_links_span(lines: Seq<ScenePayloadLine>, keys: Seq<Seq<char>>, l: int, m: int)
    requires
        0 <= l < lines.len(),
        0 <= m <= keys.len(),
        line_links(l, lines[l].english@, lowercase_of(lines[l].english@), keys, m) is Some,
    ensures
        forall|j: int| 0 <= j < line_links(l, lines[l].english@, lowercase_of(lines[l].english@), keys, m)->Some_0.len()
            ==> link_spans_word(lines, keys, #[trigger] line_links(l, lines[l].english@, lowercase_of(lines[l].english@), keys, m)->Some_0[j]),
    decreases m,
{
    if m > 0 {
        let english = lines[l].english@;
        let lower = lowercase_of(english);
        lemma_line_links_span(lines, keys, l, m - 1);
        let prev = line_links(l, english, lower, keys, m - 1)->Some_0;
        let cur = line_links(l, english, lower, keys, m)->Some_0;
        let k = keys[m - 1];
        if k.len() > 0 && last_of_key(keys, m - 1) {
            reveal(key_link_view);
            match key_link_view(l, m - 1, english, lower, k) {
                Some(Some(v)) => {
                    assert(cur == prev.push(v));
                    assert forall|j: int| 0 <= j < cur.len() implies link_spans_word(lines, keys, #[trigger] cur[j]) by {
                        if j < prev.len() {
                            assert(cur[j] == prev[j]);
                        }
                    }
                },
                _ => {},
            }
        }
    }
}

/// Every link that a scene yields spans its word (see [`link_spans_word`]): the offsets are the
/// byte offsets of the word's first occurrence in the lowercased line, `end - start` is the
/// word's length in bytes, and the matched text is the line's text between them.
pub proof fn law_links_span_their_words(lines: Seq<ScenePayloadLine>, keys: Seq<Seq<char>>, n: int)
    requires
        0 <= n <= lines.len(),
        scene_links_upto(lines, keys, n) is Some,
    ensures
        forall|j: int| 0 <= j < scene_links_upto(lines, keys, n)->Some_0.len()
            ==> link_spans_word(lines, keys, #[trigger] scene_links_upto(lines, keys, n)->Some_0[j]),
    decreases n,
{
    if n > 0 {
        law_links_span_their_words(lines, keys, n - 1);
        lemma_line_links_span(lines, keys, n - 1, keys.len() as int);
        let a = scene_links_upto(lines, keys, n - 1)->Some_0;
        let b = line_links(n - 1, lines[n - 1].english@, lowercase_of(lines[n - 1].english@), keys, keys.len() as int)->Some_0;
        let all = scene_links_upto(lines, keys, n)->Some_0;
        assert(all == a + b);
        assert forall|j: int| 0 <= j < all.len() implies link_spans_word(lines, keys, #[trigger] all[j]) by {
            if j < a.len() {
                assert(all[j] == a[j]);
            } else {
                assert(all[j] == b[j - a.len()]);
            }
        }
    }
}

} // verus!
