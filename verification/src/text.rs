//! Character-sequence utilities shared by the parsers: whitespace trimming,
//! prefix and suffix tests, searching, decimal formatting.

use vstd::prelude::*;

verus! {

/// Unicode `White_Space`, the property that `char::is_whitespace` tests.
pub open spec fn is_ws(c: char) -> bool {
    ||| ('\t' <= c && c <= '\r')
    ||| c == ' '
    ||| c == '\u{85}'
    ||| c == '\u{A0}'
    ||| c == '\u{1680}'
    ||| ('\u{2000}' <= c && c <= '\u{200A}')
    ||| c == '\u{2028}'
    ||| c == '\u{2029}'
    ||| c == '\u{202F}'
    ||| c == '\u{205F}'
    ||| c == '\u{3000}'
}

/// Executable test of [`is_ws`].
pub fn is_whitespace_char(c: char) -> (r: bool)
    ensures
        r == is_ws(c),
{
    ('\t' <= c && c <= '\r') || c == ' ' || c == '\u{85}' || c == '\u{A0}' || c == '\u{1680}'
        || ('\u{2000}' <= c && c <= '\u{200A}') || c == '\u{2028}' || c == '\u{2029}'
        || c == '\u{202F}' || c == '\u{205F}' || c == '\u{3000}'
}

/// Drops leading characters that satisfy `p`.
pub open spec fn trim_start_by(s: Seq<char>, p: spec_fn(char) -> bool) -> Seq<char>
    decreases s.len(),
{
    if s.len() > 0 && p(s[0]) {
        trim_start_by(s.drop_first(), p)
    } else {
        s
    }
}

/// Drops trailing characters that satisfy `p`.
pub open spec fn trim_end_by(s: Seq<char>, p: spec_fn(char) -> bool) -> Seq<char>
    decreases s.len(),
{
    if s.len() > 0 && p(s.last()) {
        trim_end_by(s.drop_last(), p)
    } else {
        s
    }
}

/// Drops leading and trailing characters that satisfy `p`.
pub open spec fn trim_by(s: Seq<char>, p: spec_fn(char) -> bool) -> Seq<char> {
    trim_end_by(trim_start_by(s, p), p)
}

pub open spec fn ws_pred() -> spec_fn(char) -> bool {
    |c: char| is_ws(c)
}

/// What `str::trim` returns.
pub open spec fn trim(s: Seq<char>) -> Seq<char> {
    trim_by(s, ws_pred())
}

/// What `str::trim_start` returns.
pub open spec fn trim_start(s: Seq<char>) -> Seq<char> {
    trim_start_by(s, ws_pred())
}

/// What `str::trim_end` returns.
pub open spec fn trim_end(s: Seq<char>) -> Seq<char> {
    trim_end_by(s, ws_pred())
}

pub proof fn lemma_trim_start_skip(s: Seq<char>, p: spec_fn(char) -> bool, i: int, n: int)
    requires
        0 <= i < n <= s.len(),
        p(s[i]),
    ensures
        trim_start_by(s.subrange(i, n), p) == trim_start_by(s.subrange(i + 1, n), p),
{
    assert(s.subrange(i, n).drop_first() =~= s.subrange(i + 1, n));
}

pub proof fn lemma_trim_end_skip(s: Seq<char>, p: spec_fn(char) -> bool, i: int, n: int)
    requires
        0 <= i < n <= s.len(),
        p(s[n - 1]),
    ensures
        trim_end_by(s.subrange(i, n), p) == trim_end_by(s.subrange(i, n - 1), p),
{
    assert(s.subrange(i, n).drop_last() =~= s.subrange(i, n - 1));
}

/// The character classes that the trimming functions strip.
pub enum TrimKind {
    /// `char::is_whitespace`.
    Whitespace,
    /// Anything but an alphanumeric character, `'` or `-`.
    NonWordEdge,
    /// One given character.
    Exactly(char),
}

/// The predicate that a [`TrimKind`] stands for.
pub open spec fn trim_pred(k: TrimKind) -> spec_fn(char) -> bool {
    match k {
        TrimKind::Whitespace => ws_pred(),
        TrimKind::NonWordEdge => |c: char| !is_alphanumeric_char(c) && c != '\'' && c != '-',
        TrimKind::Exactly(x) => |c: char| c == x,
    }
}

/// Executable test of [`trim_pred`].
pub fn trim_kind_matches(k: &TrimKind, c: char) -> (r: bool)
    ensures
        r == trim_pred(*k)(c),
{
    match k {
        TrimKind::Whitespace => is_whitespace_char(c),
        TrimKind::NonWordEdge => !char_is_alphanumeric(c) && c != '\'' && c != '-',
        TrimKind::Exactly(x) => c == *x,
    }
}

/// Bounds `(a, b)` such that `s[a..b]` is `s` with the characters of kind `k` stripped from
/// both ends, and `s[a..]` is `s` stripped at the start only.
pub fn trim_bounds_by(s: &Vec<char>, k: &TrimKind) -> (r: (usize, usize))
    ensures
        r.0 <= r.1 <= s.len(),
        s@.subrange(r.0 as int, r.1 as int) == trim_by(s@, trim_pred(*k)),
        s@.subrange(r.0 as int, s.len() as int) == trim_start_by(s@, trim_pred(*k)),
{
    let ghost p = trim_pred(*k);
    let n = s.len();
    let mut i: usize = 0;
    assert(s@.subrange(0, n as int) =~= s@);
    while i < n && trim_kind_matches(k, s[i])
        invariant
            i <= n == s.len(),
            p == trim_pred(*k),
            trim_start_by(s@, p) == trim_start_by(s@.subrange(i as int, n as int), p),
        decreases n - i,
    {
        proof {
            lemma_trim_start_skip(s@, p, i as int, n as int);
        }
        i = i + 1;
    }
    let ghost ts = s@.subrange(i as int, n as int);
    assert(trim_start_by(s@, p) == ts);
    let mut j: usize = n;
    while j > i && trim_kind_matches(k, s[j - 1])
        invariant
            i <= j <= n == s.len(),
            p == trim_pred(*k),
            trim_start_by(s@, p) == s@.subrange(i as int, n as int),
            trim_by(s@, p) == trim_end_by(s@.subrange(i as int, j as int), p),
        decreases j - i,
    {
        proof {
            lemma_trim_end_skip(s@, p, i as int, j as int);
        }
        j = j - 1;
    }
    (i, j)
}

/// Bounds `(a, b)` such that `s[a..b]` is `trim(s)`.
pub fn trim_bounds(s: &Vec<char>) -> (r: (usize, usize))
    ensures
        r.0 <= r.1 <= s.len(),
        s@.subrange(r.0 as int, r.1 as int) == trim(s@),
        s@.subrange(r.0 as int, s.len() as int) == trim_start(s@),
{
    trim_bounds_by(s, &TrimKind::Whitespace)
}

/// `s` with the characters of kind `k` stripped from both ends.
pub fn trim_vec_by(s: &Vec<char>, k: &TrimKind) -> (r: Vec<char>)
    ensures
        r@ == trim_by(s@, trim_pred(*k)),
{
    let (a, b) = trim_bounds_by(s, k);
    subvec(s, a, b)
}

/// `s` with the characters of kind `k` stripped from the end.
pub fn trim_end_vec_by(s: &Vec<char>, k: &TrimKind) -> (r: Vec<char>)
    ensures
        r@ == trim_end_by(s@, trim_pred(*k)),
{
    let ghost p = trim_pred(*k);
    let n = s.len();
    let mut j: usize = n;
    assert(s@.subrange(0, n as int) =~= s@);
    while j > 0 && trim_kind_matches(k, s[j - 1])
        invariant
            j <= n == s.len(),
            p == trim_pred(*k),
            trim_end_by(s@, p) == trim_end_by(s@.subrange(0, j as int), p),
        decreases j,
    {
        proof {
            lemma_trim_end_skip(s@, p, 0, j as int);
        }
        j = j - 1;
    }
    subvec(s, 0, j)
}

/// `s` with the characters of kind `k` stripped from the start.
pub fn trim_start_vec_by(s: &Vec<char>, k: &TrimKind) -> (r: Vec<char>)
    ensures
        r@ == trim_start_by(s@, trim_pred(*k)),
{
    let (a, _b) = trim_bounds_by(s, k);
    subvec(s, a, s.len())
}

/// Trimming the start leaves a suffix of the string, empty or not starting with a stripped
/// character.
pub proof fn lemma_trim_start_shape(s: Seq<char>, p: spec_fn(char) -> bool)
    ensures
        trim_start_by(s, p).len() <= s.len(),
        trim_start_by(s, p).len() == 0 || !p(trim_start_by(s, p)[0]),
        trim_start_by(s, p) == s.subrange(s.len() - trim_start_by(s, p).len(), s.len() as int),
    decreases s.len(),
{
    if s.len() > 0 && p(s[0]) {
        let t = s.drop_first();
        lemma_trim_start_shape(t, p);
        let r = trim_start_by(t, p);
        assert(t.subrange(t.len() - r.len(), t.len() as int) =~= s.subrange(s.len() - r.len(), s.len() as int));
    } else {
        assert(s.subrange(0, s.len() as int) =~= s);
    }
}

/// Trimming the end leaves a prefix of the string, empty or not ending with a stripped
/// character.
pub proof fn lemma_trim_end_shape(s: Seq<char>, p: spec_fn(char) -> bool)
    ensures
        trim_end_by(s, p).len() <= s.len(),
        trim_end_by(s, p).len() == 0 || !p(trim_end_by(s, p).last()),
        trim_end_by(s, p) == s.subrange(0, trim_end_by(s, p).len() as int),
    decreases s.len(),
{
    if s.len() > 0 && p(s.last()) {
        let t = s.drop_last();
        lemma_trim_end_shape(t, p);
        let r = trim_end_by(t, p);
        assert(t.subrange(0, r.len() as int) =~= s.subrange(0, r.len() as int));
    } else {
        assert(s.subrange(0, s.len() as int) =~= s);
    }
}

/// The string left by trimming has no stripped character at either end.
pub proof fn lemma_trim_by_ends(s: Seq<char>, p: spec_fn(char) -> bool)
    ensures
        trim_by(s, p).len() == 0 || (!p(trim_by(s, p)[0]) && !p(trim_by(s, p).last())),
{
    let a = trim_start_by(s, p);
    lemma_trim_start_shape(s, p);
    lemma_trim_end_shape(a, p);
    let b = trim_end_by(a, p);
    if b.len() > 0 {
        assert(b[0] == a.subrange(0, b.len() as int)[0]);
    }
}

/// A string without stripped characters at its ends is left as it is.
pub proof fn lemma_trim_by_noop(s: Seq<char>, p: spec_fn(char) -> bool)
    requires
        s.len() == 0 || (!p(s[0]) && !p(s.last())),
    ensures
        trim_by(s, p) == s,
{
}

/// Trimming a string wrapped in one stripped character on each side gives the string back,
/// when its own ends are not stripped characters.
pub proof fn lemma_trim_by_wrapped(inner: Seq<char>, c: char, p: spec_fn(char) -> bool)
    requires
        p(c),
        inner.len() > 0,
        !p(inner[0]),
        !p(inner.last()),
    ensures
        trim_by(seq![c] + inner + seq![c], p) == inner,
{
    let w = seq![c] + inner + seq![c];
    let v = inner + seq![c];
    assert(w[0] == c);
    assert(trim_start_by(w, p) == trim_start_by(w.drop_first(), p));
    assert(w.drop_first() =~= v);
    assert(v[0] == inner[0]);
    assert(trim_start_by(v, p) == v);
    assert(v.last() == c);
    assert(trim_end_by(v, p) == trim_end_by(v.drop_last(), p));
    assert(v.drop_last() =~= inner);
    assert(trim_end_by(inner, p) == inner);
}

/// The characters of a string literal, as a vector.
pub fn lit(s: &str) -> (r: Vec<char>)
    ensures
        r@ == s@,
{
    chars_of(s)
}

/// `trim(s)` as a vector.
pub fn trim_vec(s: &Vec<char>) -> (r: Vec<char>)
    ensures
        r@ == trim(s@),
{
    trim_vec_by(s, &TrimKind::Whitespace)
}

/// Calls `String::push`. Claimed: the string afterwards is the old one with `c` added at
/// its end.
#[verifier::external_body]
pub(crate) fn string_push(s: &mut String, c: char)
    ensures
        final(s)@ == old(s)@.push(c),
{
    s.push(c);
}

/// The characters of `s`, in order.
pub fn chars_of(s: &str) -> (r: Vec<char>)
    ensures
        r@ == s@,
{
    let n = s.unicode_len();
    let mut r: Vec<char> = Vec::new();
    let mut i: usize = 0;
    while i < n
        invariant
            i <= n == s@.len(),
            r@ == s@.subrange(0, i as int),
        decreases n - i,
    {
        r.push(s.get_char(i));
        i = i + 1;
        assert(r@ =~= s@.subrange(0, i as int));
    }
    assert(r@ =~= s@);
    r
}

/// The string made of `v[a..b]`.
pub fn string_of_range(v: &Vec<char>, a: usize, b: usize) -> (r: String)
    requires
        a <= b <= v.len(),
    ensures
        r@ == v@.subrange(a as int, b as int),
{
    let mut r = String::new();
    let mut i: usize = a;
    while i < b
        invariant
            a <= i <= b <= v.len(),
            r@ == v@.subrange(a as int, i as int),
        decreases b - i,
    {
        string_push(&mut r, v[i]);
        i = i + 1;
        assert(r@ =~= v@.subrange(a as int, i as int));
    }
    r
}

/// The string made of all of `v`.
pub fn string_of(v: &Vec<char>) -> (r: String)
    ensures
        r@ == v@,
{
    let r = string_of_range(v, 0, v.len());
    assert(v@.subrange(0, v@.len() as int) =~= v@);
    r
}

/// `str::trim`, as an owned string.
pub fn trim_str(s: &str) -> (r: String)
    ensures
        r@ == trim(s@),
{
    let v = chars_of(s);
    let (a, b) = trim_bounds(&v);
    string_of_range(&v, a, b)
}


/// `needle` occurs in `hay` starting at index `i`.
pub open spec fn occurs_at(hay: Seq<char>, needle: Seq<char>, i: int) -> bool {
    0 <= i && i + needle.len() <= hay.len() && hay.subrange(i, i + needle.len()) == needle
}

/// The first index where `needle` occurs in `hay` (what `str::find` gives, counted in chars).
pub open spec fn first_occurrence(hay: Seq<char>, needle: Seq<char>) -> Option<int> {
    if exists|i: int| occurs_at(hay, needle, i) {
        Some(choose|i: int| occurs_at(hay, needle, i) && forall|j: int| 0 <= j < i ==> !occurs_at(hay, needle, j))
    } else {
        None
    }
}

pub proof fn lemma_first_occurrence(hay: Seq<char>, needle: Seq<char>)
    ensures
        match first_occurrence(hay, needle) {
            Some(i) => occurs_at(hay, needle, i) && forall|j: int| 0 <= j < i ==> !occurs_at(hay, needle, j),
            None => forall|j: int| !occurs_at(hay, needle, j),
        },
{
    if exists|i: int| occurs_at(hay, needle, i) {
        let w = choose|i: int| occurs_at(hay, needle, i);
        lemma_least_occurrence(hay, needle, w);
    }
}

proof fn lemma_least_occurrence(hay: Seq<char>, needle: Seq<char>, w: int)
    requires
        occurs_at(hay, needle, w),
    ensures
        exists|i: int| occurs_at(hay, needle, i) && forall|j: int| 0 <= j < i ==> !occurs_at(hay, needle, j),
    decreases w,
{
    if exists|j: int| 0 <= j < w && occurs_at(hay, needle, j) {
        let j = choose|j: int| 0 <= j < w && occurs_at(hay, needle, j);
        lemma_least_occurrence(hay, needle, j);
    }
}

/// `s` has `p` at index `i`, tested in place.
pub fn vec_has_at(s: &Vec<char>, i: usize, p: &Vec<char>) -> (r: bool)
    ensures
        r == occurs_at(s@, p@, i as int),
{
    if i > s.len() || p.len() > s.len() - i {
        return false;
    }
    let mut k: usize = 0;
    while k < p.len()
        invariant
            i + p.len() <= s.len(),
            k <= p.len(),
            forall|m: int| 0 <= m < k ==> s@[i + m] == p@[m],
        decreases p.len() - k,
    {
        if s[i + k] != p[k] {
            assert(s@.subrange(i as int, i + p.len())[k as int] != p@[k as int]);
            return false;
        }
        k = k + 1;
    }
    assert(s@.subrange(i as int, i + p@.len()) =~= p@);
    true
}

/// `str::starts_with`.
pub fn vec_starts_with(s: &Vec<char>, p: &Vec<char>) -> (r: bool)
    ensures
        r == p@.is_prefix_of(s@),
{
    let r = vec_has_at(s, 0, p);
    proof {
        if p@.is_prefix_of(s@) {
            assert(s@.subrange(0, p@.len() as int) =~= p@);
        }
        if r {
            assert forall|m: int| 0 <= m < p@.len() implies p@[m] == s@[m] by {
                assert(s@.subrange(0, p@.len() as int)[m] == s@[m]);
            }
        }
    }
    r
}

/// `str::ends_with`.
pub fn vec_ends_with(s: &Vec<char>, p: &Vec<char>) -> (r: bool)
    ensures
        r == p@.is_suffix_of(s@),
{
    if p.len() > s.len() {
        return false;
    }
    let i = s.len() - p.len();
    let r = vec_has_at(s, i, p);
    proof {
        if p@.is_suffix_of(s@) {
            assert(s@.subrange(i as int, s@.len() as int) =~= p@);
        }
        if r {
            assert forall|m: int| 0 <= m < p@.len() implies p@[m] == s@[s@.len() - p@.len() + m] by {
                assert(s@.subrange(i as int, i + p@.len())[m] == s@[i + m]);
            }
        }
    }
    r
}

/// Equality of two character vectors.
pub fn vec_eq(a: &Vec<char>, b: &Vec<char>) -> (r: bool)
    ensures
        r == (a@ == b@),
{
    if a.len() != b.len() {
        return false;
    }
    let r = vec_has_at(a, 0, b);
    proof {
        if r {
            assert(a@.subrange(0, b@.len() as int) =~= a@);
        }
        if a@ == b@ {
            assert(a@.subrange(0, b@.len() as int) =~= a@);
        }
    }
    r
}

/// Equality of two strings.
pub fn str_eq(a: &str, b: &str) -> (r: bool)
    ensures
        r == (a@ == b@),
{
    let va = chars_of(a);
    let vb = chars_of(b);
    vec_eq(&va, &vb)
}

/// The characters `v[a..b]`.
pub fn subvec(v: &Vec<char>, a: usize, b: usize) -> (r: Vec<char>)
    requires
        a <= b <= v.len(),
    ensures
        r@ == v@.subrange(a as int, b as int),
{
    let mut r: Vec<char> = Vec::new();
    let mut i: usize = a;
    while i < b
        invariant
            a <= i <= b <= v.len(),
            r@ == v@.subrange(a as int, i as int),
        decreases b - i,
    {
        r.push(v[i]);
        i = i + 1;
        assert(r@ =~= v@.subrange(a as int, i as int));
    }
    r
}

/// Appends the characters of `b` to `a`.
pub fn append_vec(a: &mut Vec<char>, b: &Vec<char>)
    ensures
        final(a)@ == old(a)@ + b@,
{
    let mut i: usize = 0;
    let ghost a0 = a@;
    while i < b.len()
        invariant
            i <= b.len(),
            a@ == a0 + b@.subrange(0, i as int),
        decreases b.len() - i,
    {
        a.push(b[i]);
        i = i + 1;
        assert(a@ =~= a0 + b@.subrange(0, i as int));
    }
    assert(b@.subrange(0, b@.len() as int) =~= b@);
}

/// Appends a string to a string.
pub fn append_str(a: &mut String, b: &str)
    ensures
        final(a)@ == old(a)@ + b@,
{
    a.append(b);
}

/// The first index at or after `from` where `needle` occurs in `hay`.
pub fn find_from(hay: &Vec<char>, needle: &Vec<char>, from: usize) -> (r: Option<usize>)
    ensures
        match r {
            Some(i) => from <= i && occurs_at(hay@, needle@, i as int)
                && forall|j: int| from <= j < i ==> !occurs_at(hay@, needle@, j),
            None => forall|j: int| from <= j ==> !occurs_at(hay@, needle@, j),
        },
{
    let mut i: usize = from;
    while i < hay.len()
        invariant
            from <= i,
            forall|j: int| from <= j < i ==> !occurs_at(hay@, needle@, j),
        decreases hay.len() - i,
    {
        if vec_has_at(hay, i, needle) {
            return Some(i);
        }
        i = i + 1;
    }
    if vec_has_at(hay, i, needle) {
        return Some(i);
    }
    None
}

/// `str::find`, counted in characters.
pub fn find_vec(hay: &Vec<char>, needle: &Vec<char>) -> (r: Option<usize>)
    ensures
        match r {
            Some(i) => first_occurrence(hay@, needle@) == Some(i as int),
            None => first_occurrence(hay@, needle@) is None,
        },
{
    let r = find_from(hay, needle, 0);
    match r {
        Some(i) => {
            assert(occurs_at(hay@, needle@, i as int));
            let ghost c = choose|k: int| occurs_at(hay@, needle@, k) && forall|j: int| 0 <= j < k ==> !occurs_at(hay@, needle@, j);
            assert(occurs_at(hay@, needle@, c) && forall|j: int| 0 <= j < c ==> !occurs_at(hay@, needle@, j));
            proof {
                if c < i as int {
                    assert(!occurs_at(hay@, needle@, c));
                }
                if (i as int) < c {
                    assert(!occurs_at(hay@, needle@, i as int));
                }
            }
        },
        None => {},
    }
    r
}

/// A name for what `str::to_lowercase` returns: Unicode lowercase mapping of a string.
pub uninterp spec fn lowercase_of(s: Seq<char>) -> Seq<char>;

/// Calls `str::to_lowercase`. Claimed: the result is [`lowercase_of`] the input; nothing else
/// about the Unicode case tables is stated.
#[verifier::external_body]
pub(crate) fn to_lowercase(s: &str) -> (r: String)
    ensures
        r@ == lowercase_of(s@),
{
    s.to_lowercase()
}

/// A name for what `char::is_alphanumeric` returns (Unicode Alphabetic or Numeric).
pub uninterp spec fn is_alphanumeric_char(c: char) -> bool;

/// Calls `char::is_alphanumeric`. Claimed: the result is [`is_alphanumeric_char`] of `c`.
#[verifier::external_body]
pub(crate) fn char_is_alphanumeric(c: char) -> (r: bool)
    ensures
        r == is_alphanumeric_char(c),
{
    c.is_alphanumeric()
}

/// The decimal digit character for `d < 10`.
pub open spec fn digit_char(d: nat) -> char {
    if d == 0 { '0' } else if d == 1 { '1' } else if d == 2 { '2' } else if d == 3 { '3' }
    else if d == 4 { '4' } else if d == 5 { '5' } else if d == 6 { '6' } else if d == 7 { '7' }
    else if d == 8 { '8' } else { '9' }
}

/// Decimal representation of `n`, without leading zeros (as `Display` prints it).
pub open spec fn decimal(n: nat) -> Seq<char>
    decreases n,
{
    if n < 10 {
        seq![digit_char(n)]
    } else {
        decimal(n / 10).push(digit_char(n % 10))
    }
}

/// Decimal representation of a signed integer.
pub open spec fn decimal_int(n: int) -> Seq<char> {
    if n < 0 {
        seq!['-'] + decimal((-n) as nat)
    } else {
        decimal(n as nat)
    }
}

fn digit(d: u128) -> (c: char)
    requires
        d < 10,
    ensures
        c == digit_char(d as nat),
{
    if d == 0 { '0' } else if d == 1 { '1' } else if d == 2 { '2' } else if d == 3 { '3' }
    else if d == 4 { '4' } else if d == 5 { '5' } else if d == 6 { '6' } else if d == 7 { '7' }
    else if d == 8 { '8' } else { '9' }
}

/// Appends the decimal form of `n`.
pub fn push_decimal(out: &mut String, n: u128)
    ensures
        final(out)@ == old(out)@ + decimal(n as nat),
    decreases n,
{
    if n < 10 {
        string_push(out, digit(n));
        assert(decimal(n as nat) =~= seq![digit_char(n as nat)]);
    } else {
        push_decimal(out, n / 10);
        string_push(out, digit(n % 10));
        assert(old(out)@ + decimal(n as nat) =~= old(out)@ + decimal((n / 10) as nat) + seq![digit_char((n % 10) as nat)]);
    }
}

/// Appends the decimal form of a signed `n`.
pub fn push_decimal_i64(out: &mut String, n: i64)
    ensures
        final(out)@ == old(out)@ + decimal_int(n as int),
{
    if n < 0 {
        string_push(out, '-');
        let m: i128 = -(n as i128);
        push_decimal(out, m as u128);
        assert(final(out)@ =~= old(out)@ + decimal_int(n as int));
    } else {
        push_decimal(out, n as u128);
    }
}


pub proof fn lemma_trim_start_by_len(s: Seq<char>, p: spec_fn(char) -> bool)
    ensures
        trim_start_by(s, p).len() <= s.len(),
    decreases s.len(),
{
    if s.len() > 0 && p(s[0]) {
        lemma_trim_start_by_len(s.drop_first(), p);
    }
}

/// Whitespace runs inside `s` (which starts with a non-whitespace character, or is empty)
/// become single spaces, and trailing whitespace is dropped.
pub open spec fn collapse_words(s: Seq<char>) -> Seq<char>
    decreases s.len(),
{
    if s.len() == 0 {
        seq![]
    } else if !is_ws(s[0]) {
        seq![s[0]] + collapse_words(s.drop_first())
    } else {
        proof {
            lemma_trim_start_by_len(s.drop_first(), ws_pred());
        }
        let rest = trim_start_by(s.drop_first(), ws_pred());
        if rest.len() == 0 {
            seq![]
        } else {
            seq![' '] + collapse_words(rest)
        }
    }
}

/// What `s.split_whitespace().collect::<Vec<_>>().join(" ")` returns: the words of `s`
/// joined by single spaces.
pub open spec fn collapse_ws(s: Seq<char>) -> Seq<char> {
    collapse_words(trim_start(s))
}

/// Skips characters of kind `k` from index `i`.
pub fn skip_kind(v: &Vec<char>, i: usize, k: &TrimKind) -> (j: usize)
    requires
        i <= v.len(),
    ensures
        i <= j <= v.len(),
        trim_start_by(v@.subrange(i as int, v.len() as int), trim_pred(*k)) == v@.subrange(j as int, v.len() as int),
        j == v.len() || !trim_pred(*k)(v@[j as int]),
        forall|m: int| i <= m < j ==> trim_pred(*k)(v@[m]),
{
    let ghost p = trim_pred(*k);
    let n = v.len();
    let mut j = i;
    while j < n && trim_kind_matches(k, v[j])
        invariant
            i <= j <= n == v.len(),
            p == trim_pred(*k),
            trim_start_by(v@.subrange(i as int, n as int), p) == trim_start_by(v@.subrange(j as int, n as int), p),
            forall|m: int| i <= m < j ==> p(v@[m]),
        decreases n - j,
    {
        proof {
            lemma_trim_start_skip(v@, p, j as int, n as int);
        }
        j = j + 1;
    }
    proof {
        if j < n {
            assert(v@.subrange(j as int, n as int)[0] == v@[j as int]);
        }
    }
    j
}

/// `split_whitespace` followed by joining with single spaces.
pub fn collapse_whitespace(v: &Vec<char>) -> (r: Vec<char>)
    ensures
        r@ == collapse_ws(v@),
{
    let n = v.len();
    let ghost p = ws_pred();
    let mut i = skip_kind(v, 0, &TrimKind::Whitespace);
    assert(v@.subrange(0, n as int) =~= v@);
    let mut out: Vec<char> = Vec::new();
    assert(out@ + collapse_words(v@.subrange(i as int, n as int)) =~= collapse_ws(v@));
    while i < n
        invariant
            i <= n == v.len(),
            p == ws_pred(),
            i == n || !is_ws(v@[i as int]),
            out@ + collapse_words(v@.subrange(i as int, n as int)) == collapse_ws(v@),
        decreases n - i,
    {
        let ghost before = out@;
        let ghost tail = v@.subrange(i as int, n as int);
        assert(tail[0] == v@[i as int]);
        assert(tail.drop_first() =~= v@.subrange(i + 1, n as int));
        assert(collapse_words(tail) == seq![v@[i as int]] + collapse_words(v@.subrange(i + 1, n as int)));
        out.push(v[i]);
        let i1 = i + 1;
        let j = skip_kind(v, i1, &TrimKind::Whitespace);
        let ghost t1 = v@.subrange(i1 as int, n as int);
        if j == i1 {
            i = i1;
            assert(out@ + collapse_words(v@.subrange(i as int, n as int)) =~= before + collapse_words(tail));
        } else {
            assert(t1[0] == v@[i1 as int]);
            assert(is_ws(t1[0]));
            assert(t1.drop_first() =~= v@.subrange(i1 + 1, n as int));
            assert(trim_start_by(t1, p) == trim_start_by(t1.drop_first(), p));
            if j == n {
                assert(v@.subrange(j as int, n as int).len() == 0);
                assert(collapse_words(t1) =~= seq![]);
                i = n;
                assert(out@ + collapse_words(v@.subrange(i as int, n as int)) =~= before + collapse_words(tail));
            } else {
                out.push(' ');
                i = j;
                assert(out@ + collapse_words(v@.subrange(i as int, n as int)) =~= before + collapse_words(tail));
            }
        }
    }
    assert(v@.subrange(n as int, n as int) =~= Seq::<char>::empty());
    assert(out@ + collapse_words(v@.subrange(n as int, n as int)) =~= out@);
    out
}

/// `s` with every leading copy of `p` removed (`str::trim_start_matches` with a string pattern).
pub open spec fn strip_prefix_repeat(s: Seq<char>, p: Seq<char>) -> Seq<char>
    decreases s.len(),
{
    if p.len() > 0 && p.is_prefix_of(s) {
        strip_prefix_repeat(s.skip(p.len() as int), p)
    } else {
        s
    }
}

/// `s` with every trailing copy of `p` removed (`str::trim_end_matches` with a string pattern).
pub open spec fn strip_suffix_repeat(s: Seq<char>, p: Seq<char>) -> Seq<char>
    decreases s.len(),
{
    if p.len() > 0 && p.is_suffix_of(s) {
        strip_suffix_repeat(s.subrange(0, s.len() - p.len()), p)
    } else {
        s
    }
}

/// `str::trim_start_matches` with a string pattern.
pub fn trim_start_matches_vec(s: &Vec<char>, p: &Vec<char>) -> (r: Vec<char>)
    ensures
        r@ == strip_prefix_repeat(s@, p@),
{
    let n = s.len();
    let mut i: usize = 0;
    assert(s@.subrange(0, n as int) =~= s@);
    if p.len() == 0 {
        return subvec(s, 0, n);
    }
    while vec_has_at(s, i, p)
        invariant
            i <= n == s.len(),
            p@.len() > 0,
            strip_prefix_repeat(s@, p@) == strip_prefix_repeat(s@.subrange(i as int, n as int), p@),
        decreases n - i,
    {
        let ghost t = s@.subrange(i as int, n as int);
        assert(t.subrange(0, p@.len() as int) =~= s@.subrange(i as int, i + p@.len()));
        assert(p@.is_prefix_of(t));
        assert(t.skip(p@.len() as int) =~= s@.subrange(i + p@.len(), n as int));
        i = i + p.len();
    }
    proof {
        let t = s@.subrange(i as int, n as int);
        if p@.is_prefix_of(t) {
            assert(s@.subrange(i as int, i + p@.len()) =~= t.subrange(0, p@.len() as int));
        }
    }
    subvec(s, i, n)
}

/// `str::trim_end_matches` with a string pattern.
pub fn trim_end_matches_vec(s: &Vec<char>, p: &Vec<char>) -> (r: Vec<char>)
    ensures
        r@ == strip_suffix_repeat(s@, p@),
{
    let n = s.len();
    let mut j: usize = n;
    assert(s@.subrange(0, n as int) =~= s@);
    if p.len() == 0 {
        return subvec(s, 0, n);
    }
    while j >= p.len() && vec_has_at(s, j - p.len(), p)
        invariant
            j <= n == s.len(),
            p@.len() > 0,
            strip_suffix_repeat(s@, p@) == strip_suffix_repeat(s@.subrange(0, j as int), p@),
        decreases j,
    {
        let ghost t = s@.subrange(0, j as int);
        let k = j - p.len();
        assert(t.subrange(k as int, j as int) =~= s@.subrange(k as int, k + p@.len()));
        assert(p@.is_suffix_of(t));
        assert(t.subrange(0, t.len() - p@.len()) =~= s@.subrange(0, k as int));
        j = k;
    }
    proof {
        let t = s@.subrange(0, j as int);
        if p@.is_suffix_of(t) {
            let k = j - p@.len();
            assert(s@.subrange(k, k + p@.len()) =~= t.subrange(k, j as int));
        }
    }
    subvec(s, 0, j)
}

/// What `str::split_once` with a character pattern returns.
pub open spec fn split_once_spec(s: Seq<char>, c: char) -> Option<(Seq<char>, Seq<char>)> {
    match first_occurrence(s, seq![c]) {
        Some(i) => Some((s.subrange(0, i), s.subrange(i + 1, s.len() as int))),
        None => None,
    }
}

/// `str::split_once` with a character pattern.
pub fn split_once_char(s: &Vec<char>, c: char) -> (r: Option<(Vec<char>, Vec<char>)>)
    ensures
        match r {
            Some((a, b)) => split_once_spec(s@, c) == Some((a@, b@)),
            None => split_once_spec(s@, c) is None,
        },
{
    let n = s.len();
    let mut needle: Vec<char> = Vec::new();
    needle.push(c);
    assert(needle@ =~= seq![c]);
    match find_vec(s, &needle) {
        Some(i) => {
            proof {
                lemma_first_occurrence(s@, seq![c]);
            }
            assert(occurs_at(s@, seq![c], i as int));
            assert(seq![c].len() == 1);
            assert(i + 1 <= s@.len());
            let a = subvec(s, 0, i);
            let b = subvec(s, i + 1, n);
            Some((a, b))
        },
        None => None,
    }
}


/// `parts` joined by `sep` (what `join` on a list of strings returns).
pub open spec fn join_seqs(parts: Seq<Seq<char>>, sep: Seq<char>) -> Seq<char>
    decreases parts.len(),
{
    if parts.len() == 0 {
        seq![]
    } else if parts.len() == 1 {
        parts[0]
    } else {
        join_seqs(parts.drop_last(), sep) + sep + parts.last()
    }
}

/// The character sequences of a list of strings.
pub open spec fn string_views(v: Seq<String>) -> Seq<Seq<char>> {
    v.map_values(|s: String| s@)
}

/// Appends `parts` joined by `sep`.
pub fn push_joined(out: &mut String, parts: &Vec<String>, sep: &str)
    ensures
        final(out)@ == old(out)@ + join_seqs(string_views(parts@), sep@),
{
    let ghost start = out@;
    let ghost all = string_views(parts@);
    let mut i: usize = 0;
    assert(all.subrange(0, 0) =~= Seq::<Seq<char>>::empty());
    while i < parts.len()
        invariant
            i <= parts.len(),
            all == string_views(parts@),
            out@ == start + join_seqs(all.subrange(0, i as int), sep@),
        decreases parts.len() - i,
    {
        let ghost pre = all.subrange(0, i as int);
        let ghost post = all.subrange(0, i + 1);
        assert(post.drop_last() =~= pre);
        assert(post.last() == parts@[i as int]@);
        if i > 0 {
            out.append(sep);
        }
        out.append(parts[i].as_str());
        proof {
            if i == 0 {
                assert(post.len() == 1);
                assert(out@ =~= start + join_seqs(post, sep@));
            } else {
                assert(out@ =~= start + join_seqs(post, sep@));
            }
        }
        i = i + 1;
    }
    assert(all.subrange(0, parts@.len() as int) =~= all);
}

/// Appends the first `n` characters of `s` (all of it when shorter).
pub fn push_prefix(out: &mut String, s: &str, n: usize)
    ensures
        final(out)@ == old(out)@ + s@.take(if s@.len() < n { s@.len() as int } else { n as int }),
{
    let v = chars_of(s);
    let m = if v.len() < n { v.len() } else { n };
    let p = string_of_range(&v, 0, m);
    assert(p@ =~= s@.take(m as int));
    out.append(p.as_str());
}

} // verus!

verus! {

/// Trimming twice trims no more than trimming once.
pub proof fn lemma_trim_by_idempotent(s: Seq<char>, p: spec_fn(char) -> bool)
    ensures
        trim_by(trim_by(s, p), p) == trim_by(s, p),
{
    lemma_trim_by_ends(s, p);
    lemma_trim_by_noop(trim_by(s, p), p);
}

/// Trimming the end keeps every character up to one that is not stripped.
pub proof fn lemma_trim_end_keeps(s: Seq<char>, p: spec_fn(char) -> bool, k: int)
    requires
        0 <= k < s.len(),
        !p(s[k]),
    ensures
        trim_end_by(s, p).len() > k,
    decreases s.len(),
{
    if p(s.last()) {
        assert(k < s.len() - 1);
        assert(s.drop_last()[k] == s[k]);
        lemma_trim_end_keeps(s.drop_last(), p, k);
    }
}

} // verus!
