//! Text to speech with the bundled Piper voice: checking the text, the cache file a text is
//! kept under, and the answer returned to the app.

use sha2::{Digest, Sha256};
use vstd::prelude::*;
use vstd::utf8::encode_utf8;
use crate::sync::base64_standard;
use crate::links::{utf8_len, utf8_length};
use crate::text::{chars_of, string_push, trim, trim_str};

verus! {

pub struct TtsRequest {
    pub input: String,
}

pub struct TtsResponse {
    pub audio_base64: String,
    pub cached: bool,
    pub engine: String,
}

/// The text to speak: the trimmed input. `Err("text is empty")` when nothing is left;
/// `Err("text is too long for one TTS request")` when it takes more than 2000 bytes of UTF-8.
pub fn tts_input(input: &str) -> (r: Result<String, String>)
    ensures
        match r {
            Ok(t) => t@ == trim(input@) && trim(input@).len() > 0 && utf8_len(trim(input@)) <= 2000,
            Err(e) => (trim(input@).len() == 0 && e@ == "text is empty"@)
                || (trim(input@).len() > 0 && utf8_len(trim(input@)) > 2000
                    && e@ == "text is too long for one TTS request"@),
        },
{
    let t = trim_str(input);
    if t.unicode_len() == 0 {
        return Err(String::from_str("text is empty"));
    }
    if utf8_length(&chars_of(t.as_str())) > 2000 {
        return Err(String::from_str("text is too long for one TTS request"));
    }
    Ok(t)
}

/// A name for what `sha2::Sha256::digest` returns: the SHA-256 digest of the bytes.
pub uninterp spec fn sha256(bytes: Seq<u8>) -> Seq<u8>;

/// Calls `Sha256::digest`. Claimed: the 32 bytes are [`sha256`] of the input.
#[verifier::external_body]
fn sha256_digest(bytes: &[u8]) -> (r: [u8; 32])
    ensures
        r@ == sha256(bytes@),
{
    Sha256::digest(bytes).into()
}

/// The lowercase hexadecimal digits.
pub open spec fn hex_digits() -> Seq<char> {
    seq!['0', '1', '2', '3', '4', '5', '6', '7', '8', '9', 'a', 'b', 'c', 'd', 'e', 'f']
}

/// The lowercase hexadecimal digit of `d < 16`.
pub open spec fn hex_digit(d: int) -> char {
    hex_digits()[d]
}

/// Bytes as lowercase hexadecimal, two digits each (what `{:x}` prints for a digest).
pub open spec fn lower_hex(bytes: Seq<u8>) -> Seq<char>
    decreases bytes.len(),
{
    if bytes.len() == 0 {
        seq![]
    } else {
        lower_hex(bytes.drop_last()) + seq![hex_digit(bytes.last() as int / 16), hex_digit(bytes.last() as int % 16)]
    }
}

fn hex_digit_exec(d: u8) -> (c: char)
    requires
        d < 16,
    ensures
        c == hex_digit(d as int),
{
    let digits = ['0', '1', '2', '3', '4', '5', '6', '7', '8', '9', 'a', 'b', 'c', 'd', 'e', 'f'];
    assert(digits@ =~= hex_digits());
    digits[d as usize]
}

/// The bytes that name a text in the voice cache: the voice name, a newline, then the text.
pub open spec fn cache_key_bytes(input: Seq<char>) -> Seq<u8> {
    encode_utf8("en_US-lessac-medium"@) + seq![10u8] + encode_utf8(input)
}

/// The cache key of a text: the SHA-256 digest of the voice name, a newline and the text, in
/// lowercase hexadecimal.
pub fn cache_key(input: &str) -> (r: String)
    ensures
        r@ == lower_hex(sha256(cache_key_bytes(input@))),
        r@.len() == 64,
{
    let mut bytes = "en_US-lessac-medium".as_bytes_vec();
    bytes.push(10u8);
    let mut tail = input.as_bytes_vec();
    bytes.append(&mut tail);
    assert(bytes@ =~= cache_key_bytes(input@));
    let digest = sha256_digest(bytes.as_slice());
    let mut out = String::new();
    let mut i: usize = 0;
    while i < 32
        invariant
            i <= 32,
            digest@.len() == 32,
            out@ == lower_hex(digest@.take(i as int)),
            out@.len() == 2 * i,
        decreases 32 - i,
    {
        let b = digest[i];
        string_push(&mut out, hex_digit_exec(b / 16));
        string_push(&mut out, hex_digit_exec(b % 16));
        assert(digest@.take(i + 1).drop_last() =~= digest@.take(i as int));
        assert(out@ =~= lower_hex(digest@.take(i + 1)));
        i = i + 1;
    }
    assert(digest@.take(32) =~= digest@);
    out
}

/// The cache file of a text: `{key}.wav`.
pub fn cache_file_name(input: &str) -> (r: String)
    ensures
        r@ == lower_hex(sha256(cache_key_bytes(input@))) + ".wav"@,
{
    let mut r = cache_key(input);
    r.append(".wav");
    r
}

/// The answer for a synthesized (or cached) recording: its bytes in standard base64, whether
/// it came from the cache, and the voice's name.
pub fn tts_response(audio_base64: String, cached: bool) -> (r: TtsResponse)
    ensures
        r.audio_base64 == audio_base64,
        r.cached == cached,
        r.engine@ == "Piper en_US-lessac-medium"@,
{
    TtsResponse { audio_base64, cached, engine: String::from_str("Piper en_US-lessac-medium") }
}

} // verus!
