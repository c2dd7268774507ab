//! Chromium-family browsers (Chrome, Edge, Brave, ..) encrypt cookie values
//! with AES-256-GCM. The key sits in `Local State`, base64-encoded and
//! wrapped by the operating system; unwrapping it is the caller's job.
//!
//! Chrome 127+ can also bind values to the browser binary ("App-Bound
//! Encryption", version tag `v20`), which no other process can decrypt.
//! Such profiles are reported as such rather than as a decryption error.

use vstd::prelude::*;

use aes_gcm::aead::{Aead, KeyInit};
use aes_gcm::{Aes256Gcm, Nonce};
use base64::Engine;

use crate::cookies::{is_youtube_host, string_views, CookieError};
use crate::login::{string_pairs_view, youtube_domain, CookiePair};
use crate::text::push_char;

verus! {

/// One row of the `cookies` table.
pub struct CookieRow {
    pub host: String,
    pub name: String,
    /// Plaintext value; only very old profiles fill it.
    pub value: String,
    pub encrypted_value: Vec<u8>,
}

/// Why one value could not be decrypted.
#[derive(Debug, Clone, Copy, PartialEq, Eq, Structural)]
pub enum Decrypt {
    /// `v20`: App-Bound Encryption, unwrappable only by the browser itself.
    AppBound,
    Other,
}

/// Bytes of the SHA-256 of the host that newer versions put in front of the
/// value.
pub const DOMAIN_HASH_LEN: usize = 32;

/// Length of an AES-256 key.
pub const KEY_LEN: usize = 32;

/// What AES-256-GCM decryption of `sealed` (ciphertext followed by the tag)
/// under `key` and `nonce` yields; `None` when authentication fails.
pub uninterp spec fn aes256gcm_open(key: Seq<u8>, nonce: Seq<u8>, sealed: Seq<u8>) -> Option<Seq<u8>>;

/// The text `bytes` encode as UTF-8; `None` when they are not valid UTF-8.
pub uninterp spec fn utf8_decoded(bytes: Seq<u8>) -> Option<Seq<char>>;

/// The bytes `text` encodes in standard, padded base64; `None` when it is
/// not such base64.
pub uninterp spec fn base64_decoded(text: Seq<char>) -> Option<Seq<u8>>;

/// What the JSON document `text` holds at member `inner` of its member
/// `outer`: `None` when the text is not JSON, `Some(None)` when that member
/// is missing or not a string.
pub uninterp spec fn json_string_member(text: Seq<char>, outer: Seq<char>, inner: Seq<char>) -> Option<
    Option<Seq<char>>,
>;

/// `aes_gcm::Aes256Gcm::decrypt` with a 32-byte key and a 12-byte nonce
/// (the lengths the cipher is made for; other lengths would panic): the
/// plaintext when the tag authenticates, `None` otherwise. The result is
/// named [`aes256gcm_open`].
#[verifier::external_body]
fn open_sealed(key: &[u8], nonce: &[u8], sealed: &[u8]) -> (r: Option<Vec<u8>>)
    requires
        key@.len() == KEY_LEN,
        nonce@.len() == 12,
    ensures
        match r {
            Some(p) => aes256gcm_open(key@, nonce@, sealed@) == Some(p@),
            None => aes256gcm_open(key@, nonce@, sealed@) is None,
        },
{
    let cipher = Aes256Gcm::new(aes_gcm::Key::<Aes256Gcm>::from_slice(key));
    cipher.decrypt(Nonce::from_slice(nonce), sealed).ok()
}

/// `std::str::from_utf8`: the text when `bytes` are valid UTF-8. The result
/// is named [`utf8_decoded`].
#[verifier::external_body]
fn utf8_text(bytes: &[u8]) -> (r: Option<String>)
    ensures
        match r {
            Some(s) => utf8_decoded(bytes@) == Some(s@),
            None => utf8_decoded(bytes@) is None,
        },
{
    std::str::from_utf8(bytes).ok().map(|s| s.to_owned())
}

/// `base64::engine::general_purpose::STANDARD.decode`. The result is named
/// [`base64_decoded`].
#[verifier::external_body]
fn base64_standard_decode(text: &str) -> (r: Option<Vec<u8>>)
    ensures
        match r {
            Some(b) => base64_decoded(text@) == Some(b@),
            None => base64_decoded(text@) is None,
        },
{
    base64::engine::general_purpose::STANDARD.decode(text).ok()
}

/// `serde_json::from_str` of `text` as a `serde_json::Value`, then its
/// `outer` / `inner` member read as a string. The result is named
/// [`json_string_member`].
#[verifier::external_body]
fn string_member_of(text: &str, outer: &str, inner: &str) -> (r: Option<Option<String>>)
    ensures
        match r {
            None => json_string_member(text@, outer@, inner@) is None,
            Some(None) => json_string_member(text@, outer@, inner@) == Some(None::<Seq<char>>),
            Some(Some(k)) => json_string_member(text@, outer@, inner@) == Some(Some(k@)),
        },
{
    let json: serde_json::Value = serde_json::from_str(text).ok()?;
    Some(
        json.get(outer)
            .and_then(|c| c.get(inner))
            .and_then(|k| k.as_str()).map(|k| k.to_owned()),
    )
}

/// `blob` starts with the version tag `v<d1><d2>`.
pub open spec fn tagged(blob: Seq<u8>, d1: u8, d2: u8) -> bool {
    blob.len() >= 3 && blob[0] == 118u8 && blob[1] == d1 && blob[2] == d2
}

/// What one encrypted value decrypts to.
///
/// `v10`/`v11` blobs are `tag(3) || nonce(12) || ciphertext || gcm tag(16)`.
/// Older versions store the value itself, newer ones put the host's hash in
/// front of it; the tag has authenticated the plaintext at that point, so
/// whichever of the two is UTF-8 is the value.
pub open spec fn decrypted(blob: Seq<u8>, key: Seq<u8>) -> Result<Seq<char>, Decrypt> {
    if tagged(blob, 50u8, 48u8) {
        Err(Decrypt::AppBound)
    } else if !(tagged(blob, 49u8, 48u8) || tagged(blob, 49u8, 49u8)) || blob.len() < 3 + 12 + 16 {
        Err(Decrypt::Other)
    } else if key.len() != KEY_LEN {
        Err(Decrypt::Other)
    } else {
        match aes256gcm_open(key, blob.subrange(3, 15), blob.skip(15)) {
            None => Err(Decrypt::Other),
            Some(plain) => match utf8_decoded(plain) {
                Some(s) => Ok(s),
                None => if plain.len() > DOMAIN_HASH_LEN {
                    match utf8_decoded(plain.skip(DOMAIN_HASH_LEN as int)) {
                        Some(s) => Ok(s),
                        None => Err(Decrypt::Other),
                    }
                } else {
                    Err(Decrypt::Other)
                },
            },
        }
    }
}

fn byte_range(bytes: &[u8], a: usize, b: usize) -> (r: Vec<u8>)
    requires
        a <= b <= bytes@.len(),
    ensures
        r@ == bytes@.subrange(a as int, b as int),
{
    let mut r: Vec<u8> = Vec::new();
    let mut i: usize = a;
    while i < b
        invariant
            a <= i <= b,
            b <= bytes@.len(),
            r@ == bytes@.subrange(a as int, i as int),
        decreases b - i,
    {
        r.push(bytes[i]);
        i = i + 1;
    }
    r
}

fn has_tag(blob: &[u8], d1: u8, d2: u8) -> (r: bool)
    ensures
        r == tagged(blob@, d1, d2),
{
    blob.len() >= 3 && blob[0] == 118u8 && blob[1] == d1 && blob[2] == d2
}

/// Decrypt one stored value with the profile's AES key.
pub fn decrypt_value(blob: &[u8], key: &[u8]) -> (r: Result<String, Decrypt>)
    ensures
        match decrypted(blob@, key@) {
            Ok(s) => r matches Ok(t) && t@ == s,
            Err(e) => r == Err::<String, Decrypt>(e),
        },
{
    if has_tag(blob, 50u8, 48u8) {
        return Err(Decrypt::AppBound);
    }
    if !(has_tag(blob, 49u8, 48u8) || has_tag(blob, 49u8, 49u8)) || blob.len() < 3 + 12 + 16 {
        return Err(Decrypt::Other);
    }
    if key.len() != KEY_LEN {
        return Err(Decrypt::Other);
    }
    let nonce = byte_range(blob, 3, 15);
    let sealed = byte_range(blob, 15, blob.len());
    proof {
        assert(sealed@ =~= blob@.skip(15));
    }
    let plain = match open_sealed(key, nonce.as_slice(), sealed.as_slice()) {
        Some(p) => p,
        None => return Err(Decrypt::Other),
    };
    match utf8_text(plain.as_slice()) {
        Some(s) => Ok(s),
        None => {
            if plain.len() > DOMAIN_HASH_LEN {
                let rest = byte_range(plain.as_slice(), DOMAIN_HASH_LEN, plain.len());
                proof {
                    assert(rest@ =~= plain@.skip(DOMAIN_HASH_LEN as int));
                }
                match utf8_text(rest.as_slice()) {
                    Some(s) => Ok(s),
                    None => Err(Decrypt::Other),
                }
            } else {
                Err(Decrypt::Other)
            }
        },
    }
}

/// The printable ASCII bytes among `bs`, as characters.
pub open spec fn graphic_chars(bs: Seq<u8>) -> Seq<char>
    decreases bs.len(),
{
    if bs.len() == 0 {
        Seq::empty()
    } else {
        let b = bs.last();
        if 0x21 <= b <= 0x7e {
            graphic_chars(bs.drop_last()).push(b as char)
        } else {
            graphic_chars(bs.drop_last())
        }
    }
}

/// The version tag of a blob, for diagnostics: the printable characters of
/// its first three bytes (it is not cookie material).
pub open spec fn version_tag(blob: Seq<u8>) -> Seq<char> {
    graphic_chars(blob.take(if blob.len() < 3 { blob.len() as int } else { 3 }))
}

fn version_tag_of(blob: &[u8]) -> (r: String)
    ensures
        r@ == version_tag(blob@),
{
    let n: usize = if blob.len() < 3 { blob.len() } else { 3 };
    let mut s = String::new();
    let mut i: usize = 0;
    while i < n
        invariant
            i <= n,
            n <= blob@.len(),
            n == (if blob@.len() < 3 { blob@.len() as int } else { 3 }),
            s@ == graphic_chars(blob@.take(i as int)),
        decreases n - i,
    {
        let b = blob[i];
        proof {
            assert(blob@.take(i + 1).drop_last() =~= blob@.take(i as int));
            assert(blob@.take(i + 1).last() == b);
        }
        if 0x21u8 <= b && b <= 0x7eu8 {
            push_char(&mut s, b as char);
        }
        i = i + 1;
    }
    s
}

/// `tags` with `t` added at the end unless already present.
pub open spec fn add_tag(tags: Seq<Seq<char>>, t: Seq<char>) -> Seq<Seq<char>> {
    if tags.contains(t) {
        tags
    } else {
        tags.push(t)
    }
}

/// What reading `rows` gathers: the imported (name, value) pairs, how many
/// values are app-bound, how many could not be decrypted, and the distinct
/// version tags of the latter in order of appearance.
pub open spec fn scan(rows: Seq<CookieRow>, key: Seq<u8>) -> (Seq<CookiePair>, nat, nat, Seq<Seq<char>>)
    decreases rows.len(),
{
    if rows.len() == 0 {
        (Seq::empty(), 0, 0, Seq::empty())
    } else {
        let (ps, ab, un, tags) = scan(rows.drop_last(), key);
        let r = rows.last();
        if !youtube_domain(r.host@) || r.name@.len() == 0 {
            (ps, ab, un, tags)
        } else if r.encrypted_value@.len() == 0 {
            if r.value@.len() > 0 {
                (ps.push((r.name@, r.value@)), ab, un, tags)
            } else {
                (ps, ab, un, tags)
            }
        } else {
            match decrypted(r.encrypted_value@, key) {
                Ok(v) => (ps.push((r.name@, v)), ab, un, tags),
                Err(Decrypt::AppBound) => (ps, ab + 1, un, tags),
                Err(Decrypt::Other) => (ps, ab, un + 1, add_tag(tags, version_tag(r.encrypted_value@))),
            }
        }
    }
}

fn contains_string(v: &Vec<String>, t: &String) -> (r: bool)
    ensures
        r == string_views(v@).contains(t@),
{
    let mut i: usize = 0;
    while i < v.len()
        invariant
            i <= v@.len(),
            forall|k: int| 0 <= k < i ==> v@[k]@ != t@,
        decreases v.len() - i,
    {
        if v[i] == *t {
            proof {
                assert(string_views(v@)[i as int] == t@);
            }
            return true;
        }
        i = i + 1;
    }
    proof {
        if string_views(v@).contains(t@) {
            let k = choose|k: int| 0 <= k < string_views(v@).len() && string_views(v@)[k] == t@;
            assert(v@[k]@ == t@);
        }
    }
    false
}

/// Keep the YouTube cookies of the rows read from a Chromium cookie
/// database, decrypting them with the profile's AES `key`.
///
/// One bad row does not sink the import. But when nothing could be read,
/// "could not decrypt" is told apart from "not signed in": app-bound values
/// first, then undecryptable ones with their count and version tags.
pub fn read(rows: Vec<CookieRow>, key: &[u8]) -> (r: Result<Vec<(String, String)>, CookieError>)
    ensures
        ({
            let (ps, ab, un, tags) = scan(rows@, key@);
            if ps.len() == 0 && ab > 0 {
                r matches Err(CookieError::AppBound)
            } else if ps.len() == 0 && un > 0 {
                r matches Err(CookieError::Undecryptable { count, tags: t }) && count == un
                    && string_views(t@) == tags
            } else {
                r matches Ok(out) && string_pairs_view(out@) == ps
            }
        }),
{
    let ghost all = rows@;
    let ghost kv = key@;
    let n = rows.len();
    let mut rest = rows;
    let mut out: Vec<(String, String)> = Vec::new();
    let mut app_bound: usize = 0;
    let mut undecryptable: usize = 0;
    let mut tags: Vec<String> = Vec::new();
    let mut k: usize = 0;
    proof {
        assert(rest@.skip(0) =~= all);
    }
    while k < n
        invariant
            k <= n,
            n == all.len(),
            kv == key@,
            rest@ == all.skip(k as int),
            app_bound <= k,
            undecryptable <= k,
            ({
                let (ps, ab, un, ts) = scan(all.take(k as int), kv);
                &&& string_pairs_view(out@) == ps
                &&& app_bound == ab
                &&& undecryptable == un
                &&& string_views(tags@) == ts
            }),
        decreases n - k,
    {
        let row = rest.remove(0);
        proof {
            assert(row == all[k as int]);
            assert(rest@ =~= all.skip(k + 1));
            assert(all.take(k + 1).drop_last() =~= all.take(k as int));
            assert(all.take(k + 1).last() == row);
        }
        let ghost prev = scan(all.take(k as int), kv);
        let CookieRow { host, name, value, encrypted_value } = row;
        if is_youtube_host(host.as_str()) && name.as_str().unicode_len() > 0 {
            if encrypted_value.len() == 0 {
                if value.as_str().unicode_len() > 0 {
                    out.push((name, value));
                    proof {
                        assert(string_pairs_view(out@) =~= prev.0.push((row.name@, row.value@)));
                    }
                }
            } else {
                match decrypt_value(encrypted_value.as_slice(), key) {
                    Ok(v) => {
                        out.push((name, v));
                        proof {
                            assert(string_pairs_view(out@) =~= prev.0.push((row.name@, v@)));
                        }
                    },
                    Err(Decrypt::AppBound) => {
                        app_bound = app_bound + 1;
                    },
                    Err(Decrypt::Other) => {
                        undecryptable = undecryptable + 1;
                        let tag = version_tag_of(encrypted_value.as_slice());
                        if !contains_string(&tags, &tag) {
                            tags.push(tag);
                            proof {
                                assert(string_views(tags@) =~= prev.3.push(version_tag(row.encrypted_value@)));
                            }
                        }
                    },
                }
            }
        }
        k = k + 1;
    }
    proof {
        assert(all.take(n as int) =~= all);
    }
    if out.len() == 0 {
        if app_bound > 0 {
            return Err(CookieError::AppBound);
        }
        if undecryptable > 0 {
            return Err(CookieError::Undecryptable { count: undecryptable, tags });
        }
    }
    Ok(out)
}

/// The tag that precedes the wrapped key.
pub open spec fn dpapi_tag() -> Seq<u8> {
    seq![68u8, 80u8, 65u8, 80u8, 73u8]
}

/// The wrapped AES key a `Local State` document holds, or why there is none:
/// the base64 of `os_crypt.encrypted_key`, with its `DPAPI` tag removed.
pub open spec fn wrapped_key_of(text: Seq<char>) -> Result<Seq<u8>, CookieError> {
    match json_string_member(text, "os_crypt"@, "encrypted_key"@) {
        None => Err(CookieError::LocalStateNotJson),
        Some(None) => Err(CookieError::NoEncryptedKey),
        Some(Some(encoded)) => match base64_decoded(encoded) {
            None => Err(CookieError::KeyNotBase64),
            Some(raw) => if raw.len() >= 5 && raw.take(5) == dpapi_tag() {
                Ok(raw.skip(5))
            } else {
                Err(CookieError::KeyFormat)
            },
        },
    }
}

/// Pull the wrapped AES key out of the text of `Local State`. Unwrapping it
/// is left to the operating system.
pub fn wrapped_key(local_state: &str) -> (r: Result<Vec<u8>, CookieError>)
    ensures
        match wrapped_key_of(local_state@) {
            Ok(k) => r matches Ok(v) && v@ == k,
            Err(CookieError::LocalStateNotJson) => r matches Err(CookieError::LocalStateNotJson),
            Err(CookieError::NoEncryptedKey) => r matches Err(CookieError::NoEncryptedKey),
            Err(CookieError::KeyNotBase64) => r matches Err(CookieError::KeyNotBase64),
            Err(_) => r matches Err(CookieError::KeyFormat),
        },
{
    let encoded = match string_member_of(local_state, "os_crypt", "encrypted_key") {
        None => return Err(CookieError::LocalStateNotJson),
        Some(None) => return Err(CookieError::NoEncryptedKey),
        Some(Some(k)) => k,
    };
    let raw = match base64_standard_decode(encoded.as_str()) {
        None => return Err(CookieError::KeyNotBase64),
        Some(b) => b,
    };
    if raw.len() >= 5 && raw[0] == 68u8 && raw[1] == 80u8 && raw[2] == 65u8 && raw[3] == 80u8 && raw[4] == 73u8 {
        let k = byte_range(raw.as_slice(), 5, raw.len());
        proof {
            assert(raw@.take(5) =~= dpapi_tag());
            assert(k@ =~= raw@.skip(5));
        }
        Ok(k)
    } else {
        proof {
            if raw@.len() >= 5 && raw@.take(5) == dpapi_tag() {
                assert(raw@[0] == raw@.take(5)[0]);
                assert(raw@[1] == raw@.take(5)[1]);
                assert(raw@[2] == raw@.take(5)[2]);
                assert(raw@[3] == raw@.take(5)[3]);
                assert(raw@[4] == raw@.take(5)[4]);
            }
        }
        Err(CookieError::KeyFormat)
    }
}

} // verus!
