use ytbm_tui::cookies::{chromium_label, firefox_label};
use aes_gcm::aead::{Aead, KeyInit};
use aes_gcm::{Aes256Gcm, Nonce};
use base64::Engine;

use ytbm_tui::cookies::chromium::{self, CookieRow, Decrypt};
use ytbm_tui::cookies::{
    disambiguate, firefox, header_from_rows, is_youtube_host, local_state_path, read_cookies,
    BrowserProfile, CookieError, CookieStore, ProfileRows,
};
use ytbm_tui::login::HeaderError;

#[test]
fn youtube_host_matching() {
    assert!(is_youtube_host(".youtube.com"));
    assert!(is_youtube_host("youtube.com"));
    assert!(is_youtube_host("music.youtube.com"));
    assert!(is_youtube_host(".music.youtube.com"));
    // Look-alikes must never match.
    assert!(!is_youtube_host("google.com"));
    assert!(!is_youtube_host("notyoutube.com"));
    assert!(!is_youtube_host("youtube.com.evil.net"));
}

fn s(x: &str) -> String {
    x.to_string()
}

#[test]
fn firefox_rows_keep_named_youtube_cookies_in_order() {
    let rows = vec![
        (s(".youtube.com"), s("SID"), s("a")),
        (s("google.com"), s("SID"), s("zz")),
        (s("music.youtube.com"), s(""), s("nameless")),
        (s("youtube.com"), s("SAPISID"), s("b")),
    ];
    assert_eq!(firefox::read(rows), vec![(s("SID"), s("a")), (s("SAPISID"), s("b"))]);
}

const KEY: [u8; 32] = [7u8; 32];

fn seal(plain: &[u8]) -> Vec<u8> {
    let cipher = Aes256Gcm::new_from_slice(&KEY).unwrap();
    let nonce = [3u8; 12];
    let sealed = cipher.encrypt(Nonce::from_slice(&nonce), plain).unwrap();
    let mut blob = b"v10".to_vec();
    blob.extend_from_slice(&nonce);
    blob.extend_from_slice(&sealed);
    blob
}

#[test]
fn values_decrypt_with_and_without_the_host_hash() {
    assert_eq!(chromium::decrypt_value(&seal(b"secret"), &KEY).unwrap(), "secret");
    let mut hashed = vec![0xffu8; 32];
    hashed.extend_from_slice(b"value");
    assert_eq!(chromium::decrypt_value(&seal(&hashed), &KEY).unwrap(), "value");
}

#[test]
fn values_that_cannot_be_decrypted_are_classified() {
    let mut v20 = b"v20".to_vec();
    v20.extend_from_slice(&[0u8; 40]);
    assert_eq!(chromium::decrypt_value(&v20, &KEY), Err(Decrypt::AppBound));
    // Unknown tag, too short, wrong key length, wrong key.
    let mut v12 = b"v12".to_vec();
    v12.extend_from_slice(&[0u8; 40]);
    assert_eq!(chromium::decrypt_value(&v12, &KEY), Err(Decrypt::Other));
    assert_eq!(chromium::decrypt_value(b"v10abc", &KEY), Err(Decrypt::Other));
    assert_eq!(chromium::decrypt_value(&seal(b"x"), &KEY[..16]), Err(Decrypt::Other));
    assert_eq!(chromium::decrypt_value(&seal(b"x"), &[9u8; 32]), Err(Decrypt::Other));
}

fn row(host: &str, name: &str, value: &str, enc: Vec<u8>) -> CookieRow {
    CookieRow { host: s(host), name: s(name), value: s(value), encrypted_value: enc }
}

#[test]
fn chromium_rows_are_filtered_and_decrypted() {
    let rows = vec![
        row(".youtube.com", "SID", "", seal(b"one")),
        row("example.com", "SID", "", seal(b"other")),
        row(".youtube.com", "OLD", "plain", vec![]),
        row(".youtube.com", "EMPTY", "", vec![]),
        row(".youtube.com", "BOUND", "", {
            let mut b = b"v20".to_vec();
            b.extend_from_slice(&[0u8; 40]);
            b
        }),
    ];
    let pairs = chromium::read(rows, &KEY).unwrap();
    assert_eq!(pairs, vec![(s("SID"), s("one")), (s("OLD"), s("plain"))]);
}

#[test]
fn nothing_readable_is_explained() {
    let mut bound = b"v20".to_vec();
    bound.extend_from_slice(&[0u8; 40]);
    let err = chromium::read(vec![row(".youtube.com", "SID", "", bound)], &KEY).unwrap_err();
    assert!(matches!(err, CookieError::AppBound));
    assert!(err.message().contains("App-Bound Encryption"));

    let mut odd = b"v12".to_vec();
    odd.extend_from_slice(&[0u8; 40]);
    let rows = vec![
        row(".youtube.com", "SID", "", odd.clone()),
        row(".youtube.com", "HSID", "", odd),
        row(".youtube.com", "APISID", "", b"\x01\"x".to_vec()),
    ];
    let err = chromium::read(rows, &KEY).unwrap_err();
    match &err {
        CookieError::Undecryptable { count, tags } => {
            assert_eq!(*count, 3);
            assert_eq!(tags, &vec![s("v12"), s("\"x")]);
        }
        other => panic!("unexpected {other:?}"),
    }
    assert_eq!(
        err.message(),
        "读到了 3 条 YouTube Cookie，但都无法解密（格式 [\"v12\", \"\\\"x\"]）。\n请改用 Firefox 导入，或选择「手动粘贴 Cookie」。"
    );
    // Without any YouTube row at all there is nothing to explain.
    assert_eq!(chromium::read(vec![], &KEY).unwrap(), vec![]);
}

fn local_state(key_b64: &str) -> String {
    format!("{{\"os_crypt\":{{\"encrypted_key\":\"{key_b64}\"}}}}")
}

#[test]
fn the_wrapped_key_is_read_from_local_state() {
    let mut raw = b"DPAPI".to_vec();
    raw.extend_from_slice(&[1, 2, 3]);
    let encoded = base64::engine::general_purpose::STANDARD.encode(&raw);
    assert_eq!(chromium::wrapped_key(&local_state(&encoded)).unwrap(), vec![1, 2, 3]);

    assert!(matches!(chromium::wrapped_key("not json"), Err(CookieError::LocalStateNotJson)));
    assert!(matches!(chromium::wrapped_key("{\"os_crypt\":{}}"), Err(CookieError::NoEncryptedKey)));
    assert!(matches!(chromium::wrapped_key(&local_state("%%%")), Err(CookieError::KeyNotBase64)));
    let plain = base64::engine::general_purpose::STANDARD.encode(b"KEY123");
    assert!(matches!(chromium::wrapped_key(&local_state(&plain)), Err(CookieError::KeyFormat)));
    assert_eq!(CookieError::KeyFormat.message(), "加密密钥格式不符合预期");
}

fn profile(display: &str, db: &str) -> BrowserProfile {
    BrowserProfile { display: s(display), store: CookieStore::Chromium, db: s(db), local_state: None }
}

#[test]
fn duplicate_labels_get_their_install_root() {
    let mut ps = vec![
        profile("Chrome (Default)", "/a/x/Default/Network/Cookies"),
        profile("Chrome (Default)", "/b/y/Default/Network/Cookies"),
        profile("Edge (Default)", "/c/z/Default/Network/Cookies"),
    ];
    disambiguate(&mut ps);
    let labels: Vec<_> = ps.iter().map(|p| p.display.as_str()).collect();
    assert_eq!(labels, ["Chrome (Default) @x", "Chrome (Default) @y", "Edge (Default)"]);
    assert_eq!(ps[1].db, "/b/y/Default/Network/Cookies");
}

#[test]
fn chromium_profiles_need_local_state() {
    let p = profile("Chrome (Default)", "/a/Default/Cookies");
    let err = local_state_path(&p).unwrap_err();
    assert_eq!(err.message(), "找不到该浏览器的 Local State 文件");
    let mut q = p.clone();
    q.local_state = Some(s("/a/Local State"));
    assert_eq!(local_state_path(&q).unwrap(), "/a/Local State");
}

#[test]
fn imported_cookies_must_sign_requests() {
    let p = profile("Chrome (Default)", "/a/Default/Cookies");
    let ok = read_cookies(&p, vec![(s("SID"), s("a")), (s("SAPISID"), s("b"))]).unwrap();
    assert_eq!(ok, "SID=a; SAPISID=b");

    let err = read_cookies(&p, vec![(s("SID"), s("a"))]).unwrap_err();
    assert_eq!(
        err.message(),
        "Chrome (Default) 尚未登录 YouTube（没有找到登录凭据）。\n请先在该浏览器登录 music.youtube.com，再回来导入。"
    );
    let err = read_cookies(&p, vec![]).unwrap_err();
    assert!(matches!(err, CookieError::Header(HeaderError::NoYoutubeCookies)));
}

#[test]
fn profile_labels_drop_the_salt() {
    assert_eq!(firefox_label("Firefox", "abcd1234.default-release"), "Firefox (default-release)");
    assert_eq!(firefox_label("Firefox", "plain"), "Firefox (plain)");
    assert_eq!(chromium_label("Chrome", "Profile 1"), "Chrome (Profile 1)");
}

#[test]
fn profile_headers_come_from_youtube_rows_only() {
    let p = profile("Firefox (x)", "/a/cookies.sqlite");
    let rows = vec![
        (s(".youtube.com"), s("SAPISID"), s("yt")),
        (s("google.com"), s("SAPISID"), s("leak")),
        (s("music.youtube.com"), s("PREF"), s("p")),
    ];
    assert_eq!(header_from_rows(&p, ProfileRows::Firefox(rows)).unwrap(), "SAPISID=yt; PREF=p");
    // Only other hosts: no YouTube cookie at all.
    let other = vec![(s("google.com"), s("SAPISID"), s("leak"))];
    assert!(matches!(
        header_from_rows(&p, ProfileRows::Firefox(other)),
        Err(CookieError::Header(HeaderError::NoYoutubeCookies))
    ));
    // Chromium: decrypted rows; a profile that is not signed in is named.
    let c = profile("Chrome (Default)", "/a/Default/Cookies");
    let rows = vec![row(".youtube.com", "SAPISID", "", seal(b"k")), row("example.com", "SID", "", seal(b"z"))];
    assert_eq!(header_from_rows(&c, ProfileRows::Chromium(rows, KEY.to_vec())).unwrap(), "SAPISID=k");
    let rows = vec![row(".youtube.com", "SID", "", seal(b"k"))];
    assert!(matches!(
        header_from_rows(&c, ProfileRows::Chromium(rows, KEY.to_vec())),
        Err(CookieError::NotSignedIn { .. })
    ));
    let mut bound = b"v20".to_vec();
    bound.extend_from_slice(&[0u8; 40]);
    let rows = vec![row(".youtube.com", "SAPISID", "", bound)];
    assert!(matches!(header_from_rows(&c, ProfileRows::Chromium(rows, KEY.to_vec())), Err(CookieError::AppBound)));
}
