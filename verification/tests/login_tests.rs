use ytbm_tui::login::{
    cookie_header_from_netscape, explain_empty, explain_failure, export_outcome, has_auth_credential,
    shorten,
};

#[test]
fn shorten_keeps_tail_of_long_paths() {
    let long = "D:/Users/Somebody/scoop/persist/vivaldi/User Data/Default/Network";
    let s = shorten(long, false);
    assert!(s.starts_with(".."));
    assert!(s.ends_with("Network"));
    assert!(s.chars().count() <= 38);
}

#[test]
fn shorten_normalizes_separators() {
    assert_eq!(shorten("C:/a/b", true), "C:\\a\\b");
}

/// Rows mirror real yt-dlp output: header comments, a `#HttpOnly_`
/// prefix, unrelated domains, a subdomain row, and a short line.
const SAMPLE: &str = "# Netscape HTTP Cookie File\n\
     # This file is generated by yt-dlp.\n\
     \n\
     .google.com\tTRUE\t/\tTRUE\t0\tSAPISID\tgoogle-value\n\
     #HttpOnly_.youtube.com\tTRUE\t/\tTRUE\t0\tSAPISID\tyt-value\n\
     .youtube.com\tTRUE\t/\tTRUE\t0\tLOGIN_INFO\tinfo\n\
     music.youtube.com\tFALSE\t/\tTRUE\t0\tPREF\tpref-value\n\
     truncated-line\n";

#[test]
fn netscape_parser_keeps_youtube_cookies_only() {
    let header = cookie_header_from_netscape(SAMPLE).expect("should parse");
    assert!(header.contains("SAPISID=yt-value"));
    assert!(header.contains("LOGIN_INFO=info"));
    // Host-only subdomain rows count too.
    assert!(header.contains("PREF=pref-value"));
    // Other domains never leak in, even with the same cookie name.
    assert!(!header.contains("google-value"));
}

#[test]
fn netscape_parser_reports_when_no_youtube_cookies() {
    let only_other = ".google.com\tTRUE\t/\tTRUE\t0\tSAPISID\tv\n";
    assert!(cookie_header_from_netscape(only_other).is_err());
}

#[test]
fn auth_credential_detection() {
    assert!(has_auth_credential("SAPISID=abc; PREF=x"));
    // Present but empty is not a credential.
    assert!(!has_auth_credential("SAPISID=; PREF=x"));
    // Logged-out profiles carry these but cannot authenticate.
    assert!(!has_auth_credential("VISITOR_INFO1_LIVE=x; YSC=y; PREF=z"));
    // The alias alone is not what the signing code looks up.
    assert!(!has_auth_credential("__Secure-3PAPISID=abc"));
}

#[test]
fn secure_papisid_is_mirrored_as_sapisid() {
    let firefox_style = ".youtube.com\tTRUE\t/\tTRUE\t0\t__Secure-3PAPISID\tsecret\n\
         .youtube.com\tTRUE\t/\tTRUE\t0\tSID\tsid-value\n";
    let header = cookie_header_from_netscape(firefox_style).unwrap();
    assert!(header.contains("SAPISID=secret"));
    assert!(has_auth_credential(&header));
}

#[test]
fn existing_sapisid_is_not_overwritten() {
    let both = ".youtube.com\tTRUE\t/\tTRUE\t0\tSAPISID\treal\n\
                .youtube.com\tTRUE\t/\tTRUE\t0\t__Secure-3PAPISID\talias\n";
    let header = cookie_header_from_netscape(both).unwrap();
    assert!(header.contains("SAPISID=real"));
    assert!(!header.contains("SAPISID=alias"), "real value was clobbered");
    assert!(header.contains("__Secure-3PAPISID=alias"), "alias was dropped");
}

#[test]
fn failure_hints_are_actionable() {
    assert!(explain_failure("chrome:X", "ERROR: could not copy Cookies").contains("关闭该浏览器"));
    assert!(explain_failure("chrome:X", "Failed to decrypt with DPAPI").contains("Firefox"));
    assert!(explain_empty("firefox").contains("尚未登录"));
}

#[test]
fn export_outcome_picks_header_or_message() {
    // A written file with the credential gives the header.
    let header = export_outcome(Some(SAMPLE.to_string()), "", "chrome").expect("header");
    assert_eq!(header, cookie_header_from_netscape(SAMPLE).unwrap());
    // No file: the message comes from stderr.
    assert_eq!(
        export_outcome(None, "ERROR: could not copy Cookies", "chrome:X"),
        Err(explain_failure("chrome:X", "ERROR: could not copy Cookies"))
    );
    // A file without YouTube cookies, or without the credential.
    let only_other = ".google.com\tTRUE\t/\tTRUE\t0\tSAPISID\tv\n";
    assert_eq!(export_outcome(Some(only_other.to_string()), "", "firefox"), Err(explain_empty("firefox")));
    let logged_out = ".youtube.com\tTRUE\t/\tTRUE\t0\tPREF\tx\n";
    assert_eq!(export_outcome(Some(logged_out.to_string()), "", "firefox"), Err(explain_empty("firefox")));
}

#[test]
fn failure_messages_read_stderr_case_blind() {
    assert_eq!(
        explain_failure("chrome:Default", "ERROR: Permission denied"),
        "无法读取 chrome 的 Cookie 数据库，请先完全关闭该浏览器再重试。"
    );
}
