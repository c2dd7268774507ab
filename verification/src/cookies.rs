//! Reading the YouTube cookies out of a browser's own cookie database.
//!
//! Two storage schemes exist: Firefox keeps values in plaintext, Chromium
//! browsers encrypt them with AES-256-GCM under a key kept in `Local State`.
//! Opening the databases is the caller's job; this module decides which rows
//! count, decrypts them, and turns the result into a `Cookie` header or an
//! actionable error.
//!
//! Security: cookie values only flow from input to output here.

use vstd::prelude::*;

use crate::login::{
    carries_credential, cookie_header_from_pairs, has_auth_credential, header_of,
    is_youtube_domain, string_pairs_view, youtube_domain, CookiePair, HeaderError,
};
use crate::cookies::chromium::{scan, CookieRow};
use crate::cookies::firefox::{firefox_pairs, FirefoxRow};
use crate::models::{decimal, push_decimal};
use crate::text::{chars_of, chars_eq, extend_chars, extend_str, string_of};

pub mod chromium;
pub mod firefox;

verus! {

/// Which on-disk cookie format a profile uses.
#[derive(Debug, Clone, Copy, PartialEq, Eq, Structural)]
pub enum CookieStore {
    Firefox,
    Chromium,
}

/// One importable browser profile.
#[derive(Debug)]
pub struct BrowserProfile {
    /// Label shown in the UI.
    pub display: String,
    pub store: CookieStore,
    /// Path to the cookie database.
    pub db: String,
    /// Chromium only: `Local State`, holding the wrapped AES key.
    pub local_state: Option<String>,
}

impl Clone for BrowserProfile {
    fn clone(&self) -> (r: Self)
        ensures
            r == *self,
    {
        BrowserProfile {
            display: self.display.clone(),
            store: self.store,
            db: self.db.clone(),
            local_state: crate::models::clone_opt_string(&self.local_state),
        }
    }
}

/// Is `host` a YouTube host (the domain itself or a subdomain, leading dots
/// ignored)? Only such cookies are ever imported.
pub fn is_youtube_host(host: &str) -> (r: bool)
    ensures
        r == youtube_domain(host@),
{
    let cs = chars_of(host);
    is_youtube_domain(&cs)
}

/// Why the cookies of a profile could not be imported.
#[derive(Debug)]
pub enum CookieError {
    /// A Chromium profile without its `Local State` file.
    MissingLocalState,
    /// No usable YouTube cookie at all.
    Header(HeaderError),
    /// YouTube cookies exist but none of them signs requests.
    NotSignedIn { display: String },
    /// Every value is bound to the browser process (App-Bound Encryption).
    AppBound,
    /// `count` values could not be decrypted; `tags` are their version tags.
    Undecryptable { count: usize, tags: Vec<String> },
    /// `Local State` is not JSON.
    LocalStateNotJson,
    /// `Local State` has no `os_crypt.encrypted_key` string.
    NoEncryptedKey,
    /// `os_crypt.encrypted_key` is not base64.
    KeyNotBase64,
    /// The decoded key does not start with the `DPAPI` tag.
    KeyFormat,
}

/// Advice appended to every decryption failure.
pub open spec fn use_firefox_advice() -> Seq<char> {
    "请改用 Firefox 导入，或选择「手动粘贴 Cookie」。"@
}

/// `t` between double quotes, `"` and `\` escaped, as `{:?}` prints it.
pub open spec fn quoted(t: Seq<char>) -> Seq<char> {
    seq!['"'] + escaped(t) + seq!['"']
}

/// `t` with `"` and `\` preceded by a backslash.
pub open spec fn escaped(t: Seq<char>) -> Seq<char>
    decreases t.len(),
{
    if t.len() == 0 {
        Seq::empty()
    } else {
        let c = t.last();
        escaped(t.drop_last()) + if c == '"' || c == '\\' {
            seq!['\\', c]
        } else {
            seq![c]
        }
    }
}

/// The quoted items joined by `", "`.
pub open spec fn quoted_items(ts: Seq<Seq<char>>) -> Seq<char>
    decreases ts.len(),
{
    if ts.len() == 0 {
        Seq::empty()
    } else if ts.len() == 1 {
        quoted(ts[0])
    } else {
        quoted_items(ts.drop_last()) + ", "@ + quoted(ts.last())
    }
}

/// A list of tags as `{:?}` prints it: `["v12", "x"]`.
pub open spec fn tag_list(ts: Seq<Seq<char>>) -> Seq<char> {
    seq!['['] + quoted_items(ts) + seq![']']
}

/// The text of each `String`.
pub open spec fn string_views(v: Seq<String>) -> Seq<Seq<char>> {
    v.map_values(|s: String| s@)
}

/// The message shown for an import error.
pub open spec fn error_text(e: CookieError) -> Seq<char> {
    match e {
        CookieError::MissingLocalState => "找不到该浏览器的 Local State 文件"@,
        CookieError::Header(_) => "没有找到 YouTube 的登录信息"@,
        CookieError::NotSignedIn { display } => display@
            + " 尚未登录 YouTube（没有找到登录凭据）。\n请先在该浏览器登录 music.youtube.com，再回来导入。"@,
        CookieError::AppBound =>
            "该浏览器启用了 App-Bound Encryption（Chrome 127+），\n密钥绑定在浏览器进程上，任何外部程序都无法解密（yt-dlp 同样不行）。\n"@
            + use_firefox_advice(),
        CookieError::Undecryptable { count, tags } => "读到了 "@ + decimal(count as nat)
            + " 条 YouTube Cookie，但都无法解密（格式 "@ + tag_list(string_views(tags@)) + "）。\n"@
            + use_firefox_advice(),
        CookieError::LocalStateNotJson => "Local State 不是合法的 JSON"@,
        CookieError::NoEncryptedKey => "Local State 里没有 os_crypt.encrypted_key"@,
        CookieError::KeyNotBase64 => "os_crypt.encrypted_key 不是合法的 base64"@,
        CookieError::KeyFormat => "加密密钥格式不符合预期"@,
    }
}

/// Appends `quoted(t)` to `out`.
fn push_quoted(out: &mut Vec<char>, t: &str)
    ensures
        final(out)@ == old(out)@ + quoted(t@),
{
    let cs = chars_of(t);
    let ghost start = out@;
    out.push('"');
    let mut i: usize = 0;
    while i < cs.len()
        invariant
            i <= cs@.len(),
            cs@ == t@,
            out@ == start + seq!['"'] + escaped(cs@.take(i as int)),
        decreases cs.len() - i,
    {
        let c = cs[i];
        proof {
            assert(cs@.take(i + 1).drop_last() =~= cs@.take(i as int));
            assert(cs@.take(i + 1).last() == c);
        }
        if c == '"' || c == '\\' {
            out.push('\\');
        }
        out.push(c);
        proof {
            if c == '"' || c == '\\' {
                assert(out@ =~= start + seq!['"'] + escaped(cs@.take(i + 1)));
            } else {
                assert(out@ =~= start + seq!['"'] + escaped(cs@.take(i + 1)));
            }
        }
        i = i + 1;
    }
    out.push('"');
    proof {
        assert(cs@.take(i as int) =~= t@);
        assert(out@ =~= start + quoted(t@));
    }
}

/// Appends `tag_list` of `tags` to `out`.
fn push_tag_list(out: &mut Vec<char>, tags: &Vec<String>)
    ensures
        final(out)@ == old(out)@ + tag_list(string_views(tags@)),
{
    let ghost start = out@;
    let ghost tv = string_views(tags@);
    out.push('[');
    let mut i: usize = 0;
    while i < tags.len()
        invariant
            i <= tags@.len(),
            tv == string_views(tags@),
            out@ == start + seq!['['] + quoted_items(tv.take(i as int)),
        decreases tags.len() - i,
    {
        proof {
            assert(tv.take(i + 1).drop_last() =~= tv.take(i as int));
            assert(tv.take(i + 1).last() == tags@[i as int]@);
        }
        if i > 0 {
            extend_str(out, ", ");
        }
        push_quoted(out, tags[i].as_str());
        proof {
            if i == 0 {
                assert(tv.take(1)[0] == tags@[0]@);
                assert(out@ =~= start + seq!['['] + quoted_items(tv.take(i + 1)));
            } else {
                assert(out@ =~= start + seq!['['] + quoted_items(tv.take(i + 1)));
            }
        }
        i = i + 1;
    }
    out.push(']');
    proof {
        assert(tv.take(i as int) =~= tv);
        assert(out@ =~= start + tag_list(tv));
    }
}

impl CookieError {
    /// The message shown to the user.
    pub fn message(&self) -> (r: String)
        ensures
            r@ == error_text(*self),
    {
        match self {
            CookieError::MissingLocalState => "找不到该浏览器的 Local State 文件".to_owned(),
            CookieError::Header(_) => "没有找到 YouTube 的登录信息".to_owned(),
            CookieError::NotSignedIn { display } => {
                let mut out = chars_of(display.as_str());
                extend_str(
                    &mut out,
                    " 尚未登录 YouTube（没有找到登录凭据）。\n请先在该浏览器登录 music.youtube.com，再回来导入。",
                );
                string_of(&out)
            },
            CookieError::AppBound => {
                let mut out: Vec<char> = Vec::new();
                extend_str(
                    &mut out,
                    "该浏览器启用了 App-Bound Encryption（Chrome 127+），\n密钥绑定在浏览器进程上，任何外部程序都无法解密（yt-dlp 同样不行）。\n",
                );
                extend_str(&mut out, "请改用 Firefox 导入，或选择「手动粘贴 Cookie」。");
                proof {
                    assert(out@ =~= error_text(*self));
                }
                string_of(&out)
            },
            CookieError::Undecryptable { count, tags } => {
                let mut out: Vec<char> = Vec::new();
                extend_str(&mut out, "读到了 ");
                push_decimal(&mut out, *count as u64);
                extend_str(&mut out, " 条 YouTube Cookie，但都无法解密（格式 ");
                push_tag_list(&mut out, tags);
                extend_str(&mut out, "）。\n");
                extend_str(&mut out, "请改用 Firefox 导入，或选择「手动粘贴 Cookie」。");
                proof {
                    assert(out@ =~= error_text(*self));
                }
                string_of(&out)
            },
            CookieError::LocalStateNotJson => "Local State 不是合法的 JSON".to_owned(),
            CookieError::NoEncryptedKey => "Local State 里没有 os_crypt.encrypted_key".to_owned(),
            CookieError::KeyNotBase64 => "os_crypt.encrypted_key 不是合法的 base64".to_owned(),
            CookieError::KeyFormat => "加密密钥格式不符合预期".to_owned(),
        }
    }
}

/// The parent directory of `path`, as `std::path::Path::parent` computes it
/// on the platform the program was built for.
pub uninterp spec fn parent_of(path: Seq<char>) -> Option<Seq<char>>;

/// The last component of `path`, as `std::path::Path::file_name` computes
/// it on the platform the program was built for.
pub uninterp spec fn file_name_of(path: Seq<char>) -> Option<Seq<char>>;

/// `std::path::Path::parent`; the result is named [`parent_of`]. The parent
/// of a UTF-8 path is UTF-8, so the conversion back to `String` loses
/// nothing.
#[verifier::external_body]
fn path_parent(path: &str) -> (r: Option<String>)
    ensures
        match r {
            Some(p) => parent_of(path@) == Some(p@),
            None => parent_of(path@) is None,
        },
{
    std::path::Path::new(path).parent().map(|p| p.to_string_lossy().into_owned())
}

/// `std::path::Path::file_name`; the result is named [`file_name_of`].
#[verifier::external_body]
fn path_file_name(path: &str) -> (r: Option<String>)
    ensures
        match r {
            Some(n) => file_name_of(path@) == Some(n@),
            None => file_name_of(path@) is None,
        },
{
    std::path::Path::new(path).file_name().map(|n| n.to_string_lossy().into_owned())
}

/// The name of the directory three levels above the database: the install
/// root, which is what differs between two installs of one browser.
pub open spec fn install_hint(db: Seq<char>) -> Option<Seq<char>> {
    match parent_of(db) {
        Some(a) => match parent_of(a) {
            Some(b) => match parent_of(b) {
                Some(c) => file_name_of(c),
                None => None,
            },
            None => None,
        },
        None => None,
    }
}

fn install_hint_of(db: &String) -> (r: Option<String>)
    ensures
        match r {
            Some(h) => install_hint(db@) == Some(h@),
            None => install_hint(db@) is None,
        },
{
    let a = path_parent(db.as_str());
    match a {
        Some(a) => {
            let b = path_parent(a.as_str());
            match b {
                Some(b) => {
                    let c = path_parent(b.as_str());
                    match c {
                        Some(c) => path_file_name(c.as_str()),
                        None => None,
                    }
                },
                None => None,
            }
        },
        None => None,
    }
}

/// Another profile of `ps` carries the same label as `ps[i]`.
pub open spec fn shared_label(ps: Seq<BrowserProfile>, i: int) -> bool {
    exists|j: int| 0 <= j < ps.len() && j != i && #[trigger] ps[j].display@ == ps[i].display@
}

/// The label `p` ends up with when its label is not unique.
pub open spec fn hinted_label(p: BrowserProfile) -> Seq<char> {
    match install_hint(p.db@) {
        Some(h) => p.display@ + " @"@ + h,
        None => p.display@,
    }
}

/// `q` is `p` with the label `label`, everything else unchanged.
pub open spec fn relabelled(p: BrowserProfile, q: BrowserProfile, label: Seq<char>) -> bool {
    &&& q.display@ == label
    &&& q.store == p.store
    &&& q.db == p.db
    &&& q.local_state == p.local_state
}

/// The same browser can be installed twice (e.g. by a package manager and
/// per user), which would give two rows with one label. Every profile whose
/// label is not unique gets ` @<install root>` appended; unique labels stay.
pub fn disambiguate(profiles: &mut Vec<BrowserProfile>)
    ensures
        final(profiles)@.len() == old(profiles)@.len(),
        forall|i: int| 0 <= i < old(profiles)@.len() ==> relabelled(
            old(profiles)@[i],
            #[trigger] final(profiles)@[i],
            if shared_label(old(profiles)@, i) {
                hinted_label(old(profiles)@[i])
            } else {
                old(profiles)@[i].display@
            },
        ),
{
    let ghost ps = profiles@;
    let n = profiles.len();
    let mut labels: Vec<String> = Vec::new();
    let mut i: usize = 0;
    while i < n
        invariant
            i <= n,
            n == ps.len(),
            profiles@ == ps,
            labels@.len() == i,
            forall|k: int| 0 <= k < i ==> #[trigger] labels@[k]@ == ps[k].display@,
        decreases n - i,
    {
        labels.push(profiles[i].display.clone());
        i = i + 1;
    }
    let mut rest: Vec<BrowserProfile> = Vec::new();
    std::mem::swap(&mut rest, profiles);
    let mut done: Vec<BrowserProfile> = Vec::new();
    let mut i: usize = 0;
    proof {
        assert(rest@.skip(0) =~= ps);
    }
    while i < n
        invariant
            i <= n,
            n == ps.len(),
            labels@.len() == n,
            forall|k: int| 0 <= k < n ==> #[trigger] labels@[k]@ == ps[k].display@,
            rest@ == ps.skip(i as int),
            done@.len() == i,
            forall|k: int| 0 <= k < i ==> relabelled(
                ps[k],
                #[trigger] done@[k],
                if shared_label(ps, k) {
                    hinted_label(ps[k])
                } else {
                    ps[k].display@
                },
            ),
        decreases n - i,
    {
        let p = rest.remove(0);
        proof {
            assert(p == ps[i as int]);
            assert(rest@ =~= ps.skip(i + 1));
        }
        let mut shared = false;
        let mut j: usize = 0;
        while j < n
            invariant
                j <= n,
                i < n,
                n == ps.len(),
                labels@.len() == n,
                forall|k: int| 0 <= k < n ==> #[trigger] labels@[k]@ == ps[k].display@,
                shared ==> shared_label(ps, i as int),
                !shared ==> forall|k: int| 0 <= k < j && k != i ==> ps[k].display@ != ps[i as int].display@,
            decreases n - j,
        {
            if j != i && labels[j] == labels[i] {
                proof {
                    assert(ps[j as int].display@ == ps[i as int].display@);
                }
                shared = true;
            }
            j = j + 1;
        }
        let mut q = p;
        if shared {
            match install_hint_of(&q.db) {
                Some(h) => {
                    let mut out = chars_of(q.display.as_str());
                    extend_str(&mut out, " @");
                    extend_str(&mut out, h.as_str());
                    q.display = string_of(&out);
                },
                None => {},
            }
        }
        proof {
            if !shared {
                assert(!shared_label(ps, i as int));
            }
        }
        done.push(q);
        proof {
            assert forall|k: int| 0 <= k < i + 1 implies relabelled(
                ps[k],
                #[trigger] done@[k],
                if shared_label(ps, k) {
                    hinted_label(ps[k])
                } else {
                    ps[k].display@
                },
            ) by {
                if k == i {
                    assert(done@[k] == q);
                }
            }
        }
        i = i + 1;
    }
    *profiles = done;
}

/// The `Local State` file of a Chromium profile, which holds its key.
pub fn local_state_path(profile: &BrowserProfile) -> (r: Result<String, CookieError>)
    ensures
        match profile.local_state {
            Some(p) => r matches Ok(q) && q == p,
            None => r matches Err(CookieError::MissingLocalState),
        },
{
    match &profile.local_state {
        Some(p) => Ok(p.clone()),
        None => Err(CookieError::MissingLocalState),
    }
}

/// `r` is what the imported pairs `ps` of the profile labelled `display`
/// come to: the header when it carries the signing credential; otherwise
/// why not.
pub open spec fn header_result(display: Seq<char>, ps: Seq<CookiePair>, r: Result<String, CookieError>) -> bool {
    match header_of(ps) {
        None => r matches Err(CookieError::Header(HeaderError::NoYoutubeCookies)),
        Some(h) => if carries_credential(h) {
            r matches Ok(s) && s@ == h
        } else {
            r matches Err(CookieError::NotSignedIn { display: d }) && d@ == display
        },
    }
}

/// The rows read from a profile's cookie database: Firefox's
/// `(host, name, value)` rows, or Chromium's rows with the profile's
/// unwrapped AES key.
pub enum ProfileRows {
    Firefox(Vec<FirefoxRow>),
    Chromium(Vec<CookieRow>, Vec<u8>),
}

/// The `Cookie` header of a profile from the rows of its database. Only
/// rows of YouTube hosts count (Firefox: as stored; Chromium: decrypted
/// with `key`); a Chromium read where nothing could be decrypted reports
/// why; otherwise the header must carry the signing credential.
pub fn header_from_rows(profile: &BrowserProfile, rows: ProfileRows) -> (r: Result<String, CookieError>)
    ensures
        match rows {
            ProfileRows::Firefox(fr) => header_result(profile.display@, firefox_pairs(fr@), r),
            ProfileRows::Chromium(cr, key) => {
                let (ps, ab, un, tags) = scan(cr@, key@);
                if ps.len() == 0 && ab > 0 {
                    r matches Err(CookieError::AppBound)
                } else if ps.len() == 0 && un > 0 {
                    r matches Err(CookieError::Undecryptable { count, tags: t }) && count == un
                        && string_views(t@) == tags
                } else {
                    header_result(profile.display@, ps, r)
                }
            },
        },
{
    match rows {
        ProfileRows::Firefox(fr) => {
            let pairs = firefox::read(fr);
            read_cookies(profile, pairs)
        },
        ProfileRows::Chromium(cr, key) => {
            match chromium::read(cr, key.as_slice()) {
                Err(e) => Err(e),
                Ok(pairs) => read_cookies(profile, pairs),
            }
        },
    }
}

/// Turn the (name, value) cookies read from `profile` into a `Cookie`
/// header. Fails when no YouTube cookie was found, and when the cookies do
/// not include the credential requests are signed with (the browser is not
/// signed in), naming the profile.
pub fn read_cookies(profile: &BrowserProfile, pairs: Vec<(String, String)>) -> (r: Result<String, CookieError>)
    ensures
        header_result(profile.display@, string_pairs_view(pairs@), r),
{
    match cookie_header_from_pairs(pairs) {
        Err(e) => Err(CookieError::Header(e)),
        Ok(header) => {
            if has_auth_credential(header.as_str()) {
                Ok(header)
            } else {
                Err(CookieError::NotSignedIn { display: profile.display.clone() })
            }
        },
    }
}

/// The label of a Firefox profile directory `<salt>.<name>`: the browser's
/// name and the part after the first dot (the salt is noise), or the whole
/// directory name when it has no dot.
pub open spec fn firefox_label_text(display: Seq<char>, dir_name: Seq<char>) -> Seq<char> {
    let label = match crate::text::split_once_spec(dir_name, '.') {
        Some((_, l)) => l,
        None => dir_name,
    };
    display + " ("@ + label + ")"@
}

/// The UI label of a Firefox profile kept in directory `dir_name`.
pub fn firefox_label(display: &str, dir_name: &str) -> (r: String)
    ensures
        r@ == firefox_label_text(display@, dir_name@),
{
    let name = chars_of(dir_name);
    let n = name.len();
    let found = crate::text::find_char(&name, '.');
    let label = match found {
        Some(k) => crate::text::sub_chars(&name, k + 1, n),
        None => name,
    };
    let mut out = chars_of(display);
    extend_str(&mut out, " (");
    extend_chars(&mut out, &label);
    extend_str(&mut out, ")");
    string_of(&out)
}

/// The UI label of a Chromium profile kept in directory `dir_name`.
pub fn chromium_label(display: &str, dir_name: &str) -> (r: String)
    ensures
        r@ == display@ + " ("@ + dir_name@ + ")"@,
{
    let mut out = chars_of(display);
    extend_str(&mut out, " (");
    extend_str(&mut out, dir_name);
    extend_str(&mut out, ")");
    string_of(&out)
}

} // verus!
