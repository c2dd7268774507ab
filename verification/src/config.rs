//! User configuration: defaults, and the key names accepted in `[keys]`.

use vstd::prelude::*;

use crate::text::{chars_eq, chars_of, string_of, trim, trim_ws};

verus! {

/// A key of the keyboard, as far as key bindings care.
#[derive(Debug, Clone, Copy, PartialEq, Eq, Hash, Structural)]
pub enum KeyName {
    Char(char),
    Tab,
    BackTab,
    Enter,
    Esc,
    Backspace,
    Delete,
    Left,
    Right,
    Up,
    Down,
    Home,
    End,
    PageUp,
    PageDown,
    F(u8),
    /// Any other key; never bound.
    Other,
}

/// `c` with `A`..`Z` mapped to `a`..`z`.
pub open spec fn ascii_lower(c: char) -> char {
    if 'A' <= c <= 'Z' {
        ((c as u32) + 32) as char
    } else {
        c
    }
}

/// `s` with ASCII letters lower-cased, everything else kept.
pub open spec fn ascii_lowercase(s: Seq<char>) -> Seq<char> {
    s.map_values(|c: char| ascii_lower(c))
}

fn lower_char(c: char) -> (r: char)
    ensures
        r == ascii_lower(c),
{
    if 'A' <= c && c <= 'Z' {
        let ci: u32 = c as u32;
        let b: u8 = ci as u8;
        (b + 32) as char
    } else {
        c
    }
}

fn lowercase_chars(s: &Vec<char>) -> (r: Vec<char>)
    ensures
        r@ == ascii_lowercase(s@),
{
    let mut r: Vec<char> = Vec::new();
    let mut i: usize = 0;
    while i < s.len()
        invariant
            i <= s@.len(),
            r@ == ascii_lowercase(s@.take(i as int)),
        decreases s.len() - i,
    {
        r.push(lower_char(s[i]));
        proof {
            assert(r@ =~= ascii_lowercase(s@.take(i + 1)));
        }
        i = i + 1;
    }
    proof {
        assert(s@.take(i as int) =~= s@);
    }
    r
}

/// The named keys, by their lower-case name.
pub open spec fn named_key(name: Seq<char>) -> Option<KeyName> {
    if name == "space"@ {
        Some(KeyName::Char(' '))
    } else if name == "tab"@ {
        Some(KeyName::Tab)
    } else if name == "enter"@ {
        Some(KeyName::Enter)
    } else if name == "esc"@ || name == "escape"@ {
        Some(KeyName::Esc)
    } else if name == "left"@ {
        Some(KeyName::Left)
    } else if name == "right"@ {
        Some(KeyName::Right)
    } else if name == "up"@ {
        Some(KeyName::Up)
    } else if name == "down"@ {
        Some(KeyName::Down)
    } else {
        None
    }
}

/// The key a `[keys]` value names: a named key (any case, surrounding
/// whitespace ignored) or a single character.
pub open spec fn key_named(s: Seq<char>) -> Option<KeyName> {
    let t = trim_ws(s);
    match named_key(ascii_lowercase(t)) {
        Some(k) => Some(k),
        None => if t.len() == 1 {
            Some(KeyName::Char(t[0]))
        } else {
            None
        },
    }
}

fn is_word(cs: &Vec<char>, w: &str) -> (r: bool)
    ensures
        r == (cs@ == w@),
{
    let wc = chars_of(w);
    chars_eq(cs, &wc)
}

/// Parse a `[keys]` value: a single character, or one of `space`, `tab`,
/// `enter`, `esc`/`escape`, `left`, `right`, `up`, `down`.
pub fn parse_key(s: &str) -> (r: Option<KeyName>)
    ensures
        r == key_named(s@),
{
    let cs = chars_of(s);
    let t = trim(&cs);
    let lower = lowercase_chars(&t);
    if is_word(&lower, "space") {
        Some(KeyName::Char(' '))
    } else if is_word(&lower, "tab") {
        Some(KeyName::Tab)
    } else if is_word(&lower, "enter") {
        Some(KeyName::Enter)
    } else if is_word(&lower, "esc") || is_word(&lower, "escape") {
        Some(KeyName::Esc)
    } else if is_word(&lower, "left") {
        Some(KeyName::Left)
    } else if is_word(&lower, "right") {
        Some(KeyName::Right)
    } else if is_word(&lower, "up") {
        Some(KeyName::Up)
    } else if is_word(&lower, "down") {
        Some(KeyName::Down)
    } else if t.len() == 1 {
        Some(KeyName::Char(t[0]))
    } else {
        None
    }
}

/// `[playback]`.
#[derive(Debug)]
pub struct Playback {
    pub mpv_path: String,
    pub volume: i64,
    /// Refill the queue with radio tracks when it runs low.
    pub radio_auto: bool,
}

impl Default for Playback {
    fn default() -> (r: Self)
        ensures
            r.mpv_path@ == "mpv"@,
            r.volume == 70,
            r.radio_auto,
    {
        Playback { mpv_path: "mpv".to_owned(), volume: 70, radio_auto: true }
    }
}

/// `[sponsorblock]`.
#[derive(Debug)]
pub struct SponsorBlock {
    pub enabled: bool,
    pub categories: Vec<String>,
}

impl Default for SponsorBlock {
    fn default() -> (r: Self)
        ensures
            r.enabled,
            r.categories@.len() == 4,
            r.categories@[0]@ == "sponsor"@,
            r.categories@[1]@ == "selfpromo"@,
            r.categories@[2]@ == "interaction"@,
            r.categories@[3]@ == "music_offtopic"@,
    {
        let mut categories: Vec<String> = Vec::new();
        categories.push("sponsor".to_owned());
        categories.push("selfpromo".to_owned());
        categories.push("interaction".to_owned());
        categories.push("music_offtopic".to_owned());
        SponsorBlock { enabled: true, categories }
    }
}

/// `[lyrics]`.
#[derive(Debug)]
pub struct Lyrics {
    pub enabled: bool,
}

impl Default for Lyrics {
    fn default() -> (r: Self)
        ensures
            r.enabled,
    {
        Lyrics { enabled: true }
    }
}

/// The whole configuration file.
#[derive(Debug)]
pub struct Config {
    pub playback: Playback,
    pub sponsorblock: SponsorBlock,
    pub lyrics: Lyrics,
    /// Global-key overrides as (action name, key), e.g. `("next", "b")`;
    /// see [`parse_key`].
    pub keys: Vec<(String, String)>,
    /// yt-dlp path resolved at startup - not read from the file.
    pub ytdlp_path: Option<String>,
}

impl Default for Config {
    fn default() -> (r: Self)
        ensures
            r.playback.mpv_path@ == "mpv"@,
            r.playback.volume == 70,
            r.playback.radio_auto,
            r.sponsorblock.enabled,
            r.sponsorblock.categories@.len() == 4,
            r.sponsorblock.categories@[0]@ == "sponsor"@,
            r.sponsorblock.categories@[1]@ == "selfpromo"@,
            r.sponsorblock.categories@[2]@ == "interaction"@,
            r.sponsorblock.categories@[3]@ == "music_offtopic"@,
            r.lyrics.enabled,
            r.keys@.len() == 0,
            r.ytdlp_path is None,
    {
        Config {
            playback: Playback::default(),
            sponsorblock: SponsorBlock::default(),
            lyrics: Lyrics::default(),
            keys: Vec::new(),
            ytdlp_path: None,
        }
    }
}

/// The key text configured for the action named `name`, if any (the first
/// entry wins; a configuration file names each action once).
pub open spec fn override_of(keys: Seq<(String, String)>, name: Seq<char>) -> Option<Seq<char>>
    decreases keys.len(),
{
    if keys.len() == 0 {
        None
    } else {
        match override_of(keys.drop_last(), name) {
            Some(v) => Some(v),
            None => if keys.last().0@ == name {
                Some(keys.last().1@)
            } else {
                None
            },
        }
    }
}

/// Look up the override configured for the action named `name`.
pub fn key_override(keys: &Vec<(String, String)>, name: &str) -> (r: Option<String>)
    ensures
        match override_of(keys@, name@) {
            Some(v) => r matches Some(s) && s@ == v,
            None => r is None,
        },
{
    let n = chars_of(name);
    let mut i: usize = 0;
    while i < keys.len()
        invariant
            i <= keys@.len(),
            n@ == name@,
            override_of(keys@.take(i as int), name@) is None,
        decreases keys.len() - i,
    {
        proof {
            assert(keys@.take(i + 1).drop_last() =~= keys@.take(i as int));
            assert(keys@.take(i + 1).last() == keys@[i as int]);
        }
        let k = chars_of(keys[i].0.as_str());
        if chars_eq(&k, &n) {
            proof {
                lemma_override_prefix(keys@, i as int + 1, name@);
            }
            return Some(keys[i].1.clone());
        }
        i = i + 1;
    }
    proof {
        assert(keys@.take(i as int) =~= keys@);
    }
    None
}

/// Once a prefix of `keys` names an override, the whole does too.
proof fn lemma_override_prefix(keys: Seq<(String, String)>, k: int, name: Seq<char>)
    requires
        0 <= k <= keys.len(),
    ensures
        override_of(keys.take(k), name) is Some ==> override_of(keys, name) == override_of(keys.take(k), name),
    decreases keys.len() - k,
{
    if k < keys.len() {
        lemma_override_prefix(keys, k + 1, name);
        assert(keys.take(k + 1).drop_last() =~= keys.take(k));
    } else {
        assert(keys.take(k) =~= keys);
    }
}

/// The path `base` joined with `part` as `std::path::Path::join` builds it
/// on the platform the program was built for.
pub uninterp spec fn path_joined(base: Seq<char>, part: Seq<char>) -> Seq<char>;

/// `std::path::Path::join`, back as text (both parts are text, so the
/// result is). The result is named [`path_joined`].
#[verifier::external_body]
fn path_join(base: &str, part: &str) -> (r: String)
    ensures
        r@ == path_joined(base@, part@),
{
    std::path::Path::new(base).join(part).to_string_lossy().into_owned()
}

/// `<exe_name>.exe`.
pub open spec fn exe_file(exe_name: Seq<char>) -> Seq<char> {
    exe_name + ".exe"@
}

/// Where to look for an external tool, in order: the configured path (when
/// it is not just the bare name), the bare name (the `PATH`), the package
/// manager's app and shim directories, `Program Files`, and the WinGet
/// links directory.
pub open spec fn tool_candidate_list(
    configured: Seq<char>,
    exe_name: Seq<char>,
    scoop_pkg: Seq<char>,
    scoop_root: Option<Seq<char>>,
    program_files: Option<Seq<char>>,
    local_app_data: Option<Seq<char>>,
) -> Seq<Seq<char>> {
    let first: Seq<Seq<char>> = if configured != exe_name { seq![configured] } else { Seq::empty() };
    let scoop: Seq<Seq<char>> = match scoop_root {
        Some(root) => seq![
            path_joined(path_joined(path_joined(path_joined(root, "apps"@), scoop_pkg), "current"@), exe_file(exe_name)),
            path_joined(path_joined(root, "shims"@), exe_file(exe_name)),
        ],
        None => Seq::empty(),
    };
    let pf: Seq<Seq<char>> = match program_files {
        Some(d) => seq![d + "\\"@ + exe_name + "\\"@ + exe_file(exe_name)],
        None => Seq::empty(),
    };
    let lad: Seq<Seq<char>> = match local_app_data {
        Some(d) => seq![d + "\\Microsoft\\WinGet\\Links\\"@ + exe_file(exe_name)],
        None => Seq::empty(),
    };
    first + seq![exe_name] + scoop + pf + lad
}

fn text_of(parts: &Vec<&str>) -> (r: String)
    ensures
        r@ == (if parts@.len() == 0 { Seq::empty() } else { crate::config::concat_all(parts@.map_values(|p: &str| p@)) }),
{
    let mut out: Vec<char> = Vec::new();
    let mut i: usize = 0;
    let ghost v = parts@.map_values(|p: &str| p@);
    while i < parts.len()
        invariant
            i <= parts@.len(),
            v == parts@.map_values(|p: &str| p@),
            out@ == concat_all(v.take(i as int)),
        decreases parts.len() - i,
    {
        crate::text::extend_str(&mut out, parts[i]);
        proof {
            assert(v.take(i + 1).drop_last() =~= v.take(i as int));
        }
        i = i + 1;
    }
    proof {
        assert(v.take(i as int) =~= v);
        if parts@.len() == 0 {
            assert(out@ =~= Seq::<char>::empty());
        }
    }
    string_of(&out)
}

/// The pieces joined end to end.
pub open spec fn concat_all(ps: Seq<Seq<char>>) -> Seq<char>
    decreases ps.len(),
{
    if ps.len() == 0 {
        Seq::empty()
    } else {
        concat_all(ps.drop_last()) + ps.last()
    }
}

/// Where to look for an external tool (see [`tool_candidate_list`]); the
/// first candidate that answers `--version` is the one to use.
pub fn tool_candidates(
    configured: &str,
    exe_name: &str,
    scoop_pkg: &str,
    scoop_root: Option<String>,
    program_files: Option<String>,
    local_app_data: Option<String>,
) -> (r: Vec<String>)
    ensures
        r@.map_values(|c: String| c@) == tool_candidate_list(
            configured@,
            exe_name@,
            scoop_pkg@,
            match scoop_root { Some(x) => Some(x@), None => None },
            match program_files { Some(x) => Some(x@), None => None },
            match local_app_data { Some(x) => Some(x@), None => None },
        ),
{
    let mut out: Vec<String> = Vec::new();
    let exe_c = chars_of(exe_name);
    let conf_c = chars_of(configured);
    if !chars_eq(&conf_c, &exe_c) {
        out.push(configured.to_owned());
    }
    out.push(exe_name.to_owned());
    let exe = text_of(&vec![exe_name, ".exe"]);
    proof {
        assert(exe@ == exe_file(exe_name@)) by {
            reveal_with_fuel(concat_all, 3);
        }
    }
    match &scoop_root {
        Some(root) => {
            let a = path_join(root.as_str(), "apps");
            let b = path_join(a.as_str(), scoop_pkg);
            let c = path_join(b.as_str(), "current");
            out.push(path_join(c.as_str(), exe.as_str()));
            let d = path_join(root.as_str(), "shims");
            out.push(path_join(d.as_str(), exe.as_str()));
        },
        None => {},
    }
    match &program_files {
        Some(pf) => {
            let t = text_of(&vec![pf.as_str(), "\\", exe_name, "\\", exe.as_str()]);
            proof {
                reveal_with_fuel(concat_all, 6);
            }
            out.push(t);
        },
        None => {},
    }
    match &local_app_data {
        Some(lad) => {
            let t = text_of(&vec![lad.as_str(), "\\Microsoft\\WinGet\\Links\\", exe.as_str()]);
            proof {
                reveal_with_fuel(concat_all, 4);
            }
            out.push(t);
        },
        None => {},
    }
    proof {
        let want = tool_candidate_list(
            configured@,
            exe_name@,
            scoop_pkg@,
            match scoop_root { Some(x) => Some(x@), None => None },
            match program_files { Some(x) => Some(x@), None => None },
            match local_app_data { Some(x) => Some(x@), None => None },
        );
        assert(out@.map_values(|c: String| c@) =~= want);
    }
    out
}

/// Why the program cannot start.
#[derive(Debug, Clone, Copy, PartialEq, Eq, Structural)]
pub enum PreflightError {
    /// mpv, the audio engine, was not found.
    MpvMissing,
}

impl PreflightError {
    pub fn message(&self) -> (r: String)
        ensures
            r@ == "未检测到 mpv（已尝试 PATH、scoop、Program Files）。\n\nmpv 是本程序的音频引擎，请先安装：\n    scoop install mpv   （或 winget install mpv）\n\n若安装在特殊位置，请在配置文件中设置 playback.mpv_path 为完整路径。"@,
    {
        "未检测到 mpv（已尝试 PATH、scoop、Program Files）。\n\nmpv 是本程序的音频引擎，请先安装：\n    scoop install mpv   （或 winget install mpv）\n\n若安装在特殊位置，请在配置文件中设置 playback.mpv_path 为完整路径。".to_owned()
    }
}

/// Record where the tools were found. mpv is required (it plays the audio);
/// yt-dlp is optional (cookie import, and a fallback resolver for the
/// player). Returns the warning to show at start-up, if any.
pub fn preflight(cfg: &mut Config, mpv: Option<String>, ytdlp: Option<String>) -> (r: Result<Option<String>, PreflightError>)
    ensures
        mpv is None ==> r == Err::<Option<String>, PreflightError>(PreflightError::MpvMissing)
            && final(cfg).playback.mpv_path == old(cfg).playback.mpv_path
            && final(cfg).ytdlp_path == old(cfg).ytdlp_path,
        mpv matches Some(p) ==> {
            &&& r == Ok::<Option<String>, PreflightError>(None)
            &&& final(cfg).playback.mpv_path == p
            &&& final(cfg).ytdlp_path == (if ytdlp is Some { ytdlp } else { old(cfg).ytdlp_path })
        },
        final(cfg).keys == old(cfg).keys,
        final(cfg).playback.volume == old(cfg).playback.volume,
{
    match mpv {
        Some(path) => cfg.playback.mpv_path = path,
        None => return Err(PreflightError::MpvMissing),
    }
    match ytdlp {
        Some(path) => cfg.ytdlp_path = Some(path),
        None => {},
    }
    Ok(None)
}

} // verus!
