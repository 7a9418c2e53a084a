//! Session configuration.
//!
//! Settings are read once at startup from an INI file with one section for
//! this application; every missing or unparsable entry falls back to its
//! default. Reading the file is the driver's job; turning its text into
//! settings happens here.

use vstd::prelude::*;

use crate::text::{parse_u32, parse_u32_spec, str_eq};

verus! {

/// The configured settings of a session, all with defaults.
#[derive(Debug, Clone, PartialEq)]
pub struct Settings {
    pub key: String,
    pub keyboard_device: String,
    pub model: String,
    pub language: String,
    pub paste_method: String,
    pub paste_hotkey: String,
    pub clipboard_paste: String,
    pub clipboard_paste_delay_ms: u32,
    pub log_file: String,
    pub log_level: String,
}

/// The default settings, apart from the log file (whose default depends on
/// the user's state directory).
pub open spec fn is_default_settings(s: Settings) -> bool {
    &&& s.key@ == "KEY_RIGHTCTRL"@
    &&& s.keyboard_device@ == "auto"@
    &&& s.model@ == "base.en"@
    &&& s.language@ == "en"@
    &&& s.paste_method@ == "auto"@
    &&& s.paste_hotkey@ == "ctrl+v"@
    &&& s.clipboard_paste@ == "auto"@
    &&& s.clipboard_paste_delay_ms == 75
    &&& s.log_level@ == "info"@
}

/// Relies on `dirs::state_dir`: the user's state directory, if the platform
/// defines one. The result depends on the environment, so nothing is
/// promised of it.
#[verifier::external_body]
fn state_base_dir() -> (r: Option<String>) {
    dirs::state_dir().map(|p| p.to_string_lossy().into_owned())
}

/// Relies on `dirs::config_dir`: the user's configuration directory, if the
/// platform defines one. The result depends on the environment, so nothing
/// is promised of it.
#[verifier::external_body]
fn config_base_dir() -> (r: Option<String>) {
    dirs::config_dir().map(|p| p.to_string_lossy().into_owned())
}

/// This application's configuration directory: the user's configuration
/// directory (or `~/.config` when the platform defines none), under this
/// application's subdirectory.
pub fn config_dir() -> (r: String)
    ensures
        exists|base: Seq<char>| r@ == base + "/escucha"@,
{
    let base: String = match config_base_dir() {
        Some(d) => d,
        None => "~/.config".to_owned(),
    };
    let ghost b = base@;
    let mut out = base;
    out.append("/escucha");
    proof {
        assert(out@ == b + "/escucha"@);
    }
    out
}

/// The path of the configuration file, under the configuration directory.
pub fn config_path() -> (r: String)
    ensures
        exists|base: Seq<char>| r@ == base + "/escucha/config.ini"@,
{
    let mut out = config_dir();
    let ghost dir = out@;
    let ghost base = choose|b: Seq<char>| dir == b + "/escucha"@;
    out.append("/config.ini");
    proof {
        reveal_strlit("/escucha");
        reveal_strlit("/config.ini");
        reveal_strlit("/escucha/config.ini");
        assert(out@ =~= base + "/escucha/config.ini"@);
    }
    out
}

/// The default log file: under the user's state directory (or, with none,
/// `~/.local/state`), in this application's subdirectory.
pub fn default_log_file() -> (r: String)
    ensures
        exists|base: Seq<char>| r@ == base + "/escucha/escucha.log"@,
{
    let base: String = match state_base_dir() {
        Some(d) => d,
        None => match crate::transcribe::data_local_dir_opt() {
            Some(d) => d,
            None => "~/.local/state".to_owned(),
        },
    };
    let ghost b = base@;
    let mut out = base;
    out.append("/escucha/escucha.log");
    proof {
        assert(out@ == b + "/escucha/escucha.log"@);
    }
    out
}

impl Default for Settings {
    /// The default settings; the log file default lives under the user's
    /// state directory.
    fn default() -> (r: Settings)
        ensures
            is_default_settings(r),
            exists|base: Seq<char>| r.log_file@ == base + "/escucha/escucha.log"@,
    {
        Settings {
            key: String::from_str("KEY_RIGHTCTRL"),
            keyboard_device: String::from_str("auto"),
            model: String::from_str("base.en"),
            language: String::from_str("en"),
            paste_method: String::from_str("auto"),
            paste_hotkey: String::from_str("ctrl+v"),
            clipboard_paste: String::from_str("auto"),
            clipboard_paste_delay_ms: 75,
            log_file: default_log_file(),
            log_level: String::from_str("info"),
        }
    }
}

/// The mathematical value of a key/value pair list.
pub open spec fn pairs_view(ps: Seq<(String, String)>) -> Seq<(Seq<char>, Seq<char>)> {
    Seq::new(ps.len(), |i: int| (ps[i].0@, ps[i].1@))
}

/// The value of the first pair with this key, if any — as `Ini::get_from`
/// reads a section.
pub open spec fn lookup(pairs: Seq<(Seq<char>, Seq<char>)>, key: Seq<char>) -> Option<Seq<char>>
    decreases pairs.len(),
{
    if pairs.len() == 0 {
        None
    } else if pairs[0].0 == key {
        Some(pairs[0].1)
    } else {
        lookup(pairs.drop_first(), key)
    }
}

/// The configured value of `key`, or `default` when the section has none.
pub open spec fn field_of(
    pairs: Seq<(Seq<char>, Seq<char>)>,
    key: Seq<char>,
    default: Seq<char>,
) -> Seq<char> {
    match lookup(pairs, key) {
        Some(v) => v,
        None => default,
    }
}

/// The configured numeric value of `key`; a missing or unparsable value
/// falls back to `default`.
pub open spec fn u32_field_of(
    pairs: Seq<(Seq<char>, Seq<char>)>,
    key: Seq<char>,
    default: u32,
) -> u32 {
    match lookup(pairs, key) {
        Some(v) => match parse_u32_spec(v) {
            Some(n) => n,
            None => default,
        },
        None => default,
    }
}

/// Read one entry from the section's pairs, with a default.
pub fn get_or_default(pairs: &Vec<(String, String)>, key: &str, default: &str) -> (r: String)
    ensures
        r@ == field_of(pairs_view(pairs@), key@, default@),
{
    let n = pairs.len();
    let ghost pv = pairs_view(pairs@);
    proof {
        assert(pv.skip(0) =~= pv);
    }
    let mut i: usize = 0;
    while i < n
        invariant
            i <= n,
            n == pairs@.len(),
            pv == pairs_view(pairs@),
            lookup(pv, key@) == lookup(pv.skip(i as int), key@),
        decreases n - i,
    {
        proof {
            assert(pv.skip(i as int)[0] == pv[i as int]);
            assert(pv.skip(i as int).drop_first() =~= pv.skip(i + 1));
        }
        if str_eq(pairs[i].0.as_str(), key) {
            return pairs[i].1.clone();
        }
        i += 1;
    }
    proof {
        assert(pv.skip(n as int) =~= Seq::<(Seq<char>, Seq<char>)>::empty());
    }
    default.to_owned()
}

/// Read one numeric entry from the section's pairs, with a default for a
/// missing or unparsable value.
pub fn get_u32_or_default(pairs: &Vec<(String, String)>, key: &str, default: u32) -> (r: u32)
    ensures
        r == u32_field_of(pairs_view(pairs@), key@, default),
{
    let n = pairs.len();
    let ghost pv = pairs_view(pairs@);
    proof {
        assert(pv.skip(0) =~= pv);
    }
    let mut i: usize = 0;
    while i < n
        invariant
            i <= n,
            n == pairs@.len(),
            pv == pairs_view(pairs@),
            lookup(pv, key@) == lookup(pv.skip(i as int), key@),
        decreases n - i,
    {
        proof {
            assert(pv.skip(i as int)[0] == pv[i as int]);
            assert(pv.skip(i as int).drop_first() =~= pv.skip(i + 1));
        }
        if str_eq(pairs[i].0.as_str(), key) {
            return match parse_u32(pairs[i].1.as_str()) {
                Some(n) => n,
                None => default,
            };
        }
        i += 1;
    }
    proof {
        assert(pv.skip(n as int) =~= Seq::<(Seq<char>, Seq<char>)>::empty());
    }
    default
}

/// The settings that a section's pairs configure: each entry read with its
/// default; the log file falls back to the state-directory default.
pub open spec fn settings_match(s: Settings, pairs: Seq<(Seq<char>, Seq<char>)>) -> bool {
    &&& s.key@ == field_of(pairs, "key"@, "KEY_RIGHTCTRL"@)
    &&& s.keyboard_device@ == field_of(pairs, "keyboard_device"@, "auto"@)
    &&& s.model@ == field_of(pairs, "model"@, "base.en"@)
    &&& s.language@ == field_of(pairs, "language"@, "en"@)
    &&& s.paste_method@ == field_of(pairs, "paste_method"@, "auto"@)
    &&& s.paste_hotkey@ == field_of(pairs, "paste_hotkey"@, "ctrl+v"@)
    &&& s.clipboard_paste@ == field_of(pairs, "clipboard_paste"@, "auto"@)
    &&& s.clipboard_paste_delay_ms == u32_field_of(pairs, "clipboard_paste_delay_ms"@, 75)
    &&& (lookup(pairs, "log_file"@) matches Some(v) ==> s.log_file@ == v)
    &&& (lookup(pairs, "log_file"@) is None ==> exists|base: Seq<char>|
        s.log_file@ == base + "/escucha/escucha.log"@)
    &&& s.log_level@ == field_of(pairs, "log_level"@, "info"@)
}

/// Build settings from a section's key/value pairs, filling every missing
/// entry with its default.
pub fn settings_from_pairs(pairs: &Vec<(String, String)>) -> (r: Settings)
    ensures
        settings_match(r, pairs_view(pairs@)),
{
    let log_file_default = default_log_file();
    Settings {
        key: get_or_default(pairs, "key", "KEY_RIGHTCTRL"),
        keyboard_device: get_or_default(pairs, "keyboard_device", "auto"),
        model: get_or_default(pairs, "model", "base.en"),
        language: get_or_default(pairs, "language", "en"),
        paste_method: get_or_default(pairs, "paste_method", "auto"),
        paste_hotkey: get_or_default(pairs, "paste_hotkey", "ctrl+v"),
        clipboard_paste: get_or_default(pairs, "clipboard_paste", "auto"),
        clipboard_paste_delay_ms: get_u32_or_default(pairs, "clipboard_paste_delay_ms", 75),
        log_file: get_or_default(pairs, "log_file", log_file_default.as_str()),
        log_level: get_or_default(pairs, "log_level", "info"),
    }
}

/// The key/value pairs of the first section with this name in an INI text,
/// in file order (empty when no such section exists), or nothing when the
/// text is not well-formed INI. What exactly the INI grammar accepts is the
/// parsing crate's affair, so the function is left unspecified beyond its
/// name.
pub uninterp spec fn ini_section_pairs(text: Seq<char>, section: Seq<char>) -> Option<
    Seq<(Seq<char>, Seq<char>)>,
>;

/// Relies on `ini::Ini::load_from_str` and `Ini::section`: parses INI text
/// and hands back the pairs of the first section with this name, in file
/// order — empty when no such section exists — and nothing on a parse
/// error.
#[verifier::external_body]
fn parse_ini_section(text: &str, section: &str) -> (r: Option<Vec<(String, String)>>)
    ensures
        match r {
            Some(v) => ini_section_pairs(text@, section@) == Some(pairs_view(v@)),
            None => ini_section_pairs(text@, section@) is None,
        },
{
    match ini::Ini::load_from_str(text) {
        Ok(parsed) => Some(match parsed.section(Some(section)) {
            Some(props) => props.iter().map(|(k, v)| (k.to_string(), v.to_string())).collect(),
            None => Vec::new(),
        }),
        Err(_) => None,
    }
}

/// The configuration file's text was not well-formed INI.
#[derive(Debug, Clone, Copy, PartialEq, Eq, Structural)]
pub struct InvalidConfig;

impl InvalidConfig {
    /// The user-facing message of this error.
    pub fn message(&self) -> (r: String)
        ensures
            r@ == "Failed to load config"@,
    {
        String::from_str("Failed to load config")
    }
}

/// Build settings from the text of a configuration file: the entries of
/// this application's section, with defaults for whatever is missing. Fails
/// exactly when the text is not well-formed INI.
pub fn settings_from_ini_text(text: &str) -> (r: Result<Settings, InvalidConfig>)
    ensures
        match r {
            Ok(s) => ini_section_pairs(text@, "escucha"@) matches Some(pairs) && settings_match(
                s,
                pairs,
            ),
            Err(_) => ini_section_pairs(text@, "escucha"@) is None,
        },
{
    match parse_ini_section(text, "escucha") {
        Some(pairs) => Ok(settings_from_pairs(&pairs)),
        None => Err(InvalidConfig),
    }
}

} // verus!
