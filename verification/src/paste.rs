//! Paste-method selection and paste planning.
//!
//! Pasting is delivery of transcribed text into the user's active window,
//! through one of a closed set of external tools. Which tool to use is
//! decided once at startup from the configuration and the environment; how
//! to invoke it — direct typing or clipboard-plus-hotkey, and the exact
//! key-event arguments — is computed here. Running the commands is the
//! driver's job.

use vstd::prelude::*;

use crate::text::{lower, split_char, split_char_spec, str_eq, to_lower};

verus! {

/// The closed set of paste back-ends.
#[derive(Debug, Clone, Copy, PartialEq, Eq, Structural)]
pub enum PasteMethod {
    Xdotool,
    Wtype,
    Ydotool,
    WlCopy,
}

/// The name of a paste method, as written in the configuration.
pub open spec fn method_label(m: PasteMethod) -> Seq<char> {
    match m {
        PasteMethod::Xdotool => "xdotool"@,
        PasteMethod::Wtype => "wtype"@,
        PasteMethod::Ydotool => "ydotool"@,
        PasteMethod::WlCopy => "wl-copy"@,
    }
}

impl PasteMethod {
    /// The name of this method, as written in the configuration.
    pub fn as_str(&self) -> (r: &'static str)
        ensures
            r@ == method_label(*self),
    {
        match self {
            PasteMethod::Xdotool => "xdotool",
            PasteMethod::Wtype => "wtype",
            PasteMethod::Ydotool => "ydotool",
            PasteMethod::WlCopy => "wl-copy",
        }
    }
}

/// How pasting is configured: the method, the paste hotkey, the
/// clipboard-vs-direct policy, and the delay between copying and sending
/// the hotkey.
#[derive(Debug, Clone)]
pub struct PasteConfig {
    pub method: PasteMethod,
    pub hotkey: String,
    pub clipboard_paste: String,
    pub clipboard_paste_delay_ms: u32,
}

/// What the environment offers for pasting, as probed by the driver:
/// session type and which tools are installed. `ydotool_usable` says that
/// the ydotool daemon socket is available or its service could be started.
#[derive(Debug, Clone, Copy)]
pub struct EnvProbe {
    pub wayland: bool,
    pub x11: bool,
    pub has_ydotool: bool,
    pub ydotool_usable: bool,
    pub has_wtype: bool,
    pub has_wl_copy: bool,
    pub has_xdotool: bool,
}

/// No usable paste tool: selection failed.
#[derive(Debug, Clone, PartialEq, Eq, Structural)]
pub struct NoPasteTool;

impl NoPasteTool {
    /// The user-facing message of this error.
    pub fn message(&self) -> (r: String)
        ensures
            r@ == "No paste tool found. Install ydotool + wl-copy (Wayland) or xdotool (X11)."@,
    {
        String::from_str("No paste tool found. Install ydotool + wl-copy (Wayland) or xdotool (X11).")
    }
}

/// The paste-method selection rule: an explicit method name is taken as
/// it stands; otherwise, on Wayland, ydotool is preferred when usable,
/// then wtype, then clipboard-only wl-copy; on X11, xdotool; and with no
/// match the selection fails.
pub open spec fn pick_paste_spec(setting: Seq<char>, env: EnvProbe) -> Option<PasteMethod> {
    if setting == "xdotool"@ {
        Some(PasteMethod::Xdotool)
    } else if setting == "wtype"@ {
        Some(PasteMethod::Wtype)
    } else if setting == "ydotool"@ {
        Some(PasteMethod::Ydotool)
    } else if setting == "wl-copy"@ {
        Some(PasteMethod::WlCopy)
    } else if env.wayland && env.has_ydotool && env.ydotool_usable {
        Some(PasteMethod::Ydotool)
    } else if env.wayland && env.has_wtype {
        Some(PasteMethod::Wtype)
    } else if env.wayland && env.has_wl_copy {
        Some(PasteMethod::WlCopy)
    } else if env.x11 && env.has_xdotool {
        Some(PasteMethod::Xdotool)
    } else {
        None
    }
}

/// Pick the paste method for this session: an explicitly configured method
/// as-is, otherwise the best the probed environment offers, failing only
/// when it offers none.
pub fn pick_paste_method(setting: &str, env: &EnvProbe) -> (r: Result<PasteMethod, NoPasteTool>)
    ensures
        match r {
            Ok(m) => pick_paste_spec(setting@, *env) == Some(m),
            Err(_) => pick_paste_spec(setting@, *env) is None,
        },
{
    if str_eq(setting, "xdotool") {
        return Ok(PasteMethod::Xdotool);
    }
    if str_eq(setting, "wtype") {
        return Ok(PasteMethod::Wtype);
    }
    if str_eq(setting, "ydotool") {
        return Ok(PasteMethod::Ydotool);
    }
    if str_eq(setting, "wl-copy") {
        return Ok(PasteMethod::WlCopy);
    }
    if env.wayland && env.has_ydotool && env.ydotool_usable {
        return Ok(PasteMethod::Ydotool);
    }
    if env.wayland && env.has_wtype {
        return Ok(PasteMethod::Wtype);
    }
    if env.wayland && env.has_wl_copy {
        return Ok(PasteMethod::WlCopy);
    }
    if env.x11 && env.has_xdotool {
        return Ok(PasteMethod::Xdotool);
    }
    Err(NoPasteTool)
}

/// The clipboard-vs-direct policy: clipboard paste is used when the
/// configuration says "auto" or "on".
pub open spec fn use_clipboard_spec(setting: Seq<char>) -> bool {
    setting == "auto"@ || setting == "on"@
}

/// Whether the clipboard route is configured.
pub fn should_use_clipboard(setting: &str) -> (r: bool)
    ensures
        r == use_clipboard_spec(setting@),
{
    str_eq(setting, "auto") || str_eq(setting, "on")
}

/// One hotkey part in canonical form: ASCII-lowered, with `meta` folded
/// into `super`.
pub open spec fn canon_key(p: Seq<char>) -> Seq<char> {
    if lower(p) == "super"@ || lower(p) == "meta"@ {
        "super"@
    } else {
        lower(p)
    }
}

fn canon_key_exec(p: &str) -> (r: String)
    ensures
        r@ == canon_key(p@),
{
    let l = to_lower(p);
    if str_eq(l.as_str(), "super") || str_eq(l.as_str(), "meta") {
        String::from_str("super")
    } else {
        l
    }
}

/// The press half of a wtype invocation: `-M` for each modifier, `-k` for
/// the final key.
pub open spec fn wtype_press(parts: Seq<Seq<char>>) -> Seq<Seq<char>>
    decreases parts.len(),
{
    if parts.len() == 0 {
        seq![]
    } else if parts.len() == 1 {
        seq!["-k"@, canon_key(parts[0])]
    } else {
        seq!["-M"@, canon_key(parts[0])] + wtype_press(parts.drop_first())
    }
}

/// The release half of a wtype invocation: `-m` for each modifier, in
/// reverse order.
pub open spec fn wtype_release(parts: Seq<Seq<char>>) -> Seq<Seq<char>>
    decreases parts.len(),
{
    if parts.len() <= 1 {
        seq![]
    } else {
        wtype_release(parts.drop_first()) + seq!["-m"@, canon_key(parts[0])]
    }
}

/// The wtype arguments that send a hotkey: press the modifiers in order,
/// tap the key, release the modifiers in reverse.
pub open spec fn wtype_args_spec(hotkey: Seq<char>) -> Seq<Seq<char>> {
    wtype_press(split_char_spec(hotkey, '+')) + wtype_release(split_char_spec(hotkey, '+'))
}

/// Build the wtype arguments for a hotkey like "ctrl+v" or "ctrl+shift+v".
pub fn parse_hotkey_to_wtype(hotkey: &str) -> (r: Vec<String>)
    ensures
        r.deep_view() == wtype_args_spec(hotkey@),
{
    let parts = split_char(hotkey, '+');
    let ghost pv = parts.deep_view();
    let n = parts.len();
    let mut out: Vec<String> = Vec::new();
    proof {
        assert(pv.skip(0) =~= pv);
        assert(pv.len() > 0) by {
            lemma_split_nonempty(hotkey@, '+');
        }
    }
    let mut i: usize = 0;
    while i < n
        invariant
            i <= n,
            0 < n == pv.len(),
            pv == parts.deep_view(),
            n == parts@.len(),
            out.deep_view() + wtype_press(pv.skip(i as int)) =~= wtype_press(pv),
        decreases n - i,
    {
        let c = canon_key_exec(parts[i].as_str());
        proof {
            assert(pv.skip(i as int)[0] == pv[i as int]);
            assert(pv[i as int] == parts@[i as int]@);
            assert(pv.skip(i as int).drop_first() =~= pv.skip(i + 1));
        }
        if i + 1 < n {
            out.push(String::from_str("-M"));
            out.push(c);
        } else {
            out.push(String::from_str("-k"));
            out.push(c);
            proof {
                assert(pv.skip(i as int).len() == 1);
            }
        }
        proof {
            assert(out.deep_view() + wtype_press(pv.skip(i + 1)) =~= wtype_press(pv));
        }
        i += 1;
    }
    proof {
        assert(pv.skip(n as int) =~= Seq::<Seq<char>>::empty());
        assert(out.deep_view() =~= wtype_press(pv));
    }
    let ghost press = out.deep_view();
    let mut j: usize = n - 1;
    proof {
        assert(wtype_release(pv.skip(n - 1)) =~= Seq::<Seq<char>>::empty());
        assert(out.deep_view() =~= press + wtype_release(pv.skip(n - 1)));
    }
    while j > 0
        invariant
            0 <= j <= n - 1,
            0 < n == pv.len(),
            pv == parts.deep_view(),
            n == parts@.len(),
            out.deep_view() =~= press + wtype_release(pv.skip(j as int)),
        decreases j,
    {
        j -= 1;
        let c = canon_key_exec(parts[j].as_str());
        let ghost pre = out.deep_view();
        out.push(String::from_str("-m"));
        out.push(c);
        proof {
            assert(pv.skip(j as int)[0] == pv[j as int]);
            assert(pv[j as int] == parts@[j as int]@);
            assert(pv.skip(j as int).drop_first() =~= pv.skip(j + 1));
            assert(pv.skip(j as int).len() == n - j);
            assert(out.deep_view() =~= pre + seq!["-m"@, canon_key(pv[j as int])]);
            assert(wtype_release(pv.skip(j as int)) =~= wtype_release(pv.skip(j + 1)) + seq![
                "-m"@,
                canon_key(pv[j as int]),
            ]);
            assert(out.deep_view() =~= press + wtype_release(pv.skip(j as int)));
        }
    }
    proof {
        assert(pv.skip(0) =~= pv);
        assert(out.deep_view() =~= wtype_press(pv) + wtype_release(pv));
    }
    out
}

proof fn lemma_split_nonempty(s: Seq<char>, c: char)
    ensures
        split_char_spec(s, c).len() > 0,
    decreases s.len(),
{
    match crate::text::find_char_from(s, c, 0) {
        Some(j) => {
            if 0 <= j < s.len() {
                lemma_split_nonempty(s.skip(j + 1), c);
            }
        },
        None => {},
    }
}

/// The Linux key codes ydotool takes, for the hotkey names this daemon
/// supports (the part already ASCII-lowered).
pub open spec fn hotkey_code_of(l: Seq<char>) -> Option<Seq<char>> {
    if l == "ctrl"@ {
        Some("29"@)
    } else if l == "shift"@ {
        Some("42"@)
    } else if l == "alt"@ {
        Some("56"@)
    } else if l == "super"@ || l == "meta"@ {
        Some("125"@)
    } else if l == "v"@ {
        Some("47"@)
    } else if l == "c"@ {
        Some("46"@)
    } else if l == "a"@ {
        Some("30"@)
    } else if l == "z"@ {
        Some("44"@)
    } else {
        None
    }
}

/// Map a hotkey part to the Linux key code ydotool expects, or nothing for
/// an unknown name (which is then skipped).
pub fn key_name_to_code(name: &str) -> (r: Option<&'static str>)
    ensures
        match r {
            Some(c) => hotkey_code_of(lower(name@)) == Some(c@),
            None => hotkey_code_of(lower(name@)) is None,
        },
{
    let l = to_lower(name);
    let l = l.as_str();
    if str_eq(l, "ctrl") {
        Some("29")
    } else if str_eq(l, "shift") {
        Some("42")
    } else if str_eq(l, "alt") {
        Some("56")
    } else if str_eq(l, "super") || str_eq(l, "meta") {
        Some("125")
    } else if str_eq(l, "v") {
        Some("47")
    } else if str_eq(l, "c") {
        Some("46")
    } else if str_eq(l, "a") {
        Some("30")
    } else if str_eq(l, "z") {
        Some("44")
    } else {
        None
    }
}

/// The key codes of the recognized hotkey parts, in order; unknown parts
/// are skipped.
pub open spec fn codes_of(parts: Seq<Seq<char>>) -> Seq<Seq<char>>
    decreases parts.len(),
{
    if parts.len() == 0 {
        seq![]
    } else {
        codes_of(parts.drop_last()) + (match hotkey_code_of(lower(parts.last())) {
            Some(c) => seq![c],
            None => seq![],
        })
    }
}

/// The press half of a ydotool invocation: each code with state 1, in
/// order.
pub open spec fn ydotool_press(codes: Seq<Seq<char>>) -> Seq<Seq<char>>
    decreases codes.len(),
{
    if codes.len() == 0 {
        seq![]
    } else {
        ydotool_press(codes.drop_last()) + seq![codes.last() + ":1"@]
    }
}

/// The release half of a ydotool invocation: each code with state 0, in
/// reverse order.
pub open spec fn ydotool_release(codes: Seq<Seq<char>>) -> Seq<Seq<char>>
    decreases codes.len(),
{
    if codes.len() == 0 {
        seq![]
    } else {
        ydotool_release(codes.drop_first()) + seq![codes[0] + ":0"@]
    }
}

/// The ydotool `key` arguments that send a hotkey: press every recognized
/// key in order, then release them in reverse order.
pub open spec fn ydotool_args_spec(hotkey: Seq<char>) -> Seq<Seq<char>> {
    let codes = codes_of(split_char_spec(hotkey, '+'));
    ydotool_press(codes) + ydotool_release(codes)
}

/// Build the ydotool `key` arguments for a hotkey like "ctrl+v": each
/// argument is KEYCODE:STATE with state 1 for press and 0 for release.
pub fn parse_hotkey_to_ydotool(hotkey: &str) -> (r: Vec<String>)
    ensures
        r.deep_view() == ydotool_args_spec(hotkey@),
{
    let parts = split_char(hotkey, '+');
    let ghost pv = parts.deep_view();
    let n = parts.len();
    let mut codes: Vec<String> = Vec::new();
    let mut i: usize = 0;
    while i < n
        invariant
            i <= n,
            n == pv.len(),
            pv == parts.deep_view(),
            n == parts@.len(),
            codes.deep_view() =~= codes_of(pv.take(i as int)),
        decreases n - i,
    {
        let ghost pre = codes.deep_view();
        match key_name_to_code(parts[i].as_str()) {
            Some(c) => {
                codes.push(String::from_str(c));
            },
            None => {},
        }
        proof {
            assert(pv.take(i + 1).drop_last() =~= pv.take(i as int));
            assert(pv.take(i + 1).last() == pv[i as int]);
            assert(pv[i as int] == parts@[i as int]@);
            assert(codes.deep_view() =~= codes_of(pv.take(i + 1)));
        }
        i += 1;
    }
    proof {
        assert(pv.take(n as int) =~= pv);
    }
    let ghost cv = codes.deep_view();
    let m = codes.len();
    let mut out: Vec<String> = Vec::new();
    let mut k: usize = 0;
    while k < m
        invariant
            k <= m,
            m == cv.len(),
            cv == codes.deep_view(),
            m == codes@.len(),
            out.deep_view() =~= ydotool_press(cv.take(k as int)),
        decreases m - k,
    {
        let mut a = codes[k].clone();
        a.append(":1");
        out.push(a);
        proof {
            assert(cv.take(k + 1).drop_last() =~= cv.take(k as int));
            assert(cv.take(k + 1).last() == cv[k as int]);
            assert(cv[k as int] == codes@[k as int]@);
            assert(out.deep_view() =~= ydotool_press(cv.take(k + 1)));
        }
        k += 1;
    }
    proof {
        assert(cv.take(m as int) =~= cv);
        assert(ydotool_release(cv.skip(m as int)) =~= Seq::<Seq<char>>::empty());
    }
    let ghost press = out.deep_view();
    let mut j: usize = m;
    while j > 0
        invariant
            j <= m,
            m == cv.len(),
            cv == codes.deep_view(),
            m == codes@.len(),
            out.deep_view() =~= press + ydotool_release(cv.skip(j as int)),
        decreases j,
    {
        j -= 1;
        let mut a = codes[j].clone();
        a.append(":0");
        let ghost pre = out.deep_view();
        out.push(a);
        proof {
            assert(cv.skip(j as int)[0] == cv[j as int]);
            assert(cv[j as int] == codes@[j as int]@);
            assert(cv.skip(j as int).drop_first() =~= cv.skip(j + 1));
            assert(out.deep_view() =~= pre + seq![cv[j as int] + ":0"@]);
            assert(ydotool_release(cv.skip(j as int)) =~= ydotool_release(cv.skip(j + 1)) + seq![
                cv[j as int] + ":0"@,
            ]);
            assert(out.deep_view() =~= press + ydotool_release(cv.skip(j as int)));
        }
    }
    proof {
        assert(cv.skip(0) =~= cv);
        assert(out.deep_view() =~= ydotool_press(cv) + ydotool_release(cv));
    }
    out
}

/// One external command to run: program, arguments, and text to feed on
/// standard input, if any.
#[derive(Debug, Clone)]
pub struct CommandSpec {
    pub program: String,
    pub args: Vec<String>,
    pub stdin_text: Option<String>,
}

/// The clipboard route: copy the text, wait, then send the paste hotkey.
/// When `key_failure_fatal` is false a failed hotkey leaves the paste
/// successful (the text is on the clipboard either way).
#[derive(Debug, Clone)]
pub struct ClipboardSteps {
    pub copy: CommandSpec,
    pub delay_ms: u32,
    pub key: CommandSpec,
    pub key_failure_fatal: bool,
}

/// How one paste is carried out.
#[derive(Debug, Clone)]
pub enum PastePlan {
    /// Type the text directly; on failure fall back to the clipboard route
    /// when one is given.
    Direct { cmd: CommandSpec, fallback: Option<ClipboardSteps> },
    /// Use the clipboard route from the start.
    Clipboard(ClipboardSteps),
    /// Copy to the clipboard only; the user pastes by hand.
    CopyOnly(CommandSpec),
}

/// The command is this program with these arguments and this stdin.
pub open spec fn cmd_is(
    c: CommandSpec,
    program: Seq<char>,
    args: Seq<Seq<char>>,
    stdin: Option<Seq<char>>,
) -> bool {
    &&& c.program@ == program
    &&& c.args.deep_view() == args
    &&& match (c.stdin_text, stdin) {
        (Some(a), Some(b)) => a@ == b,
        (None, None) => true,
        _ => false,
    }
}

/// The X11 clipboard route: xclip takes the text on stdin, then xdotool
/// sends the hotkey by name; both must succeed.
pub open spec fn x11_clip_steps(
    s: ClipboardSteps,
    padded: Seq<char>,
    hotkey: Seq<char>,
    delay: u32,
) -> bool {
    &&& cmd_is(s.copy, "xclip"@, seq!["-selection"@, "clipboard"@], Some(padded))
    &&& s.delay_ms == delay
    &&& cmd_is(s.key, "xdotool"@, seq!["key"@, hotkey], None)
    &&& s.key_failure_fatal
}

/// The Wayland clipboard route: wl-copy takes the text as an argument, then
/// wtype sends the hotkey; a failed hotkey is not fatal, the text is on the
/// clipboard.
pub open spec fn wayland_clip_steps(
    s: ClipboardSteps,
    padded: Seq<char>,
    hotkey: Seq<char>,
    delay: u32,
) -> bool {
    &&& cmd_is(s.copy, "wl-copy"@, seq![padded], None)
    &&& s.delay_ms == delay
    &&& cmd_is(s.key, "wtype"@, wtype_args_spec(hotkey), None)
    &&& !s.key_failure_fatal
}

/// The ydotool clipboard route: wl-copy, then ydotool sends the hotkey as
/// key-code press/release events; both must succeed.
pub open spec fn ydotool_clip_steps(
    s: ClipboardSteps,
    padded: Seq<char>,
    hotkey: Seq<char>,
    delay: u32,
) -> bool {
    &&& cmd_is(s.copy, "wl-copy"@, seq![padded], None)
    &&& s.delay_ms == delay
    &&& cmd_is(s.key, "ydotool"@, seq!["key"@] + ydotool_args_spec(hotkey), None)
    &&& s.key_failure_fatal
}

/// What the plan for one paste must be, given the configuration. The text
/// is padded with one trailing space so consecutive dictations do not run
/// together.
pub open spec fn paste_plan_spec(r: PastePlan, text: Seq<char>, config: PasteConfig) -> bool {
    let padded = text + " "@;
    let clip = use_clipboard_spec(config.clipboard_paste@);
    let hotkey = config.hotkey@;
    let delay = config.clipboard_paste_delay_ms;
    match config.method {
        PasteMethod::Xdotool => if clip {
            r matches PastePlan::Clipboard(s) && x11_clip_steps(s, padded, hotkey, delay)
        } else {
            r matches PastePlan::Direct { cmd, fallback } && cmd_is(
                cmd,
                "xdotool"@,
                seq!["type"@, "--delay"@, "1"@, padded],
                None,
            ) && fallback is None
        },
        PasteMethod::Wtype => if clip {
            r matches PastePlan::Clipboard(s) && wayland_clip_steps(s, padded, hotkey, delay)
        } else {
            r matches PastePlan::Direct { cmd, fallback } && (cmd_is(
                cmd,
                "wtype"@,
                seq![padded],
                None,
            ) && (fallback matches Some(s) && wayland_clip_steps(s, padded, hotkey, delay)))
        },
        PasteMethod::Ydotool => if clip {
            r matches PastePlan::Clipboard(s) && ydotool_clip_steps(s, padded, hotkey, delay)
        } else {
            r matches PastePlan::Direct { cmd, fallback } && (cmd_is(
                cmd,
                "ydotool"@,
                seq!["type"@, padded],
                None,
            ) && (fallback matches Some(s) && ydotool_clip_steps(s, padded, hotkey, delay)))
        },
        PasteMethod::WlCopy => r matches PastePlan::CopyOnly(cmd) && cmd_is(
            cmd,
            "wl-copy"@,
            seq![padded],
            None,
        ),
    }
}

fn x11_steps(padded: &String, config: &PasteConfig) -> (r: ClipboardSteps)
    ensures
        x11_clip_steps(r, padded@, config.hotkey@, config.clipboard_paste_delay_ms),
{
    let mut copy_args: Vec<String> = Vec::new();
    copy_args.push(String::from_str("-selection"));
    copy_args.push(String::from_str("clipboard"));
    proof {
        assert(copy_args.deep_view() =~= seq!["-selection"@, "clipboard"@]);
    }
    let mut key_args: Vec<String> = Vec::new();
    key_args.push(String::from_str("key"));
    key_args.push(config.hotkey.clone());
    proof {
        assert(key_args.deep_view() =~= seq!["key"@, config.hotkey@]);
    }
    ClipboardSteps {
        copy: CommandSpec {
            program: String::from_str("xclip"),
            args: copy_args,
            stdin_text: Some(padded.clone()),
        },
        delay_ms: config.clipboard_paste_delay_ms,
        key: CommandSpec { program: String::from_str("xdotool"), args: key_args, stdin_text: None },
        key_failure_fatal: true,
    }
}

fn wayland_steps(padded: &String, config: &PasteConfig) -> (r: ClipboardSteps)
    ensures
        wayland_clip_steps(r, padded@, config.hotkey@, config.clipboard_paste_delay_ms),
{
    let mut copy_args: Vec<String> = Vec::new();
    copy_args.push(padded.clone());
    proof {
        assert(copy_args.deep_view() =~= seq![padded@]);
    }
    let key_args = parse_hotkey_to_wtype(config.hotkey.as_str());
    ClipboardSteps {
        copy: CommandSpec {
            program: String::from_str("wl-copy"),
            args: copy_args,
            stdin_text: None,
        },
        delay_ms: config.clipboard_paste_delay_ms,
        key: CommandSpec { program: String::from_str("wtype"), args: key_args, stdin_text: None },
        key_failure_fatal: false,
    }
}

fn ydotool_steps(padded: &String, config: &PasteConfig) -> (r: ClipboardSteps)
    ensures
        ydotool_clip_steps(r, padded@, config.hotkey@, config.clipboard_paste_delay_ms),
{
    let mut copy_args: Vec<String> = Vec::new();
    copy_args.push(padded.clone());
    proof {
        assert(copy_args.deep_view() =~= seq![padded@]);
    }
    let mut key_args: Vec<String> = Vec::new();
    key_args.push(String::from_str("key"));
    let ghost first = key_args.deep_view();
    let mut hot = parse_hotkey_to_ydotool(config.hotkey.as_str());
    key_args.append(&mut hot);
    proof {
        assert(key_args.deep_view() =~= seq!["key"@] + ydotool_args_spec(config.hotkey@));
    }
    ClipboardSteps {
        copy: CommandSpec {
            program: String::from_str("wl-copy"),
            args: copy_args,
            stdin_text: None,
        },
        delay_ms: config.clipboard_paste_delay_ms,
        key: CommandSpec { program: String::from_str("ydotool"), args: key_args, stdin_text: None },
        key_failure_fatal: true,
    }
}

/// Plan one paste of `text` under `config`: pad the text with a trailing
/// space, then choose direct typing, clipboard-plus-hotkey or clipboard-only
/// as the method and policy say.
pub fn paste_plan(text: &str, config: &PasteConfig) -> (r: PastePlan)
    ensures
        paste_plan_spec(r, text@, *config),
{
    let mut padded = text.to_owned();
    padded.append(" ");
    let clip = should_use_clipboard(config.clipboard_paste.as_str());
    match config.method {
        PasteMethod::Xdotool => {
            if clip {
                PastePlan::Clipboard(x11_steps(&padded, config))
            } else {
                let mut args: Vec<String> = Vec::new();
                args.push(String::from_str("type"));
                args.push(String::from_str("--delay"));
                args.push(String::from_str("1"));
                args.push(padded);
                proof {
                    assert(args.deep_view() =~= seq!["type"@, "--delay"@, "1"@, text@ + " "@]);
                }
                PastePlan::Direct {
                    cmd: CommandSpec {
                        program: String::from_str("xdotool"),
                        args,
                        stdin_text: None,
                    },
                    fallback: None,
                }
            }
        },
        PasteMethod::Wtype => {
            if clip {
                PastePlan::Clipboard(wayland_steps(&padded, config))
            } else {
                let fallback = wayland_steps(&padded, config);
                let mut args: Vec<String> = Vec::new();
                args.push(padded);
                proof {
                    assert(args.deep_view() =~= seq![text@ + " "@]);
                }
                PastePlan::Direct {
                    cmd: CommandSpec {
                        program: String::from_str("wtype"),
                        args,
                        stdin_text: None,
                    },
                    fallback: Some(fallback),
                }
            }
        },
        PasteMethod::Ydotool => {
            if clip {
                PastePlan::Clipboard(ydotool_steps(&padded, config))
            } else {
                let fallback = ydotool_steps(&padded, config);
                let mut args: Vec<String> = Vec::new();
                args.push(String::from_str("type"));
                args.push(padded);
                proof {
                    assert(args.deep_view() =~= seq!["type"@, text@ + " "@]);
                }
                PastePlan::Direct {
                    cmd: CommandSpec {
                        program: String::from_str("ydotool"),
                        args,
                        stdin_text: None,
                    },
                    fallback: Some(fallback),
                }
            }
        },
        PasteMethod::WlCopy => {
            let mut args: Vec<String> = Vec::new();
            args.push(padded);
            proof {
                assert(args.deep_view() =~= seq![text@ + " "@]);
            }
            PastePlan::CopyOnly(
                CommandSpec { program: String::from_str("wl-copy"), args, stdin_text: None },
            )
        },
    }
}

} // verus!
