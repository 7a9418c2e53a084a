//! Input-device and watched-key selection.
//!
//! The daemon watches one physical key on one input device. Resolving the
//! key name and choosing the device are decisions over plain data: the
//! surrounding driver enumerates the device nodes (and probes which of them
//! declare support for the key) and hands the results here.

use vstd::prelude::*;

use crate::text::{contains_seq, contains_sub, lower, starts_with, str_eq, to_lower, to_upper, upper};

verus! {

/// One input device node, by path and human-readable name.
#[derive(Debug, Clone)]
pub struct InputDevice {
    pub path: String,
    pub name: String,
}

/// The watched key, as a Linux input event code.
#[derive(Debug, Clone, Copy, PartialEq, Eq, Hash, Structural)]
pub struct WatchedKey(pub u16);

impl WatchedKey {
    /// The Linux input event code of this key.
    pub fn code(self) -> (r: u16)
        ensures
            r == self.0,
    {
        self.0
    }
}

/// Device names that mark pointer or virtual devices, never keyboards.
pub open spec fn pointerish(name: Seq<char>) -> bool {
    ||| contains_seq(lower(name), "mouse"@)
    ||| contains_seq(lower(name), "touchpad"@)
    ||| contains_seq(lower(name), "trackpoint"@)
    ||| contains_seq(lower(name), "trackball"@)
    ||| contains_seq(lower(name), "virtual"@)
}

fn is_pointerish(name: &str) -> (r: bool)
    ensures
        r == pointerish(name@),
{
    let l = to_lower(name);
    let l = l.as_str();
    contains_sub(l, "mouse") || contains_sub(l, "touchpad") || contains_sub(l, "trackpoint")
        || contains_sub(l, "trackball") || contains_sub(l, "virtual")
}

/// The devices of `ds` that pass the keyboard filter, in order.
pub open spec fn keyboards_of(ds: Seq<InputDevice>) -> Seq<InputDevice>
    decreases ds.len(),
{
    if ds.len() == 0 {
        seq![]
    } else {
        let rest = keyboards_of(ds.drop_last());
        if pointerish(ds.last().name@) {
            rest
        } else {
            rest.push(ds.last())
        }
    }
}

/// Filter out mice, touchpads, trackpoints, trackballs and virtual devices,
/// keeping the order of the rest.
pub fn filter_keyboards<'a>(devices: &'a Vec<InputDevice>) -> (r: Vec<&'a InputDevice>)
    ensures
        r@.map_values(|d: &InputDevice| *d) == keyboards_of(devices@),
{
    let mut r: Vec<&InputDevice> = Vec::new();
    let n = devices.len();
    let mut i: usize = 0;
    while i < n
        invariant
            i <= n,
            n == devices@.len(),
            r@.map_values(|d: &InputDevice| *d) =~= keyboards_of(devices@.take(i as int)),
        decreases n - i,
    {
        let d = &devices[i];
        if !is_pointerish(d.name.as_str()) {
            r.push(d);
        }
        proof {
            assert(devices@.take(i + 1).drop_last() =~= devices@.take(i as int));
            assert(r@.map_values(|d: &InputDevice| *d) =~= keyboards_of(devices@.take(i + 1)));
        }
        i += 1;
    }
    proof {
        assert(devices@.take(n as int) =~= devices@);
    }
    r
}

/// One device node as probed by the driver: path, name, and whether the
/// device declares support for the watched key in its capabilities.
#[derive(Debug, Clone)]
pub struct DeviceCandidate {
    pub path: String,
    pub name: String,
    pub supports_key: bool,
}

/// Errors of key and device selection.
#[derive(Debug, Clone, PartialEq)]
pub enum InputError {
    /// The configured key name is not one of the known key names.
    UnknownKey(String),
    /// An explicitly configured device path does not exist.
    DeviceNotFound(String),
    /// Automatic selection found no candidate device at all.
    NoDevices,
}

impl InputError {
    /// The user-facing message of this error.
    pub fn message(&self) -> (r: String)
        ensures
            r@ == input_error_message(*self),
    {
        match self {
            InputError::UnknownKey(k) => {
                let mut out = String::new();
                out.append("Unknown key name: ");
                out.append(k.as_str());
                proof {
                    assert(out@ =~= "Unknown key name: "@ + k@);
                }
                out
            },
            InputError::DeviceNotFound(d) => {
                let mut out = String::new();
                out.append("Configured keyboard device not found: ");
                out.append(d.as_str());
                proof {
                    assert(out@ =~= "Configured keyboard device not found: "@ + d@);
                }
                out
            },
            InputError::NoDevices => String::from_str(
                "No keyboard devices found. Check /dev/input permissions.",
            ),
        }
    }
}

/// The user-facing message of an input error.
pub open spec fn input_error_message(e: InputError) -> Seq<char> {
    match e {
        InputError::UnknownKey(k) => "Unknown key name: "@ + k@,
        InputError::DeviceNotFound(d) => "Configured keyboard device not found: "@ + d@,
        InputError::NoDevices => "No keyboard devices found. Check /dev/input permissions."@,
    }
}

/// The first candidate that passes the keyboard filter and declares support
/// for the watched key.
pub open spec fn first_supporting(cs: Seq<DeviceCandidate>) -> Option<DeviceCandidate>
    decreases cs.len(),
{
    if cs.len() == 0 {
        None
    } else if !pointerish(cs[0].name@) && cs[0].supports_key {
        Some(cs[0])
    } else {
        first_supporting(cs.drop_first())
    }
}

/// The first candidate that passes the keyboard filter.
pub open spec fn first_keyboard(cs: Seq<DeviceCandidate>) -> Option<DeviceCandidate>
    decreases cs.len(),
{
    if cs.len() == 0 {
        None
    } else if !pointerish(cs[0].name@) {
        Some(cs[0])
    } else {
        first_keyboard(cs.drop_first())
    }
}

/// What device selection yields.
pub enum Picked {
    Path(Seq<char>),
    NotFound(Seq<char>),
    NoneAvailable,
}

/// The device-selection rule. An explicit setting is used as-is and fails
/// when the path does not exist; automatic selection takes the first
/// keyboard candidate that declares support for the watched key — whatever
/// its position in the enumeration — then falls back to the first keyboard
/// candidate, and fails only when there is none.
pub open spec fn pick_device_spec(
    setting: Seq<char>,
    explicit_exists: bool,
    cs: Seq<DeviceCandidate>,
) -> Picked {
    if setting != "auto"@ {
        if explicit_exists {
            Picked::Path(setting)
        } else {
            Picked::NotFound(setting)
        }
    } else {
        match first_supporting(cs) {
            Some(c) => Picked::Path(c.path@),
            None => match first_keyboard(cs) {
                Some(c) => Picked::Path(c.path@),
                None => Picked::NoneAvailable,
            },
        }
    }
}

/// Pick the input device to watch. `device_setting` comes from the
/// configuration; `explicit_exists` says whether that path exists on disk
/// (only read when the setting is not "auto"); `candidates` are the device
/// nodes the driver enumerated, in enumeration order, each with its probed
/// key support.
pub fn pick_keyboard_device(
    device_setting: &str,
    explicit_exists: bool,
    candidates: &Vec<DeviceCandidate>,
) -> (r: Result<String, InputError>)
    ensures
        match r {
            Ok(p) => pick_device_spec(device_setting@, explicit_exists, candidates@)
                == Picked::Path(p@),
            Err(InputError::DeviceNotFound(d)) => d@ == device_setting@ && pick_device_spec(
                device_setting@,
                explicit_exists,
                candidates@,
            ) == Picked::NotFound(device_setting@),
            Err(InputError::NoDevices) => pick_device_spec(
                device_setting@,
                explicit_exists,
                candidates@,
            ) == Picked::NoneAvailable,
            Err(InputError::UnknownKey(_)) => false,
        },
{
    if !str_eq(device_setting, "auto") {
        if explicit_exists {
            return Ok(device_setting.to_owned());
        }
        return Err(InputError::DeviceNotFound(device_setting.to_owned()));
    }
    let n = candidates.len();
    proof {
        assert(candidates@.skip(0) =~= candidates@);
    }
    let mut i: usize = 0;
    while i < n
        invariant
            i <= n,
            n == candidates@.len(),
            device_setting@ == "auto"@,
            first_supporting(candidates@) == first_supporting(candidates@.skip(i as int)),
        decreases n - i,
    {
        let c = &candidates[i];
        if c.supports_key && !is_pointerish(c.name.as_str()) {
            proof {
                assert(candidates@.skip(i as int)[0] == candidates@[i as int]);
            }
            return Ok(c.path.clone());
        }
        proof {
            assert(candidates@.skip(i as int).drop_first() =~= candidates@.skip(i + 1));
            assert(candidates@.skip(i as int)[0] == candidates@[i as int]);
        }
        i += 1;
    }
    proof {
        assert(candidates@.skip(n as int) =~= Seq::<DeviceCandidate>::empty());
    }
    let mut i: usize = 0;
    proof {
        assert(candidates@.skip(0) =~= candidates@);
    }
    while i < n
        invariant
            i <= n,
            n == candidates@.len(),
            device_setting@ == "auto"@,
            first_supporting(candidates@) is None,
            first_keyboard(candidates@) == first_keyboard(candidates@.skip(i as int)),
        decreases n - i,
    {
        let c = &candidates[i];
        if !is_pointerish(c.name.as_str()) {
            proof {
                assert(candidates@.skip(i as int)[0] == candidates@[i as int]);
            }
            return Ok(c.path.clone());
        }
        proof {
            assert(candidates@.skip(i as int).drop_first() =~= candidates@.skip(i + 1));
            assert(candidates@.skip(i as int)[0] == candidates@[i as int]);
        }
        i += 1;
    }
    proof {
        assert(candidates@.skip(n as int) =~= Seq::<DeviceCandidate>::empty());
    }
    Err(InputError::NoDevices)
}


/// One signal out of the key edge source: a press or release transition of
/// the watched key, or a fatal read error.
#[derive(Debug, Clone, PartialEq)]
pub enum KeyEdge {
    Press,
    Release,
    ReaderError(String),
}

/// The edge-filter rule: a key event reaches the session exactly when it
/// carries the watched key's code with value 1 (press) or 0 (release); any
/// other key, and autorepeat pseudo-events (value 2), are dropped.
pub open spec fn key_edge_spec(watched: u16, code: u16, value: i32) -> Option<KeyEdge> {
    if code == watched && value == 1 {
        Some(KeyEdge::Press)
    } else if code == watched && value == 0 {
        Some(KeyEdge::Release)
    } else {
        None
    }
}

/// Turn one raw key event into the watched key's edge, if it is one.
pub fn key_edge(watched: WatchedKey, code: u16, value: i32) -> (r: Option<KeyEdge>)
    ensures
        r == key_edge_spec(watched.0, code, value),
{
    if code == watched.0 && value == 1 {
        Some(KeyEdge::Press)
    } else if code == watched.0 && value == 0 {
        Some(KeyEdge::Release)
    } else {
        None
    }
}

/// The known key names (after upper-casing and stripping a `KEY_` prefix)
/// and their Linux input event codes.
pub open spec fn key_code_of(s: Seq<char>) -> Option<u16> {
    if s == "FN"@ {
        Some(464u16)
    } else if s == "CAPSLOCK"@ {
        Some(58u16)
    } else if s == "RIGHTCTRL"@ {
        Some(97u16)
    } else if s == "LEFTCTRL"@ {
        Some(29u16)
    } else if s == "RIGHTALT"@ {
        Some(100u16)
    } else if s == "LEFTALT"@ {
        Some(56u16)
    } else if s == "RIGHTMETA"@ {
        Some(126u16)
    } else if s == "LEFTMETA"@ {
        Some(125u16)
    } else if s == "RIGHTSHIFT"@ {
        Some(54u16)
    } else if s == "LEFTSHIFT"@ {
        Some(42u16)
    } else if s == "SCROLLLOCK"@ {
        Some(70u16)
    } else if s == "PAUSE"@ {
        Some(119u16)
    } else if s == "INSERT"@ {
        Some(110u16)
    } else if s == "F1"@ {
        Some(59u16)
    } else if s == "F2"@ {
        Some(60u16)
    } else if s == "F3"@ {
        Some(61u16)
    } else if s == "F4"@ {
        Some(62u16)
    } else if s == "F5"@ {
        Some(63u16)
    } else if s == "F6"@ {
        Some(64u16)
    } else if s == "F7"@ {
        Some(65u16)
    } else if s == "F8"@ {
        Some(66u16)
    } else if s == "F9"@ {
        Some(67u16)
    } else if s == "F10"@ {
        Some(68u16)
    } else if s == "F11"@ {
        Some(87u16)
    } else if s == "F12"@ {
        Some(88u16)
    } else if s == "SPACE"@ {
        Some(57u16)
    } else {
        None
    }
}

/// `s` without a leading `KEY_`, if it has one.
pub open spec fn strip_key_prefix(s: Seq<char>) -> Seq<char> {
    if s.len() >= 4 && s.subrange(0, 4) == "KEY_"@ {
        s.skip(4)
    } else {
        s
    }
}

/// How a configured key name resolves: upper-cased, the `KEY_` prefix
/// stripped, then looked up among the known names.
pub open spec fn parse_key_spec(name: Seq<char>) -> Option<u16> {
    key_code_of(strip_key_prefix(upper(name)))
}

fn lookup_key_code(s: &str) -> (r: Option<u16>)
    ensures
        r == key_code_of(s@),
{
    if str_eq(s, "FN") {
        Some(464u16)
    } else if str_eq(s, "CAPSLOCK") {
        Some(58u16)
    } else if str_eq(s, "RIGHTCTRL") {
        Some(97u16)
    } else if str_eq(s, "LEFTCTRL") {
        Some(29u16)
    } else if str_eq(s, "RIGHTALT") {
        Some(100u16)
    } else if str_eq(s, "LEFTALT") {
        Some(56u16)
    } else if str_eq(s, "RIGHTMETA") {
        Some(126u16)
    } else if str_eq(s, "LEFTMETA") {
        Some(125u16)
    } else if str_eq(s, "RIGHTSHIFT") {
        Some(54u16)
    } else if str_eq(s, "LEFTSHIFT") {
        Some(42u16)
    } else if str_eq(s, "SCROLLLOCK") {
        Some(70u16)
    } else if str_eq(s, "PAUSE") {
        Some(119u16)
    } else if str_eq(s, "INSERT") {
        Some(110u16)
    } else if str_eq(s, "F1") {
        Some(59u16)
    } else if str_eq(s, "F2") {
        Some(60u16)
    } else if str_eq(s, "F3") {
        Some(61u16)
    } else if str_eq(s, "F4") {
        Some(62u16)
    } else if str_eq(s, "F5") {
        Some(63u16)
    } else if str_eq(s, "F6") {
        Some(64u16)
    } else if str_eq(s, "F7") {
        Some(65u16)
    } else if str_eq(s, "F8") {
        Some(66u16)
    } else if str_eq(s, "F9") {
        Some(67u16)
    } else if str_eq(s, "F10") {
        Some(68u16)
    } else if str_eq(s, "F11") {
        Some(87u16)
    } else if str_eq(s, "F12") {
        Some(88u16)
    } else if str_eq(s, "SPACE") {
        Some(57u16)
    } else {
        None
    }
}

/// Parse a configured key name, case-insensitively and with or without the
/// `KEY_` prefix, into the watched key.
pub fn parse_key_name(name: &str) -> (r: Option<WatchedKey>)
    ensures
        match r {
            Some(k) => parse_key_spec(name@) == Some(k.0),
            None => parse_key_spec(name@) is None,
        },
{
    let up = to_upper(name);
    let up = up.as_str();
    let n = up.unicode_len();
    proof {
        reveal_strlit("KEY_");
    }
    let stripped: &str = if starts_with(up, "KEY_") {
        up.substring_char(4, n)
    } else {
        up
    };
    proof {
        assert(stripped@ =~= strip_key_prefix(upper(name@)));
    }
    match lookup_key_code(stripped) {
        Some(code) => Some(WatchedKey(code)),
        None => None,
    }
}

/// Resolve a configured key name to the watched key, or say exactly why it
/// cannot be.
pub fn resolve_key(key_name: &str) -> (r: Result<WatchedKey, InputError>)
    ensures
        match r {
            Ok(k) => parse_key_spec(key_name@) == Some(k.0),
            Err(InputError::UnknownKey(n)) => n@ == key_name@ && parse_key_spec(key_name@)
                is None,
            Err(_) => false,
        },
{
    match parse_key_name(key_name) {
        Some(k) => Ok(k),
        None => Err(InputError::UnknownKey(key_name.to_owned())),
    }
}


/// A " - " separator starts at position `j` of `s`.
pub open spec fn sep_at(s: Seq<char>, j: int) -> bool {
    0 <= j && j + 3 <= s.len() && s[j] == ' ' && s[j + 1] == '-' && s[j + 2] == ' '
}

/// Position of the first " - " separator at or after `i`, if any.
pub open spec fn find_sep_from(s: Seq<char>, i: int) -> Option<int>
    decreases s.len() - i,
{
    if i >= 0 && i + 3 <= s.len() {
        if sep_at(s, i) {
            Some(i)
        } else {
            find_sep_from(s, i + 1)
        }
    } else {
        None
    }
}

/// Everything after the first " - " separator, or the whole label when it
/// has none.
pub open spec fn strip_device_prefix_spec(s: Seq<char>) -> Seq<char> {
    match find_sep_from(s, 0) {
        Some(j) => s.subrange(j + 3, s.len() as int),
        None => s,
    }
}

/// Strip a leading "<device path> - " prefix from a device label, leaving
/// only the human-readable device name. Labels without such a prefix are
/// returned unchanged.
pub fn strip_device_prefix(label: &str) -> (r: &str)
    ensures
        r@ == strip_device_prefix_spec(label@),
{
    let n = label.unicode_len();
    let mut i: usize = 0;
    while i <= n && n - i >= 3
        invariant
            i <= n,
            n == label@.len(),
            find_sep_from(label@, 0) == find_sep_from(label@, i as int),
        decreases n - i,
    {
        if label.get_char(i) == ' ' && label.get_char(i + 1) == '-' && label.get_char(i + 2)
            == ' ' {
            assert(sep_at(label@, i as int));
            return label.substring_char(i + 3, n);
        }
        assert(!sep_at(label@, i as int));
        i += 1;
    }
    label
}

} // verus!
