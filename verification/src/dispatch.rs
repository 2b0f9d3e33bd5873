//! The action dispatcher: interprets a bind's action as a sequence of
//! capability calls, with repeat-aware step sizes.

use crate::binds::{Action, Bind, SpecAction};
use crate::codes::{chars_of, str_eq};
use crate::emulator::keyboard::Key;
use crate::mode::MenuMode;
use vstd::prelude::*;
use vstd::string::StringExecFns;

verus! {

/// Volume change per press, in percent; the larger value applies to
/// timer-driven repeats.
pub const VOLUME_STEP: i32 = 2;

pub const VOLUME_STEP_REPEATED: i32 = 5;

/// Mouse movement per press, in pixels.
pub const MOUSE_STEP: i32 = 30;

pub const MOUSE_STEP_REPEATED: i32 = 100;

/// Scroll distance per press.
pub const SCROLL_STEP: i32 = 2;

pub const SCROLL_STEP_REPEATED: i32 = 5;

/// How long a multi-key shortcut is held before release, in milliseconds.
pub const SHORTCUT_HOLD_MS: u64 = 100;

/// One call into an external capability port.  The dispatcher only
/// decides which calls to make; the surrounding process performs them.
#[derive(Debug, PartialEq)]
pub enum CapabilityCall {
    MediaSwitchNextOutputDevice,
    MediaToggleOutputMute,
    MediaToggleInputMute,
    MediaIncreaseVolume { step: i32 },
    MediaDecreaseVolume { step: i32 },
    KeyPressAndRelease { key: Key },
    KeyPressHold { keys: Vec<Key> },
    KeyRelease { keys: Vec<Key> },
    Wait { ms: u64 },
    MouseMoveRelative { dx: i32, dy: i32 },
    MouseClickLeft,
    MouseScrollVertical { delta: i32 },
    OpenWebsite { url: String },
    RequestSuspend,
}

/// Mathematical form of a [`CapabilityCall`].
pub enum SpecCall {
    MediaSwitchNextOutputDevice,
    MediaToggleOutputMute,
    MediaToggleInputMute,
    MediaIncreaseVolume { step: i32 },
    MediaDecreaseVolume { step: i32 },
    KeyPressAndRelease { key: Key },
    KeyPressHold { keys: Seq<Key> },
    KeyRelease { keys: Seq<Key> },
    Wait { ms: u64 },
    MouseMoveRelative { dx: i32, dy: i32 },
    MouseClickLeft,
    MouseScrollVertical { delta: i32 },
    OpenWebsite { url: Seq<char> },
    RequestSuspend,
}

impl View for CapabilityCall {
    type V = SpecCall;

    open spec fn view(&self) -> SpecCall {
        match self {
            CapabilityCall::MediaSwitchNextOutputDevice => SpecCall::MediaSwitchNextOutputDevice,
            CapabilityCall::MediaToggleOutputMute => SpecCall::MediaToggleOutputMute,
            CapabilityCall::MediaToggleInputMute => SpecCall::MediaToggleInputMute,
            CapabilityCall::MediaIncreaseVolume { step } => SpecCall::MediaIncreaseVolume {
                step: *step,
            },
            CapabilityCall::MediaDecreaseVolume { step } => SpecCall::MediaDecreaseVolume {
                step: *step,
            },
            CapabilityCall::KeyPressAndRelease { key } => SpecCall::KeyPressAndRelease {
                key: *key,
            },
            CapabilityCall::KeyPressHold { keys } => SpecCall::KeyPressHold { keys: keys@ },
            CapabilityCall::KeyRelease { keys } => SpecCall::KeyRelease { keys: keys@ },
            CapabilityCall::Wait { ms } => SpecCall::Wait { ms: *ms },
            CapabilityCall::MouseMoveRelative { dx, dy } => SpecCall::MouseMoveRelative {
                dx: *dx,
                dy: *dy,
            },
            CapabilityCall::MouseClickLeft => SpecCall::MouseClickLeft,
            CapabilityCall::MouseScrollVertical { delta } => SpecCall::MouseScrollVertical {
                delta: *delta,
            },
            CapabilityCall::OpenWebsite { url } => SpecCall::OpenWebsite { url: url@ },
            CapabilityCall::RequestSuspend => SpecCall::RequestSuspend,
        }
    }
}

impl DeepView for CapabilityCall {
    type V = SpecCall;

    open spec fn deep_view(&self) -> SpecCall {
        self.view()
    }
}

/// What interpreting one bind yields: the capability calls to perform,
/// in order; the mode afterwards; and whether the bind named an unknown
/// handler (a reported, non-fatal error).
#[derive(Debug, PartialEq)]
pub struct Dispatch {
    pub calls: Vec<CapabilityCall>,
    pub mode: MenuMode,
    pub unknown_handler: bool,
}

/// The volume step for a fresh or a repeated press.
pub open spec fn spec_volume_step(is_repeated: bool) -> i32 {
    if is_repeated {
        VOLUME_STEP_REPEATED
    } else {
        VOLUME_STEP
    }
}

/// The mouse step for a fresh or a repeated press.
pub open spec fn spec_mouse_step(is_repeated: bool) -> i32 {
    if is_repeated {
        MOUSE_STEP_REPEATED
    } else {
        MOUSE_STEP
    }
}

/// The scroll step for a fresh or a repeated press.
pub open spec fn spec_scroll_step(is_repeated: bool) -> i32 {
    if is_repeated {
        SCROLL_STEP_REPEATED
    } else {
        SCROLL_STEP
    }
}

/// A character that may start a scheme name: an ASCII letter.
pub open spec fn is_scheme_start(c: char) -> bool {
    ('a' <= c && c <= 'z') || ('A' <= c && c <= 'Z')
}

/// A later character of a scheme name: a letter, digit, `+`, `-` or `.`.
pub open spec fn is_scheme_char(c: char) -> bool {
    is_scheme_start(c) || ('0' <= c && c <= '9') || c == '+' || c == '-' || c == '.'
}

/// Whether a URL already carries an explicit scheme: a leading scheme
/// name — a letter followed by letters, digits, `+`, `-` or `.` — that
/// ends at a colon.
pub open spec fn spec_has_scheme(url: Seq<char>) -> bool {
    exists|i: int|
        1 <= i < url.len() && #[trigger] url[i] == ':' && is_scheme_start(url[0]) && (forall|
            k: int,
        |
            0 <= k < i ==> is_scheme_char(#[trigger] url[k]))
}

/// The URL actually opened for a bind's `open` string: a fixed point
/// whenever an explicit scheme is present, prefixed with `https://`
/// otherwise.
pub open spec fn spec_resolve_url(url: Seq<char>) -> Seq<char> {
    if spec_has_scheme(url) {
        url
    } else {
        "https://"@ + url
    }
}

/// Law: resolving a URL is idempotent.  A URL with an explicit scheme
/// is left alone, and the prefix that resolution adds is itself an
/// explicit scheme, so a second resolution never prefixes again.
pub proof fn lemma_resolve_url_idempotent(url: Seq<char>)
    ensures
        spec_resolve_url(spec_resolve_url(url)) == spec_resolve_url(url),
{
    if !spec_has_scheme(url) {
        let r = "https://"@ + url;
        reveal_strlit("https://");
        assert("https://"@.len() == 8);
        assert(r[5] == ':');
        assert(is_scheme_start(r[0]));
        assert(forall|k: int| 0 <= k < 5 ==> is_scheme_char(#[trigger] r[k]));
        assert(spec_has_scheme(r));
    }
}

/// The calls of a shortcut: press all keys in order, hold for the
/// settle delay, release them.
pub open spec fn spec_shortcut_calls(keys: Seq<Key>) -> Seq<SpecCall> {
    seq![
        SpecCall::KeyPressHold { keys },
        SpecCall::Wait { ms: SHORTCUT_HOLD_MS },
        SpecCall::KeyRelease { keys },
    ]
}

/// The calls of a plain press: press-and-release each key on its own.
pub open spec fn spec_press_calls(keys: Seq<Key>) -> Seq<SpecCall> {
    keys.map_values(|k: Key| SpecCall::KeyPressAndRelease { key: k })
}

/// The built-in handler names the dispatcher knows.
pub open spec fn spec_known_handler(name: Seq<char>) -> bool {
    ||| name == "switch-audio"@
    ||| name == "mute-unmute"@
    ||| name == "navigation"@
    ||| name == "nav-left"@
    ||| name == "nav-right"@
    ||| name == "nav-up"@
    ||| name == "nav-down"@
    ||| name == "nav-center"@
    ||| name == "scroll-up"@
    ||| name == "scroll-down"@
    ||| name == "sleep-mode"@
}

/// The calls a built-in handler makes, given the repeat flag and the
/// current mode.  An unknown name makes no call.
pub open spec fn spec_handler_calls(name: Seq<char>, is_repeated: bool, mode: MenuMode) -> Seq<
    SpecCall,
> {
    if name == "switch-audio"@ {
        seq![SpecCall::MediaSwitchNextOutputDevice]
    } else if name == "mute-unmute"@ {
        seq![SpecCall::MediaToggleOutputMute, SpecCall::MediaToggleInputMute]
    } else if name == "navigation"@ {
        Seq::empty()
    } else if name == "nav-left"@ {
        match mode {
            MenuMode::Media => seq![
                SpecCall::MediaDecreaseVolume { step: spec_volume_step(is_repeated) },
            ],
            MenuMode::MouseEmulation => seq![
                SpecCall::MouseMoveRelative {
                    dx: (0 - spec_mouse_step(is_repeated)) as i32,
                    dy: 0,
                },
            ],
            MenuMode::Selector => spec_shortcut_calls(seq![Key::Shift, Key::Tab]),
        }
    } else if name == "nav-right"@ {
        match mode {
            MenuMode::Media => seq![
                SpecCall::MediaIncreaseVolume { step: spec_volume_step(is_repeated) },
            ],
            MenuMode::MouseEmulation => seq![
                SpecCall::MouseMoveRelative { dx: spec_mouse_step(is_repeated), dy: 0 },
            ],
            MenuMode::Selector => seq![SpecCall::KeyPressAndRelease { key: Key::Tab }],
        }
    } else if name == "nav-up"@ {
        match mode {
            MenuMode::Media => if is_repeated {
                Seq::empty()
            } else {
                seq![SpecCall::KeyPressAndRelease { key: Key::MediaNextTrack }]
            },
            MenuMode::MouseEmulation => seq![
                SpecCall::MouseMoveRelative {
                    dx: 0,
                    dy: (0 - spec_mouse_step(is_repeated)) as i32,
                },
            ],
            MenuMode::Selector => spec_shortcut_calls(seq![Key::Shift, Key::Tab]),
        }
    } else if name == "nav-down"@ {
        match mode {
            MenuMode::Media => if is_repeated {
                Seq::empty()
            } else {
                seq![SpecCall::KeyPressAndRelease { key: Key::MediaPrevTrack }]
            },
            MenuMode::MouseEmulation => seq![
                SpecCall::MouseMoveRelative { dx: 0, dy: spec_mouse_step(is_repeated) },
            ],
            MenuMode::Selector => seq![SpecCall::KeyPressAndRelease { key: Key::Tab }],
        }
    } else if name == "nav-center"@ {
        match mode {
            MenuMode::Media => seq![SpecCall::KeyPressAndRelease { key: Key::MediaPlayPause }],
            MenuMode::MouseEmulation => seq![SpecCall::MouseClickLeft],
            MenuMode::Selector => seq![SpecCall::KeyPressAndRelease { key: Key::Enter }],
        }
    } else if name == "scroll-up"@ {
        seq![SpecCall::MouseScrollVertical { delta: (0 - spec_scroll_step(is_repeated)) as i32 }]
    } else if name == "scroll-down"@ {
        seq![SpecCall::MouseScrollVertical { delta: spec_scroll_step(is_repeated) }]
    } else if name == "sleep-mode"@ {
        seq![SpecCall::RequestSuspend]
    } else {
        Seq::empty()
    }
}

/// The calls an action makes.
pub open spec fn spec_action_calls(a: SpecAction, is_repeated: bool, mode: MenuMode) -> Seq<
    SpecCall,
> {
    match a {
        SpecAction::Handler { handler } => spec_handler_calls(handler, is_repeated, mode),
        SpecAction::Shortcut { shortcut } => spec_shortcut_calls(shortcut),
        SpecAction::Press { press } => spec_press_calls(press),
        SpecAction::Open { open } => seq![SpecCall::OpenWebsite { url: spec_resolve_url(open) }],
    }
}

/// The mode after an action: only the `"navigation"` handler advances
/// it; everything else leaves it alone.
pub open spec fn spec_action_mode(a: SpecAction, mode: MenuMode) -> MenuMode {
    match a {
        SpecAction::Handler { handler } => if handler == "navigation"@ {
            mode.spec_next()
        } else {
            mode
        },
        _ => mode,
    }
}

/// Whether an action names a handler the dispatcher does not know.
pub open spec fn spec_unknown_handler(a: SpecAction) -> bool {
    match a {
        SpecAction::Handler { handler } => !spec_known_handler(handler),
        _ => false,
    }
}

fn clone_keys(keys: &Vec<Key>) -> (r: Vec<Key>)
    ensures
        r@ == keys@,
{
    let mut r: Vec<Key> = Vec::new();
    let mut i: usize = 0;
    while i < keys.len()
        invariant
            i <= keys.len(),
            r@ == keys@.take(i as int),
        decreases keys.len() - i,
    {
        r.push(keys[i]);
        i = i + 1;
        proof {
            assert(keys@.take(i as int) =~= keys@.take(i - 1).push(keys@[i - 1]));
        }
    }
    proof {
        assert(keys@.take(keys.len() as int) =~= keys@);
    }
    r
}

fn call1(c: CapabilityCall) -> (r: Vec<CapabilityCall>)
    ensures
        r.deep_view() == seq![c@],
{
    let ghost cv = c@;
    let mut r: Vec<CapabilityCall> = Vec::new();
    r.push(c);
    proof {
        assert(r.deep_view() =~= seq![cv]);
    }
    r
}

fn call2(a: CapabilityCall, b: CapabilityCall) -> (r: Vec<CapabilityCall>)
    ensures
        r.deep_view() == seq![a@, b@],
{
    let ghost av = a@;
    let ghost bv = b@;
    let mut r: Vec<CapabilityCall> = Vec::new();
    r.push(a);
    r.push(b);
    proof {
        assert(r.deep_view() =~= seq![av, bv]);
    }
    r
}

fn shortcut_calls(keys: &Vec<Key>) -> (r: Vec<CapabilityCall>)
    ensures
        r.deep_view() == spec_shortcut_calls(keys@),
{
    let mut r: Vec<CapabilityCall> = Vec::new();
    r.push(CapabilityCall::KeyPressHold { keys: clone_keys(keys) });
    r.push(CapabilityCall::Wait { ms: SHORTCUT_HOLD_MS });
    r.push(CapabilityCall::KeyRelease { keys: clone_keys(keys) });
    proof {
        assert(r.deep_view() =~= spec_shortcut_calls(keys@));
    }
    r
}

fn press_calls(keys: &Vec<Key>) -> (r: Vec<CapabilityCall>)
    ensures
        r.deep_view() == spec_press_calls(keys@),
{
    let mut r: Vec<CapabilityCall> = Vec::new();
    let mut i: usize = 0;
    while i < keys.len()
        invariant
            i <= keys.len(),
            r.deep_view() == spec_press_calls(keys@.take(i as int)),
        decreases keys.len() - i,
    {
        r.push(CapabilityCall::KeyPressAndRelease { key: keys[i] });
        i = i + 1;
        proof {
            assert(spec_press_calls(keys@.take(i as int)) =~= spec_press_calls(
                keys@.take(i - 1),
            ).push(SpecCall::KeyPressAndRelease { key: keys@[i - 1] }));
        }
    }
    proof {
        assert(keys@.take(keys.len() as int) =~= keys@);
    }
    r
}

fn shift_tab() -> (r: Vec<Key>)
    ensures
        r@ == seq![Key::Shift, Key::Tab],
{
    let mut v: Vec<Key> = Vec::new();
    v.push(Key::Shift);
    v.push(Key::Tab);
    proof {
        assert(v@ =~= seq![Key::Shift, Key::Tab]);
    }
    v
}

fn is_scheme_start_x(c: char) -> (r: bool)
    ensures
        r == is_scheme_start(c),
{
    ('a' <= c && c <= 'z') || ('A' <= c && c <= 'Z')
}

fn is_scheme_char_x(c: char) -> (r: bool)
    ensures
        r == is_scheme_char(c),
{
    is_scheme_start_x(c) || ('0' <= c && c <= '9') || c == '+' || c == '-' || c == '.'
}

fn has_scheme(v: &Vec<char>) -> (r: bool)
    ensures
        r == spec_has_scheme(v@),
{
    if v.len() == 0 || !is_scheme_start_x(v[0]) {
        return false;
    }
    let mut j: usize = 1;
    while j < v.len() && is_scheme_char_x(v[j])
        invariant
            1 <= j <= v.len(),
            is_scheme_start(v@[0]),
            forall|k: int| 0 <= k < j ==> is_scheme_char(#[trigger] v@[k]),
        decreases v.len() - j,
    {
        j = j + 1;
    }
    if j < v.len() && v[j] == ':' {
        assert(spec_has_scheme(v@));
        true
    } else {
        proof {
            assert forall|i: int|
                !(1 <= i < v@.len() && #[trigger] v@[i] == ':' && is_scheme_start(v@[0]) && (
                forall|k: int| 0 <= k < i ==> is_scheme_char(#[trigger] v@[k]))) by {
                if 1 <= i < v@.len() && v@[i] == ':' && (forall|k: int|
                    0 <= k < i ==> is_scheme_char(#[trigger] v@[k])) {
                    if i < j {
                        assert(is_scheme_char(v@[i]));
                        assert(false);
                    } else if i == j {
                        assert(false);
                    } else {
                        assert(is_scheme_char(v@[j as int]));
                        assert(false);
                    }
                }
            }
        }
        false
    }
}

/// Resolves a bind's `open` string to the URL actually opened:
/// unchanged when it already carries an explicit scheme, prefixed with
/// `https://` otherwise.
pub fn resolve_url(url: &String) -> (r: String)
    ensures
        r@ == spec_resolve_url(url@),
{
    let v = chars_of(url.as_str());
    if has_scheme(&v) {
        url.clone()
    } else {
        let mut m = "https://".to_owned();
        m.append(url.as_str());
        m
    }
}

fn handler_dispatch(name: &String, is_repeated: bool, mode: MenuMode) -> (r: Dispatch)
    ensures
        r.calls.deep_view() == spec_handler_calls(name@, is_repeated, mode),
        r.mode == (if name@ == "navigation"@ {
            mode.spec_next()
        } else {
            mode
        }),
        r.unknown_handler == !spec_known_handler(name@),
{
    proof {
        reveal_strlit("switch-audio");
        reveal_strlit("mute-unmute");
        reveal_strlit("navigation");
        assert("switch-audio"@.len() == 12);
        assert("mute-unmute"@.len() == 11);
        assert("navigation"@.len() == 10);
    }
    if str_eq(name, "switch-audio") {
        Dispatch {
            calls: call1(CapabilityCall::MediaSwitchNextOutputDevice),
            mode,
            unknown_handler: false,
        }
    } else if str_eq(name, "mute-unmute") {
        Dispatch {
            calls: call2(
                CapabilityCall::MediaToggleOutputMute,
                CapabilityCall::MediaToggleInputMute,
            ),
            mode,
            unknown_handler: false,
        }
    } else if str_eq(name, "navigation") {
        Dispatch { calls: Vec::new(), mode: mode.next(), unknown_handler: false }
    } else if str_eq(name, "nav-left") {
        let calls = match mode {
            MenuMode::Media => {
                let step = if is_repeated {
                    VOLUME_STEP_REPEATED
                } else {
                    VOLUME_STEP
                };
                call1(CapabilityCall::MediaDecreaseVolume { step })
            },
            MenuMode::MouseEmulation => {
                let step = if is_repeated {
                    MOUSE_STEP_REPEATED
                } else {
                    MOUSE_STEP
                };
                call1(CapabilityCall::MouseMoveRelative { dx: 0 - step, dy: 0 })
            },
            MenuMode::Selector => shortcut_calls(&shift_tab()),
        };
        Dispatch { calls, mode, unknown_handler: false }
    } else if str_eq(name, "nav-right") {
        let calls = match mode {
            MenuMode::Media => {
                let step = if is_repeated {
                    VOLUME_STEP_REPEATED
                } else {
                    VOLUME_STEP
                };
                call1(CapabilityCall::MediaIncreaseVolume { step })
            },
            MenuMode::MouseEmulation => {
                let step = if is_repeated {
                    MOUSE_STEP_REPEATED
                } else {
                    MOUSE_STEP
                };
                call1(CapabilityCall::MouseMoveRelative { dx: step, dy: 0 })
            },
            MenuMode::Selector => call1(CapabilityCall::KeyPressAndRelease { key: Key::Tab }),
        };
        Dispatch { calls, mode, unknown_handler: false }
    } else if str_eq(name, "nav-up") {
        let calls = match mode {
            MenuMode::Media => {
                if is_repeated {
                    Vec::new()
                } else {
                    call1(CapabilityCall::KeyPressAndRelease { key: Key::MediaNextTrack })
                }
            },
            MenuMode::MouseEmulation => {
                let step = if is_repeated {
                    MOUSE_STEP_REPEATED
                } else {
                    MOUSE_STEP
                };
                call1(CapabilityCall::MouseMoveRelative { dx: 0, dy: 0 - step })
            },
            MenuMode::Selector => shortcut_calls(&shift_tab()),
        };
        Dispatch { calls, mode, unknown_handler: false }
    } else if str_eq(name, "nav-down") {
        let calls = match mode {
            MenuMode::Media => {
                if is_repeated {
                    Vec::new()
                } else {
                    call1(CapabilityCall::KeyPressAndRelease { key: Key::MediaPrevTrack })
                }
            },
            MenuMode::MouseEmulation => {
                let step = if is_repeated {
                    MOUSE_STEP_REPEATED
                } else {
                    MOUSE_STEP
                };
                call1(CapabilityCall::MouseMoveRelative { dx: 0, dy: step })
            },
            MenuMode::Selector => call1(CapabilityCall::KeyPressAndRelease { key: Key::Tab }),
        };
        Dispatch { calls, mode, unknown_handler: false }
    } else if str_eq(name, "nav-center") {
        let calls = match mode {
            MenuMode::Media => call1(
                CapabilityCall::KeyPressAndRelease { key: Key::MediaPlayPause },
            ),
            MenuMode::MouseEmulation => call1(CapabilityCall::MouseClickLeft),
            MenuMode::Selector => call1(CapabilityCall::KeyPressAndRelease { key: Key::Enter }),
        };
        Dispatch { calls, mode, unknown_handler: false }
    } else if str_eq(name, "scroll-up") {
        let step = if is_repeated {
            SCROLL_STEP_REPEATED
        } else {
            SCROLL_STEP
        };
        Dispatch {
            calls: call1(CapabilityCall::MouseScrollVertical { delta: 0 - step }),
            mode,
            unknown_handler: false,
        }
    } else if str_eq(name, "scroll-down") {
        let step = if is_repeated {
            SCROLL_STEP_REPEATED
        } else {
            SCROLL_STEP
        };
        Dispatch {
            calls: call1(CapabilityCall::MouseScrollVertical { delta: step }),
            mode,
            unknown_handler: false,
        }
    } else if str_eq(name, "sleep-mode") {
        Dispatch { calls: call1(CapabilityCall::RequestSuspend), mode, unknown_handler: false }
    } else {
        Dispatch { calls: Vec::new(), mode, unknown_handler: true }
    }
}

/// Interprets one resolved bind: the capability calls it makes, the
/// mode afterwards, and whether it named an unknown handler.  Pure
/// decision logic; nothing here touches a device.
pub fn dispatch_action(bind: &Bind, is_repeated: bool, mode: MenuMode) -> (r: Dispatch)
    ensures
        r.calls.deep_view() == spec_action_calls(bind@.action, is_repeated, mode),
        r.mode == spec_action_mode(bind@.action, mode),
        r.unknown_handler == spec_unknown_handler(bind@.action),
{
    match &bind.action {
        Action::Handler { handler } => handler_dispatch(handler, is_repeated, mode),
        Action::Shortcut { shortcut } => Dispatch {
            calls: shortcut_calls(shortcut),
            mode,
            unknown_handler: false,
        },
        Action::Press { press } => Dispatch {
            calls: press_calls(press),
            mode,
            unknown_handler: false,
        },
        Action::Open { open } => Dispatch {
            calls: call1(CapabilityCall::OpenWebsite { url: resolve_url(open) }),
            mode,
            unknown_handler: false,
        },
    }
}

} // verus!
