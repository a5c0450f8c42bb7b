//! Keyboard and mouse capture state.
//!
//! One process-wide [`RawInput`] record receives decoded window messages and
//! accumulates mouse deltas between frames. The operating-system layer decodes
//! each message (and answers the window-liveness and window-rectangle queries)
//! into a plain [`WindowMessage`] value before calling [`RawInput::parse`];
//! everything the record then does with the message is verified here.

use vstd::prelude::*;

use crate::text::str_eq;

verus! {

pub const VK_LBUTTON: i32 = 1;
pub const VK_RBUTTON: i32 = 2;
pub const VK_MBUTTON: i32 = 4;
pub const VK_XBUTTON1: i32 = 5;
pub const VK_XBUTTON2: i32 = 6;
pub const VK_SHIFT: i32 = 16;
pub const VK_ESCAPE: i32 = 27;

pub const LBUTTONDOWN: u16 = 0x0001;
pub const LBUTTONUP: u16 = 0x0002;
pub const RBUTTONDOWN: u16 = 0x0004;
pub const RBUTTONUP: u16 = 0x0008;
pub const MBUTTONDOWN: u16 = 0x0010;
pub const MBUTTONUP: u16 = 0x0020;
pub const XBUTTON1DOWN: u16 = 0x0040;
pub const XBUTTON1UP: u16 = 0x0080;
pub const XBUTTON2DOWN: u16 = 0x0100;
pub const XBUTTON2UP: u16 = 0x0200;

/// The pixel band at the bottom of the host window whose clicks never engage
/// the mouse lock: the host's own toolbar must stay clickable.
pub const TOOLBAR_BAND: i32 = 130;

/// The virtual-key code a configuration name stands for, or `None` for names
/// outside the fixed table. The name `"0"` maps to 58 — a historical quirk
/// of the table, kept deliberately so existing configurations behave
/// unchanged.
pub open spec fn spec_str_to_vk(key: Seq<char>) -> Option<i32> {
    if key == "mouse1"@ {
        Some(1i32)
    } else if key == "mouse2"@ {
        Some(2i32)
    } else if key == "mouse3"@ {
        Some(4i32)
    } else if key == "mouse4"@ {
        Some(5i32)
    } else if key == "mouse5"@ {
        Some(6i32)
    } else if key == "shift"@ {
        Some(16i32)
    } else if key == "lshift"@ {
        Some(160i32)
    } else if key == "rshift"@ {
        Some(161i32)
    } else if key == "alt"@ {
        Some(18i32)
    } else if key == "lalt"@ {
        Some(164i32)
    } else if key == "ralt"@ {
        Some(165i32)
    } else if key == "ctrl"@ {
        Some(17i32)
    } else if key == "lctrl"@ {
        Some(162i32)
    } else if key == "rctrl"@ {
        Some(163i32)
    } else if key == "tab"@ {
        Some(9i32)
    } else if key == "up"@ {
        Some(38i32)
    } else if key == "down"@ {
        Some(40i32)
    } else if key == "left"@ {
        Some(37i32)
    } else if key == "right"@ {
        Some(39i32)
    } else if key == "insert"@ {
        Some(45i32)
    } else if key == "delete"@ {
        Some(46i32)
    } else if key == "home"@ {
        Some(36i32)
    } else if key == "end"@ {
        Some(35i32)
    } else if key == "pgup"@ {
        Some(33i32)
    } else if key == "pgdn"@ {
        Some(34i32)
    } else if key == "backspace"@ {
        Some(8i32)
    } else if key == "enter"@ {
        Some(13i32)
    } else if key == "pause"@ {
        Some(19i32)
    } else if key == "numlock"@ {
        Some(144i32)
    } else if key == "space"@ {
        Some(32i32)
    } else if key == "kp_0"@ {
        Some(96i32)
    } else if key == "kp_1"@ {
        Some(97i32)
    } else if key == "kp_2"@ {
        Some(98i32)
    } else if key == "kp_3"@ {
        Some(99i32)
    } else if key == "kp_4"@ {
        Some(100i32)
    } else if key == "kp_5"@ {
        Some(101i32)
    } else if key == "kp_6"@ {
        Some(102i32)
    } else if key == "kp_7"@ {
        Some(103i32)
    } else if key == "kp_8"@ {
        Some(104i32)
    } else if key == "kp_9"@ {
        Some(105i32)
    } else if key == "esc"@ {
        Some(27i32)
    } else if key == "escape"@ {
        Some(27i32)
    } else if key == "f1"@ {
        Some(112i32)
    } else if key == "f2"@ {
        Some(113i32)
    } else if key == "f3"@ {
        Some(114i32)
    } else if key == "f4"@ {
        Some(115i32)
    } else if key == "f5"@ {
        Some(116i32)
    } else if key == "f6"@ {
        Some(117i32)
    } else if key == "f7"@ {
        Some(118i32)
    } else if key == "f8"@ {
        Some(119i32)
    } else if key == "f9"@ {
        Some(120i32)
    } else if key == "f10"@ {
        Some(121i32)
    } else if key == "f11"@ {
        Some(122i32)
    } else if key == "f12"@ {
        Some(123i32)
    } else if key == "0"@ {
        Some(58i32)
    } else if key == "1"@ {
        Some(49i32)
    } else if key == "2"@ {
        Some(50i32)
    } else if key == "3"@ {
        Some(51i32)
    } else if key == "4"@ {
        Some(52i32)
    } else if key == "5"@ {
        Some(53i32)
    } else if key == "6"@ {
        Some(54i32)
    } else if key == "7"@ {
        Some(55i32)
    } else if key == "8"@ {
        Some(56i32)
    } else if key == "9"@ {
        Some(57i32)
    } else if key == "a"@ {
        Some(65i32)
    } else if key == "b"@ {
        Some(66i32)
    } else if key == "c"@ {
        Some(67i32)
    } else if key == "d"@ {
        Some(68i32)
    } else if key == "e"@ {
        Some(69i32)
    } else if key == "f"@ {
        Some(70i32)
    } else if key == "g"@ {
        Some(71i32)
    } else if key == "h"@ {
        Some(72i32)
    } else if key == "i"@ {
        Some(73i32)
    } else if key == "j"@ {
        Some(74i32)
    } else if key == "k"@ {
        Some(75i32)
    } else if key == "l"@ {
        Some(76i32)
    } else if key == "m"@ {
        Some(77i32)
    } else if key == "n"@ {
        Some(78i32)
    } else if key == "o"@ {
        Some(79i32)
    } else if key == "p"@ {
        Some(80i32)
    } else if key == "q"@ {
        Some(81i32)
    } else if key == "r"@ {
        Some(82i32)
    } else if key == "s"@ {
        Some(83i32)
    } else if key == "t"@ {
        Some(84i32)
    } else if key == "u"@ {
        Some(85i32)
    } else if key == "v"@ {
        Some(86i32)
    } else if key == "w"@ {
        Some(87i32)
    } else if key == "x"@ {
        Some(88i32)
    } else if key == "y"@ {
        Some(89i32)
    } else if key == "z"@ {
        Some(90i32)
    } else {
        None
    }
}

/// Every code in the virtual-key table indexes the 256-slot key array.
pub proof fn lemma_vk_in_range(key: Seq<char>)
    ensures
        spec_str_to_vk(key) matches Some(v) ==> 0 <= v < 256,
{
}

/// Maps a configuration name to its virtual-key code; names outside the table
/// are rejected.
pub fn str_to_vk(key: &str) -> (r: Result<i32, &'static str>)
    ensures
        match spec_str_to_vk(key@) {
            Some(v) => r == Ok::<i32, &'static str>(v),
            None => r is Err,
        },
{
    if str_eq(key, "mouse1") {
        Ok(1)
    } else if str_eq(key, "mouse2") {
        Ok(2)
    } else if str_eq(key, "mouse3") {
        Ok(4)
    } else if str_eq(key, "mouse4") {
        Ok(5)
    } else if str_eq(key, "mouse5") {
        Ok(6)
    } else if str_eq(key, "shift") {
        Ok(16)
    } else if str_eq(key, "lshift") {
        Ok(160)
    } else if str_eq(key, "rshift") {
        Ok(161)
    } else if str_eq(key, "alt") {
        Ok(18)
    } else if str_eq(key, "lalt") {
        Ok(164)
    } else if str_eq(key, "ralt") {
        Ok(165)
    } else if str_eq(key, "ctrl") {
        Ok(17)
    } else if str_eq(key, "lctrl") {
        Ok(162)
    } else if str_eq(key, "rctrl") {
        Ok(163)
    } else if str_eq(key, "tab") {
        Ok(9)
    } else if str_eq(key, "up") {
        Ok(38)
    } else if str_eq(key, "down") {
        Ok(40)
    } else if str_eq(key, "left") {
        Ok(37)
    } else if str_eq(key, "right") {
        Ok(39)
    } else if str_eq(key, "insert") {
        Ok(45)
    } else if str_eq(key, "delete") {
        Ok(46)
    } else if str_eq(key, "home") {
        Ok(36)
    } else if str_eq(key, "end") {
        Ok(35)
    } else if str_eq(key, "pgup") {
        Ok(33)
    } else if str_eq(key, "pgdn") {
        Ok(34)
    } else if str_eq(key, "backspace") {
        Ok(8)
    } else if str_eq(key, "enter") {
        Ok(13)
    } else if str_eq(key, "pause") {
        Ok(19)
    } else if str_eq(key, "numlock") {
        Ok(144)
    } else if str_eq(key, "space") {
        Ok(32)
    } else if str_eq(key, "kp_0") {
        Ok(96)
    } else if str_eq(key, "kp_1") {
        Ok(97)
    } else if str_eq(key, "kp_2") {
        Ok(98)
    } else if str_eq(key, "kp_3") {
        Ok(99)
    } else if str_eq(key, "kp_4") {
        Ok(100)
    } else if str_eq(key, "kp_5") {
        Ok(101)
    } else if str_eq(key, "kp_6") {
        Ok(102)
    } else if str_eq(key, "kp_7") {
        Ok(103)
    } else if str_eq(key, "kp_8") {
        Ok(104)
    } else if str_eq(key, "kp_9") {
        Ok(105)
    } else if str_eq(key, "esc") {
        Ok(27)
    } else if str_eq(key, "escape") {
        Ok(27)
    } else if str_eq(key, "f1") {
        Ok(112)
    } else if str_eq(key, "f2") {
        Ok(113)
    } else if str_eq(key, "f3") {
        Ok(114)
    } else if str_eq(key, "f4") {
        Ok(115)
    } else if str_eq(key, "f5") {
        Ok(116)
    } else if str_eq(key, "f6") {
        Ok(117)
    } else if str_eq(key, "f7") {
        Ok(118)
    } else if str_eq(key, "f8") {
        Ok(119)
    } else if str_eq(key, "f9") {
        Ok(120)
    } else if str_eq(key, "f10") {
        Ok(121)
    } else if str_eq(key, "f11") {
        Ok(122)
    } else if str_eq(key, "f12") {
        Ok(123)
    } else if str_eq(key, "0") {
        Ok(58)
    } else if str_eq(key, "1") {
        Ok(49)
    } else if str_eq(key, "2") {
        Ok(50)
    } else if str_eq(key, "3") {
        Ok(51)
    } else if str_eq(key, "4") {
        Ok(52)
    } else if str_eq(key, "5") {
        Ok(53)
    } else if str_eq(key, "6") {
        Ok(54)
    } else if str_eq(key, "7") {
        Ok(55)
    } else if str_eq(key, "8") {
        Ok(56)
    } else if str_eq(key, "9") {
        Ok(57)
    } else if str_eq(key, "a") {
        Ok(65)
    } else if str_eq(key, "b") {
        Ok(66)
    } else if str_eq(key, "c") {
        Ok(67)
    } else if str_eq(key, "d") {
        Ok(68)
    } else if str_eq(key, "e") {
        Ok(69)
    } else if str_eq(key, "f") {
        Ok(70)
    } else if str_eq(key, "g") {
        Ok(71)
    } else if str_eq(key, "h") {
        Ok(72)
    } else if str_eq(key, "i") {
        Ok(73)
    } else if str_eq(key, "j") {
        Ok(74)
    } else if str_eq(key, "k") {
        Ok(75)
    } else if str_eq(key, "l") {
        Ok(76)
    } else if str_eq(key, "m") {
        Ok(77)
    } else if str_eq(key, "n") {
        Ok(78)
    } else if str_eq(key, "o") {
        Ok(79)
    } else if str_eq(key, "p") {
        Ok(80)
    } else if str_eq(key, "q") {
        Ok(81)
    } else if str_eq(key, "r") {
        Ok(82)
    } else if str_eq(key, "s") {
        Ok(83)
    } else if str_eq(key, "t") {
        Ok(84)
    } else if str_eq(key, "u") {
        Ok(85)
    } else if str_eq(key, "v") {
        Ok(86)
    } else if str_eq(key, "w") {
        Ok(87)
    } else if str_eq(key, "x") {
        Ok(88)
    } else if str_eq(key, "y") {
        Ok(89)
    } else if str_eq(key, "z") {
        Ok(90)
    } else {
        Err("invalid keycode")
    }
}

/// One window message, decoded into the plain values the capture state reads.
///
/// The raw-input variants carry the already-fetched event payload; the
/// parent-notify variant carries the click's y coordinate and the window's
/// outer height.
pub enum WindowMessage {
    /// A raw-input mouse event: relative motion plus button transition flags.
    RawMouse { dx: i32, dy: i32, buttons: u16 },
    /// A raw-input keyboard event; `flags == 0` means key down.
    RawKeyboard { vkey: u16, flags: u16 },
    /// A raw-input message of another device type.
    RawOther,
    /// A parent-notify message for a left-button press in a child window.
    ParentNotifyLeftDown { y: i32, height: i32 },
    /// A cursor-shape query.
    CursorQuery,
    /// Any mouse-button or keyboard down/up/double-click message, including
    /// the sys-key variants.
    ButtonOrKey,
    /// Every other message.
    Other,
}

/// The stored capture handle after the liveness check: a capture window that
/// no longer exists is forgotten.
pub open spec fn spec_validated_capture(capture: Option<u64>, alive: bool) -> Option<u64> {
    if capture is Some && !alive {
        None
    } else {
        capture
    }
}

/// The key array after translating one raw mouse event's button transition
/// flags; "down" bits set the slot, "up" bits clear it, in flag order.
pub open spec fn spec_apply_mouse_buttons(keys: Seq<bool>, buttons: u16) -> Seq<bool> {
    let k = if buttons & LBUTTONDOWN != 0 { keys.update(1, true) } else { keys };
    let k = if buttons & LBUTTONUP != 0 { k.update(1, false) } else { k };
    let k = if buttons & RBUTTONDOWN != 0 { k.update(2, true) } else { k };
    let k = if buttons & RBUTTONUP != 0 { k.update(2, false) } else { k };
    let k = if buttons & MBUTTONDOWN != 0 { k.update(4, true) } else { k };
    let k = if buttons & MBUTTONUP != 0 { k.update(4, false) } else { k };
    let k = if buttons & XBUTTON1DOWN != 0 { k.update(5, true) } else { k };
    let k = if buttons & XBUTTON1UP != 0 { k.update(5, false) } else { k };
    let k = if buttons & XBUTTON2DOWN != 0 { k.update(6, true) } else { k };
    let k = if buttons & XBUTTON2UP != 0 { k.update(6, false) } else { k };
    k
}

/// The key array after one raw keyboard event: `flags == 0` marks the key
/// down, anything else up. Codes outside the 256-slot array are ignored.
pub open spec fn spec_apply_keyboard(keys: Seq<bool>, vkey: u16, flags: u16) -> Seq<bool> {
    if vkey < 256 {
        keys.update(vkey as int, flags == 0)
    } else {
        keys
    }
}

/// Whether the unlock chord — shift and escape held in the same frame — is
/// down in the given key array.
pub open spec fn spec_unlock_chord(keys: Seq<bool>) -> bool {
    keys[VK_SHIFT as int] && keys[VK_ESCAPE as int]
}

/// Snapshot of keyboard key state and accumulated mouse motion.
pub struct RawInput {
    capture: Option<u64>,
    mouse_lock: bool,
    keys: Vec<bool>,
    mouse: (i32, i32),
    mouse_accumulator: (i32, i32),
}

impl RawInput {
    /// The capture window handle, if a raw-input message has named one.
    pub closed spec fn spec_capture(&self) -> Option<u64> {
        self.capture
    }

    /// Whether the mouse lock is engaged.
    pub closed spec fn spec_lock(&self) -> bool {
        self.mouse_lock
    }

    /// The 256-slot key-down array, indexed by virtual-key code.
    pub closed spec fn spec_keys(&self) -> Seq<bool> {
        self.keys@
    }

    /// The per-frame mouse delta frozen by the last `accumulate`.
    pub closed spec fn spec_mouse(&self) -> (i32, i32) {
        self.mouse
    }

    /// The deltas received since the last `accumulate`.
    pub closed spec fn spec_acc(&self) -> (i32, i32) {
        self.mouse_accumulator
    }

    pub open spec fn wf(&self) -> bool {
        self.spec_keys().len() == 256
    }

    /// Whether the named key is down; names outside the table read as up.
    pub open spec fn spec_key(&self, name: Seq<char>) -> bool {
        match spec_str_to_vk(name) {
            Some(vk) => self.spec_keys()[vk as int],
            None => false,
        }
    }

    /// The initial capture state: no capture window, unlocked, every key up,
    /// no motion.
    pub fn new() -> (r: Self)
        ensures
            r.wf(),
            r.spec_capture() is None,
            !r.spec_lock(),
            forall|i: int| 0 <= i < 256 ==> !r.spec_keys()[i],
            r.spec_mouse() == (0i32, 0i32),
            r.spec_acc() == (0i32, 0i32),
    {
        Self {
            capture: None,
            mouse_lock: false,
            keys: vec![false; 256],
            mouse: (0, 0),
            mouse_accumulator: (0, 0),
        }
    }

    pub fn capture(&self) -> (r: Option<u64>)
        ensures
            r == self.spec_capture(),
    {
        self.capture
    }

    pub fn locked(&self) -> (r: bool)
        ensures
            r == self.spec_lock(),
    {
        self.mouse_lock
    }

    /// Whether the named key is down; unknown names — and only table lookups
    /// that fail — read as up.
    pub fn key(&self, button: &str) -> (r: bool)
        requires
            self.wf(),
        ensures
            r == self.spec_key(button@),
            spec_str_to_vk(button@) is None ==> r == false,
    {
        proof {
            lemma_vk_in_range(button@);
        }
        match str_to_vk(button) {
            Ok(vk) => self.keys[vk as usize],
            Err(_) => false,
        }
    }

    /// The x component of the frozen per-frame mouse delta.
    pub fn mouse_x(&self) -> (r: i32)
        ensures
            r == self.spec_mouse().0,
    {
        self.mouse.0
    }

    /// The y component of the frozen per-frame mouse delta.
    pub fn mouse_y(&self) -> (r: i32)
        ensures
            r == self.spec_mouse().1,
    {
        self.mouse.1
    }

    fn parse_mouse(&mut self, dx: i32, dy: i32, buttons: u16)
        requires
            old(self).wf(),
        ensures
            final(self).wf(),
            final(self).spec_capture() == old(self).spec_capture(),
            final(self).spec_lock() == old(self).spec_lock(),
            final(self).spec_mouse() == old(self).spec_mouse(),
            final(self).spec_acc().0 == vstd::wrapping::i32_specs::wrapping_add(
                old(self).spec_acc().0,
                dx,
            ),
            final(self).spec_acc().1 == vstd::wrapping::i32_specs::wrapping_add(
                old(self).spec_acc().1,
                dy,
            ),
            final(self).spec_keys() == spec_apply_mouse_buttons(old(self).spec_keys(), buttons),
    {
        self.mouse_accumulator.0 = self.mouse_accumulator.0.wrapping_add(dx);
        self.mouse_accumulator.1 = self.mouse_accumulator.1.wrapping_add(dy);

        if buttons & LBUTTONDOWN != 0 {
            self.keys[1] = true;
        }
        if buttons & LBUTTONUP != 0 {
            self.keys[1] = false;
        }
        if buttons & RBUTTONDOWN != 0 {
            self.keys[2] = true;
        }
        if buttons & RBUTTONUP != 0 {
            self.keys[2] = false;
        }
        if buttons & MBUTTONDOWN != 0 {
            self.keys[4] = true;
        }
        if buttons & MBUTTONUP != 0 {
            self.keys[4] = false;
        }
        if buttons & XBUTTON1DOWN != 0 {
            self.keys[5] = true;
        }
        if buttons & XBUTTON1UP != 0 {
            self.keys[5] = false;
        }
        if buttons & XBUTTON2DOWN != 0 {
            self.keys[6] = true;
        }
        if buttons & XBUTTON2UP != 0 {
            self.keys[6] = false;
        }
    }

    fn parse_keyboard(&mut self, vkey: u16, flags: u16)
        requires
            old(self).wf(),
        ensures
            final(self).wf(),
            final(self).spec_capture() == old(self).spec_capture(),
            final(self).spec_mouse() == old(self).spec_mouse(),
            final(self).spec_acc() == old(self).spec_acc(),
            final(self).spec_keys() == spec_apply_keyboard(old(self).spec_keys(), vkey, flags),
            final(self).spec_lock() == if spec_unlock_chord(final(self).spec_keys()) {
                false
            } else {
                old(self).spec_lock()
            },
    {
        if vkey < 256 {
            self.keys[vkey as usize] = flags == 0;
        }
        if self.keys[16] && self.keys[27] {
            self.mouse_lock = false;
        }
    }

    /// Digests one decoded window message and says whether the message should
    /// be forwarded to the window's original handler.
    ///
    /// `capture_alive` answers the liveness query for the currently stored
    /// capture window; it is read only when one is stored. Raw-input messages
    /// record the window as capture target and are swallowed while the mouse
    /// lock is engaged. A left-button parent-notify above the bottom toolbar
    /// band engages the lock and is swallowed. Cursor queries and plain
    /// button or key messages are swallowed while captured and locked.
    /// Everything else is forwarded.
    pub fn parse(&mut self, h_wnd: u64, msg: WindowMessage, capture_alive: bool) -> (forward:
        bool)
        requires
            old(self).wf(),
        ensures
            final(self).wf(),
            ({
                let cap = spec_validated_capture(old(self).spec_capture(), capture_alive);
                match msg {
                    WindowMessage::RawMouse { dx, dy, buttons } => {
                        &&& final(self).spec_capture() == Some(h_wnd)
                        &&& final(self).spec_lock() == old(self).spec_lock()
                        &&& final(self).spec_mouse() == old(self).spec_mouse()
                        &&& final(self).spec_acc().0 == vstd::wrapping::i32_specs::wrapping_add(
                            old(self).spec_acc().0,
                            dx,
                        )
                        &&& final(self).spec_acc().1 == vstd::wrapping::i32_specs::wrapping_add(
                            old(self).spec_acc().1,
                            dy,
                        )
                        &&& final(self).spec_keys() == spec_apply_mouse_buttons(
                            old(self).spec_keys(),
                            buttons,
                        )
                        &&& forward == !final(self).spec_lock()
                    },
                    WindowMessage::RawKeyboard { vkey, flags } => {
                        &&& final(self).spec_capture() == Some(h_wnd)
                        &&& final(self).spec_mouse() == old(self).spec_mouse()
                        &&& final(self).spec_acc() == old(self).spec_acc()
                        &&& final(self).spec_keys() == spec_apply_keyboard(
                            old(self).spec_keys(),
                            vkey,
                            flags,
                        )
                        &&& final(self).spec_lock() == if spec_unlock_chord(
                            final(self).spec_keys(),
                        ) {
                            false
                        } else {
                            old(self).spec_lock()
                        }
                        &&& forward == !final(self).spec_lock()
                    },
                    WindowMessage::RawOther => {
                        &&& final(self).spec_capture() == Some(h_wnd)
                        &&& final(self).spec_lock() == old(self).spec_lock()
                        &&& final(self).spec_mouse() == old(self).spec_mouse()
                        &&& final(self).spec_acc() == old(self).spec_acc()
                        &&& final(self).spec_keys() == old(self).spec_keys()
                        &&& forward == !final(self).spec_lock()
                    },
                    WindowMessage::ParentNotifyLeftDown { y, height } => {
                        let engages = cap is Some && !old(self).spec_lock() && y as int
                            <= height as int - TOOLBAR_BAND as int;
                        &&& final(self).spec_capture() == cap
                        &&& final(self).spec_lock() == (old(self).spec_lock() || engages)
                        &&& final(self).spec_mouse() == old(self).spec_mouse()
                        &&& final(self).spec_acc() == old(self).spec_acc()
                        &&& final(self).spec_keys() == old(self).spec_keys()
                        &&& forward == !engages
                    },
                    WindowMessage::CursorQuery => {
                        &&& final(self).spec_capture() == cap
                        &&& final(self).spec_lock() == old(self).spec_lock()
                        &&& final(self).spec_mouse() == old(self).spec_mouse()
                        &&& final(self).spec_acc() == old(self).spec_acc()
                        &&& final(self).spec_keys() == old(self).spec_keys()
                        &&& forward == !(cap is Some && old(self).spec_lock())
                    },
                    WindowMessage::ButtonOrKey => {
                        &&& final(self).spec_capture() == cap
                        &&& final(self).spec_lock() == old(self).spec_lock()
                        &&& final(self).spec_mouse() == old(self).spec_mouse()
                        &&& final(self).spec_acc() == old(self).spec_acc()
                        &&& final(self).spec_keys() == old(self).spec_keys()
                        &&& forward == !(cap is Some && old(self).spec_lock())
                    },
                    WindowMessage::Other => {
                        &&& final(self).spec_capture() == cap
                        &&& final(self).spec_lock() == old(self).spec_lock()
                        &&& final(self).spec_mouse() == old(self).spec_mouse()
                        &&& final(self).spec_acc() == old(self).spec_acc()
                        &&& final(self).spec_keys() == old(self).spec_keys()
                        &&& forward == true
                    },
                }
            }),
    {
        if self.capture.is_some() && !capture_alive {
            self.capture = None;
        }

        match msg {
            WindowMessage::RawMouse { dx, dy, buttons } => {
                self.capture = Some(h_wnd);
                self.parse_mouse(dx, dy, buttons);
                !self.mouse_lock
            },
            WindowMessage::RawKeyboard { vkey, flags } => {
                self.capture = Some(h_wnd);
                self.parse_keyboard(vkey, flags);
                !self.mouse_lock
            },
            WindowMessage::RawOther => {
                self.capture = Some(h_wnd);
                !self.mouse_lock
            },
            WindowMessage::ParentNotifyLeftDown { y, height } => {
                if self.capture.is_some() && !self.mouse_lock && (y as i64) <= (height as i64)
                    - (TOOLBAR_BAND as i64) {
                    self.mouse_lock = true;
                    false
                } else {
                    true
                }
            },
            WindowMessage::CursorQuery => {
                !(self.capture.is_some() && self.mouse_lock)
            },
            WindowMessage::ButtonOrKey => {
                !(self.capture.is_some() && self.mouse_lock)
            },
            WindowMessage::Other => true,
        }
    }

    /// Freezes the accumulated deltas into the per-frame snapshot and zeroes
    /// the accumulator.
    ///
    /// `capture_alive` answers the liveness query for the stored capture
    /// window; a lock whose window has gone is released. The snapshot takes
    /// the accumulated motion while locked, zero while captured but unlocked,
    /// and is left alone when no window is captured. The return value says
    /// whether the caller should re-center the system cursor in the capture
    /// window.
    pub fn accumulate(&mut self, capture_alive: bool) -> (recenter: bool)
        requires
            old(self).wf(),
        ensures
            final(self).wf(),
            final(self).spec_acc() == (0i32, 0i32),
            final(self).spec_capture() == old(self).spec_capture(),
            final(self).spec_keys() == old(self).spec_keys(),
            ({
                let lock = old(self).spec_lock() && !(old(self).spec_capture() is Some
                    && !capture_alive);
                &&& final(self).spec_lock() == lock
                &&& final(self).spec_mouse() == if old(self).spec_capture() is Some {
                    if lock {
                        old(self).spec_acc()
                    } else {
                        (0i32, 0i32)
                    }
                } else {
                    old(self).spec_mouse()
                }
                &&& recenter == (old(self).spec_capture() is Some && lock)
            }),
    {
        let mut recenter = false;
        if self.capture.is_some() {
            if self.mouse_lock && !capture_alive {
                self.mouse_lock = false;
            }
            if self.mouse_lock {
                self.mouse.0 = self.mouse_accumulator.0;
                self.mouse.1 = self.mouse_accumulator.1;
                recenter = true;
            } else {
                self.mouse.0 = 0;
                self.mouse.1 = 0;
            }
        }
        self.mouse_accumulator.0 = 0;
        self.mouse_accumulator.1 = 0;
        recenter
    }
}

} // verus!
