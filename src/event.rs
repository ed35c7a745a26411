use vstd::prelude::*;

verus! {

/// The identity of a native window: stable while the window lives, and never
/// shared by two live windows.
#[derive(Clone, Copy, Debug, PartialEq, Eq, Structural, PartialOrd, Ord, Hash)]
pub struct HWND(pub usize);

/// Whether an event loop goes on.
#[derive(Clone, Copy, Debug, PartialEq, Eq, Structural)]
pub enum ControlFlow {
    /// Continue looping and waiting for events.
    Continue,
    /// Break from the event loop.
    Break,
}

/// A mouse button.
#[derive(Clone, Copy, Debug, PartialEq, Eq, Structural)]
pub enum MouseButton {
    Left,
    Middle,
    Right,
}

/// A key the viewer reacts to; any other key keeps its virtual-key code.
#[derive(Clone, Copy, Debug, PartialEq, Eq, Structural)]
pub enum Key {
    Space,
    Up,
    Down,
    Left,
    Right,
    Key1,
    Key2,
    Key3,
    Key4,
    A,
    D,
    K,
    L,
    R,
    Other(i32),
}

/// A normalized event, whatever platform message it came from.
#[derive(Clone, Debug, PartialEq)]
pub enum EventType {
    CloseRequest,
    Quit,
    MouseMove { x: i32, y: i32 },
    MouseDown { button: MouseButton, x: i32, y: i32 },
    MouseWheel { delta: i16, x: i32, y: i32 },
    KeyDown { key: Key },
    Moved { x: i32, y: i32 },
    Moving { x: i32, y: i32 },
    Resize { width: i32, height: i32 },
    Resizing { width: i32, height: i32 },
    DropFile { file: String },
    /// A notification from the list view: its code, the item it concerns
    /// (-1 for none) and that item's state flags after and before.
    Notify { code: u32, item: i32, new_state: u32, old_state: u32 },
    HScroll { wp: usize, lp: isize },
    CtrlColorStatic { wp: usize, lp: isize },
}

/// An event and the window it was raised on.
#[derive(Clone, Debug, PartialEq)]
pub struct Event {
    pub event: EventType,
    pub hwnd: HWND,
}

pub const WM_CLOSE: u32 = 0x0010;
pub const WM_KEYDOWN: u32 = 0x0100;
pub const WM_HSCROLL: u32 = 0x0114;
pub const WM_CTLCOLORSTATIC: u32 = 0x0138;
pub const WM_MOUSEMOVE: u32 = 0x0200;
pub const WM_LBUTTONDOWN: u32 = 0x0201;
pub const WM_RBUTTONDOWN: u32 = 0x0204;
pub const WM_MBUTTONDOWN: u32 = 0x0207;
pub const WM_MOUSEWHEEL: u32 = 0x020A;
pub const SWP_NOMOVE: u32 = 0x0002;
pub const VK_SPACE: i32 = 0x20;
pub const VK_LEFT: i32 = 0x25;
pub const VK_UP: i32 = 0x26;
pub const VK_RIGHT: i32 = 0x27;
pub const VK_DOWN: i32 = 0x28;

/// The text that `String::from_utf16` decodes from `units`, or `None` where
/// they are not well-formed UTF-16.
pub uninterp spec fn utf16_text(units: Seq<u16>) -> Option<Seq<char>>;

/// The paths of a drop, in order: each list of UTF-16 units that is not empty
/// and decodes, as its text.
pub open spec fn dropped_paths(paths: Seq<Vec<u16>>) -> Seq<Seq<char>>
    decreases paths.len(),
{
    if paths.len() == 0 {
        Seq::empty()
    } else {
        let rest = dropped_paths(paths.drop_last());
        let units = paths.last()@;
        match utf16_text(units) {
            Some(t) => if units.len() > 0 {
                rest.push(t)
            } else {
                rest
            },
            None => rest,
        }
    }
}

/// Relies on `String::from_utf16`: decodes the units, failing on malformed ones.
#[verifier::external_body]
fn decode_utf16(units: &[u16]) -> (r: Option<String>)
    ensures
        match r {
            Some(s) => utf16_text(units@) == Some(s@),
            None => utf16_text(units@) is None,
        },
{
    String::from_utf16(units).ok()
}

/// The low 16 bits of `v`.
pub open spec fn low_word(v: int) -> int {
    v % 65536
}

/// Bits 16 to 31 of `v`.
pub open spec fn high_word(v: int) -> int {
    (v / 65536) % 65536
}

/// The 16-bit word `w` read as a signed number.
pub open spec fn signed16(w: int) -> int {
    if w >= 32768 {
        w - 65536
    } else {
        w
    }
}

/// The key of a virtual-key code.
pub open spec fn key_of(code: i32) -> Key {
    if code == VK_SPACE {
        Key::Space
    } else if code == VK_UP {
        Key::Up
    } else if code == VK_DOWN {
        Key::Down
    } else if code == VK_LEFT {
        Key::Left
    } else if code == VK_RIGHT {
        Key::Right
    } else if code == 0x31 {
        Key::Key1
    } else if code == 0x32 {
        Key::Key2
    } else if code == 0x33 {
        Key::Key3
    } else if code == 0x34 {
        Key::Key4
    } else if code == 0x41 {
        Key::A
    } else if code == 0x44 {
        Key::D
    } else if code == 0x4B {
        Key::K
    } else if code == 0x4C {
        Key::L
    } else if code == 0x52 {
        Key::R
    } else {
        Key::Other(code)
    }
}

/// Whether `msg` is a mouse-button-down message.
pub open spec fn is_button_message(msg: u32) -> bool {
    msg == WM_LBUTTONDOWN || msg == WM_MBUTTONDOWN || msg == WM_RBUTTONDOWN
}

/// The button of a mouse-button-down message.
pub open spec fn button_of(msg: u32) -> MouseButton {
    if msg == WM_LBUTTONDOWN {
        MouseButton::Left
    } else if msg == WM_MBUTTONDOWN {
        MouseButton::Middle
    } else {
        MouseButton::Right
    }
}

/// The event that a message with plain parameters stands for, if any.
pub open spec fn translated(msg: u32, wp: usize, lp: isize) -> Option<EventType> {
    let x = signed16(low_word(lp as int)) as i32;
    let y = signed16(high_word(lp as int)) as i32;
    if msg == WM_CLOSE {
        Some(EventType::CloseRequest)
    } else if msg == WM_KEYDOWN {
        Some(EventType::KeyDown { key: key_of(low_word(wp as int) as i32) })
    } else if is_button_message(msg) {
        Some(EventType::MouseDown { button: button_of(msg), x, y })
    } else if msg == WM_MOUSEMOVE {
        Some(EventType::MouseMove { x, y })
    } else if msg == WM_MOUSEWHEEL {
        Some(EventType::MouseWheel { delta: signed16(high_word(wp as int)) as i16, x, y })
    } else if msg == WM_HSCROLL {
        Some(EventType::HScroll { wp, lp })
    } else if msg == WM_CTLCOLORSTATIC {
        Some(EventType::CtrlColorStatic { wp, lp })
    } else {
        None
    }
}

impl From<i32> for Key {
    fn from(key: i32) -> (r: Key)
        ensures
            r == key_of(key),
    {
        if key == VK_SPACE {
            Key::Space
        } else if key == VK_UP {
            Key::Up
        } else if key == VK_DOWN {
            Key::Down
        } else if key == VK_LEFT {
            Key::Left
        } else if key == VK_RIGHT {
            Key::Right
        } else if key == 0x31 {
            Key::Key1
        } else if key == 0x32 {
            Key::Key2
        } else if key == 0x33 {
            Key::Key3
        } else if key == 0x34 {
            Key::Key4
        } else if key == 0x41 {
            Key::A
        } else if key == 0x44 {
            Key::D
        } else if key == 0x4B {
            Key::K
        } else if key == 0x4C {
            Key::L
        } else if key == 0x52 {
            Key::R
        } else {
            Key::Other(key)
        }
    }
}

impl vstd::std_specs::convert::FromSpecImpl<i32> for Key {
    open spec fn obeys_from_spec() -> bool {
        true
    }

    open spec fn from_spec(v: i32) -> Key {
        key_of(v)
    }
}

impl MouseButton {
    /// The button of a mouse-button-down message; any other message is a
    /// caller's error.
    pub fn from_message(msg: u32) -> (r: MouseButton)
        requires
            is_button_message(msg),
        ensures
            r == button_of(msg),
    {
        if msg == WM_LBUTTONDOWN {
            MouseButton::Left
        } else if msg == WM_MBUTTONDOWN {
            MouseButton::Middle
        } else {
            MouseButton::Right
        }
    }
}

fn low_word_of(v: isize) -> (r: isize)
    ensures
        r as int == low_word(v as int),
        0 <= r < 65536,
{
    let m = v % 65536;
    if m < 0 {
        m + 65536
    } else {
        m
    }
}

fn high_word_of(v: isize) -> (r: isize)
    ensures
        r as int == high_word(v as int),
        0 <= r < 65536,
{
    let lo = low_word_of(v);
    let q = (v - lo) / 65536;
    assert(q as int == (v as int) / 65536) by (nonlinear_arith)
        requires
            lo as int == (v as int) % 65536,
            q == (v - lo) / 65536,
    ;
    low_word_of(q)
}

fn signed16_of(w: isize) -> (r: i32)
    requires
        0 <= w < 65536,
    ensures
        r as int == signed16(w as int),
{
    if w >= 32768 {
        (w - 65536) as i32
    } else {
        w as i32
    }
}

/// Translates a message whose parameters are plain values into an event, or
/// `None` when the message is not one this viewer reacts to. Key codes come
/// from the low word of `wp`, pointer coordinates from the two signed words of
/// `lp`, and the wheel distance from the high signed word of `wp`.
pub fn translate(msg: u32, wp: usize, lp: isize) -> (r: Option<EventType>)
    ensures
        r == translated(msg, wp, lp),
{
    let x = signed16_of(low_word_of(lp));
    let y = signed16_of(high_word_of(lp));
    let wlo: usize = wp % 65536;
    let whi: usize = (wp / 65536) % 65536;
    if msg == WM_CLOSE {
        Some(EventType::CloseRequest)
    } else if msg == WM_KEYDOWN {
        Some(EventType::KeyDown { key: Key::from(wlo as i32) })
    } else if msg == WM_LBUTTONDOWN || msg == WM_MBUTTONDOWN || msg == WM_RBUTTONDOWN {
        Some(EventType::MouseDown { button: MouseButton::from_message(msg), x, y })
    } else if msg == WM_MOUSEMOVE {
        Some(EventType::MouseMove { x, y })
    } else if msg == WM_MOUSEWHEEL {
        let delta = signed16_of(whi as isize) as i16;
        Some(EventType::MouseWheel { delta, x, y })
    } else if msg == WM_HSCROLL {
        Some(EventType::HScroll { wp, lp })
    } else if msg == WM_CTLCOLORSTATIC {
        Some(EventType::CtrlColorStatic { wp, lp })
    } else {
        None
    }
}

/// `e` is the drop of a file at path `t` on window `origin`.
pub open spec fn is_drop_of(e: Event, origin: HWND, t: Seq<char>) -> bool {
    &&& e.hwnd == origin
    &&& match e.event {
        EventType::DropFile { file } => file@ == t,
        _ => false,
    }
}

/// The events of one drop of files on window `origin`: a `DropFile` for each
/// path, in drop order. A path that is empty or does not decode is skipped;
/// the others still come.
pub fn drop_events(origin: HWND, paths: &Vec<Vec<u16>>) -> (r: Vec<Event>)
    ensures
        r@.len() == dropped_paths(paths@).len(),
        forall|i: int|
            0 <= i < r@.len() ==> is_drop_of(#[trigger] r@[i], origin, dropped_paths(paths@)[i]),
{
    let mut r: Vec<Event> = Vec::new();
    let mut i: usize = 0;
    while i < paths.len()
        invariant
            i <= paths@.len(),
            r@.len() == dropped_paths(paths@.subrange(0, i as int)).len(),
            forall|j: int|
                0 <= j < r@.len() ==> is_drop_of(
                    #[trigger] r@[j],
                    origin,
                    dropped_paths(paths@.subrange(0, i as int))[j],
                ),
        decreases paths@.len() - i,
    {
        assert(paths@.subrange(0, i + 1).drop_last() =~= paths@.subrange(0, i as int));
        let ghost prev = dropped_paths(paths@.subrange(0, i as int));
        let ghost r0 = r@;
        let units = &paths[i];
        if units.len() > 0 {
            match decode_utf16(units.as_slice()) {
                Some(file) => {
                    let ghost text = file@;
                    r.push(Event { event: EventType::DropFile { file }, hwnd: origin });
                    assert(dropped_paths(paths@.subrange(0, i + 1)) == prev.push(text));
                    assert forall|j: int| 0 <= j < r@.len() implies is_drop_of(
                        #[trigger] r@[j],
                        origin,
                        prev.push(text)[j],
                    ) by {
                        if j < r0.len() {
                            assert(r@[j] == r0[j]);
                        }
                    }
                },
                None => {
                    assert(dropped_paths(paths@.subrange(0, i + 1)) == prev);
                },
            }
        } else {
            assert(dropped_paths(paths@.subrange(0, i + 1)) == prev);
        }
        i = i + 1;
    }
    assert(paths@.subrange(0, paths@.len() as int) =~= paths@);
    r
}

/// The event of a window position change: `Moved` once the change is done,
/// `Moving` while it is under way, and `None` when the window keeps its place
/// (`SWP_NOMOVE` among `flags`).
pub fn window_pos_event(done: bool, flags: u32, x: i32, y: i32) -> (r: Option<EventType>)
    ensures
        flags & SWP_NOMOVE == SWP_NOMOVE ==> r is None,
        flags & SWP_NOMOVE != SWP_NOMOVE ==> r == if done {
            Some(EventType::Moved { x, y })
        } else {
            Some(EventType::Moving { x, y })
        },
{
    if flags & SWP_NOMOVE == SWP_NOMOVE {
        None
    } else if done {
        Some(EventType::Moved { x, y })
    } else {
        Some(EventType::Moving { x, y })
    }
}

} // verus!
