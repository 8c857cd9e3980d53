//! Input collection: translates raw window messages into semantic input
//! events and accumulates them in a queue that is drained once per frame.
//!
//! Message translation is pure: everything the platform reports
//! asynchronously (key modifier state, clipboard contents) is handed in as
//! plain values by the embedding application, so the mapping from message to
//! event is checked for every possible message.

use vstd::prelude::*;

verus! {

// Window message identifiers, as the platform defines them.
pub const WM_KEYDOWN: u32 = 0x0100;
pub const WM_KEYUP: u32 = 0x0101;
pub const WM_CHAR: u32 = 0x0102;
pub const WM_SYSKEYDOWN: u32 = 0x0104;
pub const WM_SYSKEYUP: u32 = 0x0105;
pub const WM_MOUSEMOVE: u32 = 0x0200;
pub const WM_LBUTTONDOWN: u32 = 0x0201;
pub const WM_LBUTTONUP: u32 = 0x0202;
pub const WM_LBUTTONDBLCLK: u32 = 0x0203;
pub const WM_RBUTTONDOWN: u32 = 0x0204;
pub const WM_RBUTTONUP: u32 = 0x0205;
pub const WM_RBUTTONDBLCLK: u32 = 0x0206;
pub const WM_MBUTTONDOWN: u32 = 0x0207;
pub const WM_MBUTTONUP: u32 = 0x0208;
pub const WM_MBUTTONDBLCLK: u32 = 0x0209;
pub const WM_MOUSEWHEEL: u32 = 0x020A;
pub const WM_MOUSEHWHEEL: u32 = 0x020E;

/// One hardware wheel notch, in the units mouse wheel messages report.
pub const WHEEL_DELTA: i32 = 120;

/// A position in integer pixel coordinates, origin at the window's top-left
/// corner, y growing downward.
#[derive(Clone, Copy, PartialEq, Eq, Structural, Debug)]
pub struct PixelPos {
    pub x: i32,
    pub y: i32,
}

/// Modifier-key state attached to pointer and key events.
#[derive(Clone, Copy, PartialEq, Eq, Structural, Debug)]
pub struct Modifiers {
    pub alt: bool,
    pub ctrl: bool,
    pub shift: bool,
    pub mac_cmd: bool,
    pub command: bool,
}

/// Pointer buttons the collector distinguishes.
#[derive(Clone, Copy, PartialEq, Eq, Structural, Debug)]
pub enum PointerButton {
    Primary,
    Secondary,
    Middle,
}

/// Keys the collector reports. Letters and digits carry their ASCII code.
#[derive(Clone, Copy, PartialEq, Eq, Structural, Debug)]
pub enum KeyCode {
    ArrowDown,
    ArrowLeft,
    ArrowRight,
    ArrowUp,
    Escape,
    Tab,
    Backspace,
    Enter,
    Space,
    Insert,
    Delete,
    Home,
    End,
    PageUp,
    PageDown,
    /// A decimal digit key; the payload is the digit value, 0 through 9.
    Digit(u8),
    /// A letter key; the payload is the ASCII code of the upper-case letter.
    Letter(u8),
}

/// A semantic input event, produced from one window message and consumed
/// exactly once by the next frame.
#[derive(Clone, PartialEq, Debug)]
pub enum InputEvent {
    PointerMoved(PixelPos),
    PointerButton { pos: PixelPos, button: PointerButton, pressed: bool, modifiers: Modifiers },
    Key { key: KeyCode, pressed: bool, modifiers: Modifiers },
    /// A typed character.
    Text(char),
    /// Clipboard text inserted by the paste shortcut.
    Paste(String),
    /// Wheel movement in hardware units; one notch is [`WHEEL_DELTA`].
    Scroll { dx: i16, dy: i16 },
    /// Wheel movement with the control modifier held.
    Zoom { zoom_in: bool },
    Copy,
    Cut,
}

/// Platform state that arrives outside the message itself: asynchronous
/// modifier-key state and, for the paste shortcut, the clipboard text. The
/// embedding application samples these and passes them in as plain values.
#[derive(Clone, PartialEq, Debug)]
pub struct SystemInput {
    pub ctrl_down: bool,
    pub shift_down: bool,
    /// Clipboard text, if it could be read; absent on any failure.
    pub clipboard: Option<String>,
}

/// Screen size in whole pixels.
#[derive(Clone, Copy, PartialEq, Eq, Structural, Debug)]
pub struct ScreenSize {
    pub width: u32,
    pub height: u32,
}

/// The input handed to one GUI frame: the screen, a time stamp, the modifier
/// state, and the queued events, drained from the collector.
///
/// Time is measured in ticks of 100 nanoseconds, so well under the
/// microsecond resolution the GUI needs; the epoch does not matter.
#[derive(Clone, PartialEq, Debug)]
pub struct FrameInput {
    pub screen: ScreenSize,
    pub time_ticks: u64,
    pub modifiers: Modifiers,
    pub events: Vec<InputEvent>,
}

/// Sign extension of a 16-bit word given as a value in `[0, 0x10000)`.
pub open spec fn sign_extended_16(w: int) -> int {
    if w >= 0x8000 {
        w - 0x10000
    } else {
        w
    }
}

/// Low 16 bits of a packed message parameter.
pub open spec fn low_word(bits: usize) -> int {
    bits as int % 0x10000
}

/// Bits 16 through 31 of a packed message parameter.
pub open spec fn high_word(bits: usize) -> int {
    (bits as int / 0x10000) % 0x10000
}

/// The pointer position packed into a mouse message's l-parameter:
/// sign-extended 16-bit x in the low word, y in the next word.
pub open spec fn decoded_pos(lparam: isize) -> PixelPos {
    PixelPos {
        x: sign_extended_16(low_word(lparam as usize)) as i32,
        y: sign_extended_16(high_word(lparam as usize)) as i32,
    }
}

/// The wheel rotation packed into a wheel message's w-parameter, in hardware
/// units: sign-extended 16-bit value in the high word.
pub open spec fn decoded_wheel_delta(wparam: usize) -> int {
    sign_extended_16(high_word(wparam))
}

/// Whether the control-key flag is set in a mouse message's w-parameter
/// (bit 3 of the low word).
pub open spec fn mouse_ctrl_flag(wparam: usize) -> bool {
    (bits_of(wparam) / 8) % 2 == 1
}

/// Whether the shift-key flag is set in a mouse message's w-parameter
/// (bit 2 of the low word).
pub open spec fn mouse_shift_flag(wparam: usize) -> bool {
    (bits_of(wparam) / 4) % 2 == 1
}

pub open spec fn bits_of(wparam: usize) -> int {
    wparam as int
}

/// Modifier state carried by a mouse message's w-parameter. The platform
/// reports no alt state there; the command flag mirrors control.
pub open spec fn decoded_mouse_modifiers(wparam: usize) -> Modifiers {
    Modifiers {
        alt: false,
        ctrl: mouse_ctrl_flag(wparam),
        shift: mouse_shift_flag(wparam),
        mac_cmd: false,
        command: mouse_ctrl_flag(wparam),
    }
}

/// Modifier state for key messages: control and shift come from the sampled
/// asynchronous key state, alt from whether the message is a system key
/// message.
pub open spec fn decoded_key_modifiers(umsg: u32, sys: SystemInput) -> Modifiers {
    Modifiers {
        alt: umsg == WM_SYSKEYDOWN,
        ctrl: sys.ctrl_down,
        shift: sys.shift_down,
        mac_cmd: false,
        command: sys.ctrl_down,
    }
}

/// The key a key message's w-parameter names, if the collector handles it.
pub open spec fn decoded_key(wparam: usize) -> Option<KeyCode> {
    let w = bits_of(wparam);
    if 0x30 <= w <= 0x39 {
        Some(KeyCode::Digit((w - 0x30) as u8))
    } else if 0x41 <= w <= 0x5A {
        Some(KeyCode::Letter(w as u8))
    } else if w == 0x08 {
        Some(KeyCode::Backspace)
    } else if w == 0x09 {
        Some(KeyCode::Tab)
    } else if w == 0x0D {
        Some(KeyCode::Enter)
    } else if w == 0x1B {
        Some(KeyCode::Escape)
    } else if w == 0x20 {
        Some(KeyCode::Space)
    } else if w == 0x21 {
        Some(KeyCode::PageUp)
    } else if w == 0x22 {
        Some(KeyCode::PageDown)
    } else if w == 0x23 {
        Some(KeyCode::End)
    } else if w == 0x24 {
        Some(KeyCode::Home)
    } else if w == 0x25 {
        Some(KeyCode::ArrowLeft)
    } else if w == 0x26 {
        Some(KeyCode::ArrowUp)
    } else if w == 0x27 {
        Some(KeyCode::ArrowRight)
    } else if w == 0x28 {
        Some(KeyCode::ArrowDown)
    } else if w == 0x2D {
        Some(KeyCode::Insert)
    } else if w == 0x2E {
        Some(KeyCode::Delete)
    } else {
        None
    }
}

/// A code point the platform can hand to a text message that names a valid
/// Unicode scalar value (not a surrogate, not beyond the last code point).
pub open spec fn is_unicode_scalar(w: int) -> bool {
    (0 <= w < 0xD800) || (0xE000 <= w <= 0x10FFFF)
}

/// A control code point (category Cc): C0 controls, delete, C1 controls.
pub open spec fn is_control_code(w: int) -> bool {
    w < 0x20 || (0x7F <= w <= 0x9F)
}

/// Events appended for a pointer-button message.
pub open spec fn button_event(
    wparam: usize,
    lparam: isize,
    button: PointerButton,
    pressed: bool,
) -> Seq<InputEvent> {
    seq![
        InputEvent::PointerButton {
            pos: decoded_pos(lparam),
            button,
            pressed,
            modifiers: decoded_mouse_modifiers(wparam),
        },
    ]
}

/// Events appended for a wheel message: a zoom step when the control flag is
/// held, otherwise a scroll along the message's axis.
pub open spec fn wheel_events(wparam: usize, vertical: bool) -> Seq<InputEvent> {
    let delta = decoded_wheel_delta(wparam);
    if mouse_ctrl_flag(wparam) {
        seq![InputEvent::Zoom { zoom_in: delta > 0 }]
    } else if vertical {
        seq![InputEvent::Scroll { dx: 0, dy: delta as i16 }]
    } else {
        seq![InputEvent::Scroll { dx: delta as i16, dy: 0 }]
    }
}

/// Events appended for a key-down message. The space key types a space; the
/// copy, cut and paste shortcuts are recognized by key and control modifier
/// and become their own events instead of raw key events; the paste shortcut
/// inserts the clipboard text and is dropped when none could be read.
pub open spec fn key_down_events(umsg: u32, wparam: usize, sys: SystemInput) -> Seq<InputEvent> {
    match decoded_key(wparam) {
        Some(key) => {
            let mods = decoded_key_modifiers(umsg, sys);
            if key == KeyCode::Space {
                seq![InputEvent::Text(' ')]
            } else if key == KeyCode::Letter(0x56) && mods.ctrl {
                match sys.clipboard {
                    Some(text) => seq![InputEvent::Paste(text)],
                    None => Seq::empty(),
                }
            } else if key == KeyCode::Letter(0x43) && mods.ctrl {
                seq![InputEvent::Copy]
            } else if key == KeyCode::Letter(0x58) && mods.ctrl {
                seq![InputEvent::Cut]
            } else {
                seq![InputEvent::Key { key, pressed: true, modifiers: mods }]
            }
        },
        None => Seq::empty(),
    }
}

/// Events appended for a key-up message.
pub open spec fn key_up_events(umsg: u32, wparam: usize, sys: SystemInput) -> Seq<InputEvent> {
    match decoded_key(wparam) {
        Some(key) => seq![
            InputEvent::Key {
                key,
                pressed: false,
                modifiers: decoded_key_modifiers(umsg, sys),
            },
        ],
        None => Seq::empty(),
    }
}

/// Events appended for every handled message other than a text message
/// (whose appended event carries a character that only the translation
/// itself can produce; see [`text_message_appends`]).
pub open spec fn translated_events(
    umsg: u32,
    wparam: usize,
    lparam: isize,
    sys: SystemInput,
) -> Seq<InputEvent> {
    if umsg == WM_MOUSEMOVE {
        seq![InputEvent::PointerMoved(decoded_pos(lparam))]
    } else if umsg == WM_LBUTTONDOWN || umsg == WM_LBUTTONDBLCLK {
        button_event(wparam, lparam, PointerButton::Primary, true)
    } else if umsg == WM_LBUTTONUP {
        button_event(wparam, lparam, PointerButton::Primary, false)
    } else if umsg == WM_RBUTTONDOWN || umsg == WM_RBUTTONDBLCLK {
        button_event(wparam, lparam, PointerButton::Secondary, true)
    } else if umsg == WM_RBUTTONUP {
        button_event(wparam, lparam, PointerButton::Secondary, false)
    } else if umsg == WM_MBUTTONDOWN || umsg == WM_MBUTTONDBLCLK {
        button_event(wparam, lparam, PointerButton::Middle, true)
    } else if umsg == WM_MBUTTONUP {
        button_event(wparam, lparam, PointerButton::Middle, false)
    } else if umsg == WM_MOUSEWHEEL {
        wheel_events(wparam, true)
    } else if umsg == WM_MOUSEHWHEEL {
        wheel_events(wparam, false)
    } else if umsg == WM_KEYDOWN || umsg == WM_SYSKEYDOWN {
        key_down_events(umsg, wparam, sys)
    } else if umsg == WM_KEYUP || umsg == WM_SYSKEYUP {
        key_up_events(umsg, wparam, sys)
    } else {
        Seq::empty()
    }
}

/// What a text message appends: one typed character whose code is the
/// message's w-parameter, when that names a Unicode scalar value that is not
/// a control code; nothing otherwise.
pub open spec fn text_message_appends(wparam: usize, added: Seq<InputEvent>) -> bool {
    let w = (wparam as u32) as int;
    if is_unicode_scalar(w) && !is_control_code(w) {
        &&& added.len() == 1
        &&& added[0] matches InputEvent::Text(c) && c as int == w
    } else {
        added == Seq::<InputEvent>::empty()
    }
}

/// Whether the collector handles a message identifier at all.
pub open spec fn is_input_message(umsg: u32) -> bool {
    ||| umsg == WM_MOUSEMOVE
    ||| umsg == WM_LBUTTONDOWN
    ||| umsg == WM_LBUTTONUP
    ||| umsg == WM_LBUTTONDBLCLK
    ||| umsg == WM_RBUTTONDOWN
    ||| umsg == WM_RBUTTONUP
    ||| umsg == WM_RBUTTONDBLCLK
    ||| umsg == WM_MBUTTONDOWN
    ||| umsg == WM_MBUTTONUP
    ||| umsg == WM_MBUTTONDBLCLK
    ||| umsg == WM_MOUSEWHEEL
    ||| umsg == WM_MOUSEHWHEEL
    ||| umsg == WM_CHAR
    ||| umsg == WM_KEYDOWN
    ||| umsg == WM_SYSKEYDOWN
    ||| umsg == WM_KEYUP
    ||| umsg == WM_SYSKEYUP
}

/// What one call of [`InputCollector::collect_input`] returns: the whole
/// queue, in arrival order.
pub open spec fn collect_returned(queued: Seq<InputEvent>) -> Seq<InputEvent> {
    queued
}

/// What one call of [`InputCollector::collect_input`] leaves queued: nothing.
pub open spec fn collect_remaining(queued: Seq<InputEvent>) -> Seq<InputEvent> {
    Seq::empty()
}

/// Collecting drains the queue, so a second collection with no messages in
/// between returns no events.
pub proof fn lemma_second_collect_is_empty(queued: Seq<InputEvent>)
    ensures
        collect_returned(collect_remaining(queued)) == Seq::<InputEvent>::empty(),
{
}

/// Accumulates translated input events until the next frame drains them.
pub struct InputCollector {
    events: Vec<InputEvent>,
    last_time_ticks: u64,
}

/// Relies on char::from_u32: it returns the character with the given code
/// exactly when the code is a Unicode scalar value (not a surrogate and at
/// most 0x10FFFF), and None otherwise.
#[verifier::external_body]
fn char_from_code(w: u32) -> (r: Option<char>)
    ensures
        r is Some <==> is_unicode_scalar(w as int),
        r matches Some(c) ==> c as int == w as int,
{
    char::from_u32(w)
}

/// Decodes the pointer position packed into a mouse message's l-parameter.
fn get_pos(lparam: isize) -> (p: PixelPos)
    ensures
        p == decoded_pos(lparam),
{
    let bits: usize = lparam as usize;
    let lo: usize = bits % 0x10000;
    let hi: usize = (bits / 0x10000) % 0x10000;
    let x: i32 = if lo >= 0x8000 {
        lo as i32 - 0x10000
    } else {
        lo as i32
    };
    let y: i32 = if hi >= 0x8000 {
        hi as i32 - 0x10000
    } else {
        hi as i32
    };
    PixelPos { x, y }
}

/// Decodes the modifier flags packed into a mouse message's w-parameter.
fn get_modifiers(wparam: usize) -> (m: Modifiers)
    ensures
        m == decoded_mouse_modifiers(wparam),
{
    let ctrl: bool = (wparam / 8) % 2 == 1;
    let shift: bool = (wparam / 4) % 2 == 1;
    Modifiers { alt: false, ctrl, shift, mac_cmd: false, command: ctrl }
}

/// Modifier state for a key message, from the sampled key state.
fn get_key_modifiers(umsg: u32, sys: &SystemInput) -> (m: Modifiers)
    ensures
        m == decoded_key_modifiers(umsg, *sys),
{
    Modifiers {
        alt: umsg == WM_SYSKEYDOWN,
        ctrl: sys.ctrl_down,
        shift: sys.shift_down,
        mac_cmd: false,
        command: sys.ctrl_down,
    }
}

/// Maps a key message's w-parameter to the key it names.
fn get_key(wparam: usize) -> (k: Option<KeyCode>)
    ensures
        k == decoded_key(wparam),
{
    if 0x30 <= wparam && wparam <= 0x39 {
        Some(KeyCode::Digit((wparam - 0x30) as u8))
    } else if 0x41 <= wparam && wparam <= 0x5A {
        Some(KeyCode::Letter(wparam as u8))
    } else if wparam == 0x08 {
        Some(KeyCode::Backspace)
    } else if wparam == 0x09 {
        Some(KeyCode::Tab)
    } else if wparam == 0x0D {
        Some(KeyCode::Enter)
    } else if wparam == 0x1B {
        Some(KeyCode::Escape)
    } else if wparam == 0x20 {
        Some(KeyCode::Space)
    } else if wparam == 0x21 {
        Some(KeyCode::PageUp)
    } else if wparam == 0x22 {
        Some(KeyCode::PageDown)
    } else if wparam == 0x23 {
        Some(KeyCode::End)
    } else if wparam == 0x24 {
        Some(KeyCode::Home)
    } else if wparam == 0x25 {
        Some(KeyCode::ArrowLeft)
    } else if wparam == 0x26 {
        Some(KeyCode::ArrowUp)
    } else if wparam == 0x27 {
        Some(KeyCode::ArrowRight)
    } else if wparam == 0x28 {
        Some(KeyCode::ArrowDown)
    } else if wparam == 0x2D {
        Some(KeyCode::Insert)
    } else if wparam == 0x2E {
        Some(KeyCode::Delete)
    } else {
        None
    }
}

/// Decodes the wheel rotation packed into a wheel message's w-parameter.
fn get_wheel_delta(wparam: usize) -> (d: i16)
    ensures
        d as int == decoded_wheel_delta(wparam),
{
    let hi: usize = (wparam / 0x10000) % 0x10000;
    if hi >= 0x8000 {
        (hi as i32 - 0x10000) as i16
    } else {
        hi as i16
    }
}

impl InputCollector {
    /// A collector with an empty queue.
    pub fn new() -> (c: InputCollector)
        ensures
            c.queued() == Seq::<InputEvent>::empty(),
            c.last_time() == 0,
    {
        InputCollector { events: Vec::new(), last_time_ticks: 0 }
    }

    /// The events queued so far, in arrival order.
    pub closed spec fn queued(&self) -> Seq<InputEvent> {
        self.events@
    }

    /// The latest time stamp handed out, for monotonicity.
    pub closed spec fn last_time(&self) -> u64 {
        self.last_time_ticks
    }

    /// Translates one window message and appends the resulting events to the
    /// queue. Returns whether the message is one the collector handles.
    ///
    /// `sys` carries the asynchronously sampled platform state the message
    /// itself does not: modifier keys and, for the paste shortcut, the
    /// clipboard text.
    pub fn process(
        &mut self,
        umsg: u32,
        wparam: usize,
        lparam: isize,
        sys: &SystemInput,
    ) -> (handled: bool)
        ensures
            handled == is_input_message(umsg),
            umsg != WM_CHAR ==> final(self).queued() == old(self).queued() + translated_events(
                umsg,
                wparam,
                lparam,
                *sys,
            ),
            umsg == WM_CHAR ==> {
                &&& old(self).queued().len() <= final(self).queued().len()
                &&& final(self).queued().subrange(0, old(self).queued().len() as int) == old(
                    self,
                ).queued()
                &&& text_message_appends(
                    wparam,
                    final(self).queued().skip(old(self).queued().len() as int),
                )
            },
            final(self).last_time() == old(self).last_time(),
    {
        let ghost prior = self.events@;
        if umsg == WM_MOUSEMOVE {
            self.events.push(InputEvent::PointerMoved(get_pos(lparam)));
            true
        } else if umsg == WM_LBUTTONDOWN || umsg == WM_LBUTTONDBLCLK {
            self.push_button(wparam, lparam, PointerButton::Primary, true);
            true
        } else if umsg == WM_LBUTTONUP {
            self.push_button(wparam, lparam, PointerButton::Primary, false);
            true
        } else if umsg == WM_RBUTTONDOWN || umsg == WM_RBUTTONDBLCLK {
            self.push_button(wparam, lparam, PointerButton::Secondary, true);
            true
        } else if umsg == WM_RBUTTONUP {
            self.push_button(wparam, lparam, PointerButton::Secondary, false);
            true
        } else if umsg == WM_MBUTTONDOWN || umsg == WM_MBUTTONDBLCLK {
            self.push_button(wparam, lparam, PointerButton::Middle, true);
            true
        } else if umsg == WM_MBUTTONUP {
            self.push_button(wparam, lparam, PointerButton::Middle, false);
            true
        } else if umsg == WM_MOUSEWHEEL {
            self.push_wheel(wparam, true);
            true
        } else if umsg == WM_MOUSEHWHEEL {
            self.push_wheel(wparam, false);
            true
        } else if umsg == WM_CHAR {
            match char_from_code(wparam as u32) {
                Some(c) => {
                    let code = c as u32;
                    if code >= 0x20 && !(0x7F <= code && code <= 0x9F) {
                        self.events.push(InputEvent::Text(c));
                        assert(self.events@.skip(prior.len() as int) =~= seq![
                            InputEvent::Text(c),
                        ]);
                    } else {
                        assert(self.events@.skip(prior.len() as int) =~= Seq::<
                            InputEvent,
                        >::empty());
                    }
                },
                None => {
                    assert(self.events@.skip(prior.len() as int) =~= Seq::<InputEvent>::empty());
                },
            }
            assert(self.events@.subrange(0, prior.len() as int) =~= prior);
            true
        } else if umsg == WM_KEYDOWN || umsg == WM_SYSKEYDOWN {
            match get_key(wparam) {
                Some(key) => {
                    let mods = get_key_modifiers(umsg, sys);
                    if key == KeyCode::Space {
                        self.events.push(InputEvent::Text(' '));
                    } else if key == KeyCode::Letter(0x56) && mods.ctrl {
                        match &sys.clipboard {
                            Some(text) => {
                                self.events.push(InputEvent::Paste(text.clone()));
                            },
                            None => {},
                        }
                    } else if key == KeyCode::Letter(0x43) && mods.ctrl {
                        self.events.push(InputEvent::Copy);
                    } else if key == KeyCode::Letter(0x58) && mods.ctrl {
                        self.events.push(InputEvent::Cut);
                    } else {
                        self.events.push(InputEvent::Key { key, pressed: true, modifiers: mods });
                    }
                },
                None => {},
            }
            true
        } else if umsg == WM_KEYUP || umsg == WM_SYSKEYUP {
            match get_key(wparam) {
                Some(key) => {
                    let mods = get_key_modifiers(umsg, sys);
                    self.events.push(InputEvent::Key { key, pressed: false, modifiers: mods });
                },
                None => {},
            }
            true
        } else {
            false
        }
    }

    /// Drains the queue and stamps the frame with the given screen size and
    /// time. The returned time never goes backwards within a session: a
    /// stamp below an earlier one is lifted to the earlier one.
    pub fn collect_input(&mut self, screen: ScreenSize, time_ticks: u64) -> (input: FrameInput)
        ensures
            input.events@ == collect_returned(old(self).queued()),
            final(self).queued() == collect_remaining(old(self).queued()),
            input.screen == screen,
            input.time_ticks >= time_ticks,
            input.time_ticks >= old(self).last_time(),
            input.time_ticks == if time_ticks >= old(self).last_time() {
                time_ticks
            } else {
                old(self).last_time()
            },
            final(self).last_time() == input.time_ticks,
            input.modifiers == (Modifiers {
                alt: false,
                ctrl: false,
                shift: false,
                mac_cmd: false,
                command: false,
            }),
    {
        let mut events: Vec<InputEvent> = Vec::new();
        core::mem::swap(&mut self.events, &mut events);
        let stamped: u64 = if time_ticks >= self.last_time_ticks {
            time_ticks
        } else {
            self.last_time_ticks
        };
        self.last_time_ticks = stamped;
        FrameInput {
            screen,
            time_ticks: stamped,
            modifiers: Modifiers {
                alt: false,
                ctrl: false,
                shift: false,
                mac_cmd: false,
                command: false,
            },
            events,
        }
    }

    /// Appends one pointer-button event.
    fn push_button(
        &mut self,
        wparam: usize,
        lparam: isize,
        button: PointerButton,
        pressed: bool,
    )
        ensures
            final(self).events@ == old(self).events@ + button_event(wparam, lparam, button, pressed),
            final(self).last_time_ticks == old(self).last_time_ticks,
    {
        let pos = get_pos(lparam);
        let modifiers = get_modifiers(wparam);
        self.events.push(InputEvent::PointerButton { pos, button, pressed, modifiers });
    }

    /// Appends one wheel event: zoom under control, scroll otherwise.
    fn push_wheel(&mut self, wparam: usize, vertical: bool)
        ensures
            final(self).events@ == old(self).events@ + wheel_events(wparam, vertical),
            final(self).last_time_ticks == old(self).last_time_ticks,
    {
        let delta = get_wheel_delta(wparam);
        let ctrl: bool = (wparam / 8) % 2 == 1;
        if ctrl {
            self.events.push(InputEvent::Zoom { zoom_in: delta > 0 });
        } else if vertical {
            self.events.push(InputEvent::Scroll { dx: 0, dy: delta });
        } else {
            self.events.push(InputEvent::Scroll { dx: delta, dy: 0 });
        }
    }
}

} // verus!
