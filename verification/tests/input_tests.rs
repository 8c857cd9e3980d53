use egui_d3d11::input::{
    FrameInput, InputCollector, InputEvent, KeyCode, Modifiers, PixelPos, PointerButton,
    ScreenSize, SystemInput, WM_CHAR, WM_KEYDOWN, WM_KEYUP, WM_LBUTTONDOWN, WM_MOUSEHWHEEL,
    WM_MOUSEMOVE, WM_MOUSEWHEEL, WM_RBUTTONUP,
};

fn quiet() -> SystemInput {
    SystemInput { ctrl_down: false, shift_down: false, clipboard: None }
}

fn ctrl_held() -> SystemInput {
    SystemInput { ctrl_down: true, shift_down: false, clipboard: None }
}

fn screen() -> ScreenSize {
    ScreenSize { width: 800, height: 600 }
}

fn drain(c: &mut InputCollector) -> FrameInput {
    c.collect_input(screen(), 0)
}

fn pos_lparam(x: isize, y: isize) -> isize {
    ((y & 0xFFFF) << 16) | (x & 0xFFFF)
}

#[test]
fn mouse_move_is_translated() {
    let mut c = InputCollector::new();
    assert!(c.process(WM_MOUSEMOVE, 0, pos_lparam(10, 20), &quiet()));
    let input = drain(&mut c);
    assert_eq!(input.events, vec![InputEvent::PointerMoved(PixelPos { x: 10, y: 20 })]);
}

#[test]
fn negative_coordinates_are_sign_extended() {
    let mut c = InputCollector::new();
    assert!(c.process(WM_MOUSEMOVE, 0, pos_lparam(-5, -30), &quiet()));
    let input = drain(&mut c);
    assert_eq!(input.events, vec![InputEvent::PointerMoved(PixelPos { x: -5, y: -30 })]);
}

#[test]
fn button_carries_message_modifiers() {
    let mut c = InputCollector::new();
    // MK_CONTROL | MK_SHIFT
    assert!(c.process(WM_LBUTTONDOWN, 0x8 | 0x4, pos_lparam(3, 4), &quiet()));
    let input = drain(&mut c);
    assert_eq!(
        input.events,
        vec![InputEvent::PointerButton {
            pos: PixelPos { x: 3, y: 4 },
            button: PointerButton::Primary,
            pressed: true,
            modifiers: Modifiers {
                alt: false,
                ctrl: true,
                shift: true,
                mac_cmd: false,
                command: true,
            },
        }]
    );
}

#[test]
fn button_release_is_translated() {
    let mut c = InputCollector::new();
    assert!(c.process(WM_RBUTTONUP, 0, pos_lparam(1, 2), &quiet()));
    let input = drain(&mut c);
    match &input.events[0] {
        InputEvent::PointerButton { button, pressed, .. } => {
            assert_eq!(*button, PointerButton::Secondary);
            assert!(!*pressed);
        }
        other => panic!("unexpected event {:?}", other),
    }
}

#[test]
fn vertical_wheel_scrolls() {
    let mut c = InputCollector::new();
    assert!(c.process(WM_MOUSEWHEEL, 120usize << 16, 0, &quiet()));
    let input = drain(&mut c);
    assert_eq!(input.events, vec![InputEvent::Scroll { dx: 0, dy: 120 }]);
}

#[test]
fn horizontal_wheel_scrolls_sideways() {
    let mut c = InputCollector::new();
    assert!(c.process(WM_MOUSEHWHEEL, 240usize << 16, 0, &quiet()));
    let input = drain(&mut c);
    assert_eq!(input.events, vec![InputEvent::Scroll { dx: 240, dy: 0 }]);
}

#[test]
fn wheel_with_control_zooms() {
    let mut c = InputCollector::new();
    assert!(c.process(WM_MOUSEWHEEL, (120usize << 16) | 0x8, 0, &quiet()));
    let negative = (0xFF88usize << 16) | 0x8; // -120 in the high word
    assert!(c.process(WM_MOUSEWHEEL, negative, 0, &quiet()));
    let input = drain(&mut c);
    assert_eq!(
        input.events,
        vec![InputEvent::Zoom { zoom_in: true }, InputEvent::Zoom { zoom_in: false }]
    );
}

#[test]
fn letter_key_down_is_translated() {
    let mut c = InputCollector::new();
    assert!(c.process(WM_KEYDOWN, 0x41, 0, &quiet()));
    let input = drain(&mut c);
    match &input.events[0] {
        InputEvent::Key { key, pressed, .. } => {
            assert_eq!(*key, KeyCode::Letter(0x41));
            assert!(*pressed);
        }
        other => panic!("unexpected event {:?}", other),
    }
}

#[test]
fn escape_key_up_is_translated() {
    let mut c = InputCollector::new();
    assert!(c.process(WM_KEYUP, 0x1B, 0, &quiet()));
    let input = drain(&mut c);
    match &input.events[0] {
        InputEvent::Key { key, pressed, .. } => {
            assert_eq!(*key, KeyCode::Escape);
            assert!(!*pressed);
        }
        other => panic!("unexpected event {:?}", other),
    }
}

#[test]
fn space_key_types_a_space() {
    let mut c = InputCollector::new();
    assert!(c.process(WM_KEYDOWN, 0x20, 0, &quiet()));
    let input = drain(&mut c);
    assert_eq!(input.events, vec![InputEvent::Text(' ')]);
}

#[test]
fn copy_cut_shortcuts_become_events() {
    let mut c = InputCollector::new();
    assert!(c.process(WM_KEYDOWN, 0x43, 0, &ctrl_held()));
    assert!(c.process(WM_KEYDOWN, 0x58, 0, &ctrl_held()));
    let input = drain(&mut c);
    assert_eq!(input.events, vec![InputEvent::Copy, InputEvent::Cut]);
}

#[test]
fn paste_inserts_clipboard_text() {
    let mut c = InputCollector::new();
    let sys = SystemInput {
        ctrl_down: true,
        shift_down: false,
        clipboard: Some(String::from("hello")),
    };
    assert!(c.process(WM_KEYDOWN, 0x56, 0, &sys));
    let input = drain(&mut c);
    assert_eq!(input.events, vec![InputEvent::Paste(String::from("hello"))]);
}

#[test]
fn paste_without_clipboard_is_dropped() {
    let mut c = InputCollector::new();
    assert!(c.process(WM_KEYDOWN, 0x56, 0, &ctrl_held()));
    let input = drain(&mut c);
    assert_eq!(input.events, Vec::<InputEvent>::new());
}

#[test]
fn plain_v_is_a_key_event() {
    let mut c = InputCollector::new();
    assert!(c.process(WM_KEYDOWN, 0x56, 0, &quiet()));
    let input = drain(&mut c);
    match &input.events[0] {
        InputEvent::Key { key, .. } => assert_eq!(*key, KeyCode::Letter(0x56)),
        other => panic!("unexpected event {:?}", other),
    }
}

#[test]
fn char_message_types_the_character() {
    let mut c = InputCollector::new();
    assert!(c.process(WM_CHAR, 0xE9, 0, &quiet()));
    let input = drain(&mut c);
    assert_eq!(input.events, vec![InputEvent::Text('\u{e9}')]);
}

#[test]
fn control_characters_are_not_typed() {
    let mut c = InputCollector::new();
    assert!(c.process(WM_CHAR, 0x07, 0, &quiet()));
    assert!(c.process(WM_CHAR, 0x7F, 0, &quiet()));
    let input = drain(&mut c);
    assert_eq!(input.events, Vec::<InputEvent>::new());
}

#[test]
fn unknown_messages_are_not_handled() {
    let mut c = InputCollector::new();
    assert!(!c.process(0x0111, 0, 0, &quiet()));
    let input = drain(&mut c);
    assert_eq!(input.events, Vec::<InputEvent>::new());
}

#[test]
fn collect_drains_fully() {
    let mut c = InputCollector::new();
    assert!(c.process(WM_MOUSEMOVE, 0, pos_lparam(1, 1), &quiet()));
    let first = drain(&mut c);
    assert_eq!(first.events.len(), 1);
    let second = drain(&mut c);
    assert_eq!(second.events.len(), 0);
}

#[test]
fn frame_time_never_goes_backwards() {
    let mut c = InputCollector::new();
    let a = c.collect_input(screen(), 100);
    assert_eq!(a.time_ticks, 100);
    let b = c.collect_input(screen(), 50);
    assert_eq!(b.time_ticks, 100);
    let d = c.collect_input(screen(), 150);
    assert_eq!(d.time_ticks, 150);
}

#[test]
fn frame_input_carries_the_screen() {
    let mut c = InputCollector::new();
    let input = c.collect_input(ScreenSize { width: 1024, height: 768 }, 7);
    assert_eq!(input.screen, ScreenSize { width: 1024, height: 768 });
    assert_eq!(input.time_ticks, 7);
}
