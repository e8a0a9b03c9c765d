use editor_link::collections::EntityMap;
use editor_link::window_event::{
    address_to, forward, process_window_event, whole_pixels, write_window_event, FileDragAndDrop,
    Ime, NoSuchWindow, Position, Window, WindowEvent,
};

fn bits(x: f32, y: f32) -> Position {
    Position { x: x.to_bits(), y: y.to_bits() }
}

fn window() -> Window {
    Window { physical_width: 100, physical_height: 50, physical_cursor: None }
}

fn shown(event: &WindowEvent) -> String {
    format!("{:?}", event)
}

#[test]
fn whole_pixels_is_the_saturating_cast() {
    let values = [
        0.0f32,
        -0.0,
        0.5,
        0.999,
        1.0,
        1.5,
        2.0,
        640.75,
        1919.999,
        8388607.5,
        8388608.0,
        16777215.0,
        16777216.0,
        4294967040.0,
        4294967296.0,
        1.0e30,
        -1.0,
        -0.25,
        f32::INFINITY,
        f32::NEG_INFINITY,
        f32::NAN,
        f32::MAX,
        f32::MIN_POSITIVE,
    ];
    for value in values {
        assert_eq!(whole_pixels(value.to_bits()), value as u32, "{}", value);
    }
    let mut pattern: u32 = 0;
    while pattern < 0xffff_0000 {
        assert_eq!(whole_pixels(pattern), f32::from_bits(pattern) as u32, "{}", pattern);
        pattern += 0x8421;
    }
}

#[test]
fn addressing_changes_the_window() {
    let event = WindowEvent::MouseWheel { window: 1, body: vec![9] };
    assert_eq!(shown(&address_to(event, 7)), "MouseWheel { window: 7, body: [9] }");
    let event = WindowEvent::Ime(Ime::Preedit { window: 1, value: "a".to_string(), cursor: None });
    match address_to(event, 7) {
        WindowEvent::Ime(Ime::Preedit { window, value, cursor }) => {
            assert_eq!(window, 7);
            assert_eq!(value, "a");
            assert_eq!(cursor, None);
        }
        other => panic!("{:?}", other),
    }
    let dropped = FileDragAndDrop::DroppedFile { window: 1, path: "x".to_string() };
    match address_to(WindowEvent::FileDragAndDrop(dropped), 7) {
        WindowEvent::FileDragAndDrop(FileDragAndDrop::DroppedFile { window, path }) => {
            assert_eq!(window, 7);
            assert_eq!(path, "x");
        }
        other => panic!("{:?}", other),
    }
}

#[test]
fn events_without_a_window_stay_as_they_are() {
    assert!(matches!(address_to(WindowEvent::RequestRedraw, 7), WindowEvent::RequestRedraw));
    assert!(matches!(
        address_to(WindowEvent::KeyboardFocusLost, 7),
        WindowEvent::KeyboardFocusLost
    ));
    assert!(matches!(
        address_to(WindowEvent::PinchGesture { amount: 3 }, 7),
        WindowEvent::PinchGesture { amount: 3 }
    ));
}

#[test]
fn addressing_twice_is_addressing_once() {
    let once = address_to(WindowEvent::CursorEntered { window: 1 }, 3);
    let twice = address_to(address_to(WindowEvent::CursorEntered { window: 1 }, 2), 3);
    assert_eq!(shown(&once), shown(&twice));
}

#[test]
fn moved_cursor_reaches_the_window() {
    let mut windows: EntityMap<Window> = EntityMap::new();
    windows.insert(5, window());
    let event = WindowEvent::CursorMoved { window: 5, position: bits(3.5, 4.0), delta: None };
    match write_window_event(event, &mut windows) {
        Ok(write) => assert!(write.own_kind),
        Err(missing) => panic!("{:?}", missing),
    }
    assert_eq!(windows.get(5).unwrap().physical_cursor, Some(bits(3.5, 4.0)));
    assert_eq!(windows.get(5).unwrap().physical_width, 100);
}

#[test]
fn resizing_sets_whole_pixels() {
    let mut windows: EntityMap<Window> = EntityMap::new();
    windows.insert(5, window());
    let event = WindowEvent::WindowResized {
        window: 5,
        width: 640.9f32.to_bits(),
        height: 480.0f32.to_bits(),
    };
    assert!(write_window_event(event, &mut windows).is_ok());
    assert_eq!(windows.get(5).unwrap().physical_width, 640);
    assert_eq!(windows.get(5).unwrap().physical_height, 480);
}

#[test]
fn missing_window_is_reported() {
    let mut windows: EntityMap<Window> = EntityMap::new();
    windows.insert(5, window());
    let event = WindowEvent::CursorMoved { window: 6, position: bits(1.0, 1.0), delta: None };
    match write_window_event(event, &mut windows) {
        Err(NoSuchWindow(entity)) => assert_eq!(entity, 6),
        Ok(_) => panic!("written"),
    }
    assert_eq!(*windows.get(5).unwrap(), window());
    assert!(write_window_event(WindowEvent::WindowCreated { window: 6 }, &mut windows).is_ok());
}

#[test]
fn single_window_takes_every_event() {
    let mut only = window();
    let event = WindowEvent::WindowResized {
        window: 99,
        width: 10.0f32.to_bits(),
        height: 20.0f32.to_bits(),
    };
    let write = process_window_event(event, 5, &mut only);
    assert!(write.own_kind);
    assert!(matches!(write.event, WindowEvent::WindowResized { window: 5, .. }));
    assert_eq!((only.physical_width, only.physical_height), (10, 20));
    let key = WindowEvent::KeyboardInput { window: 99, body: vec![1] };
    assert!(process_window_event(key, 5, &mut only).own_kind);
    let moved = WindowEvent::CursorMoved { window: 99, position: bits(1.0, 2.0), delta: None };
    let write = process_window_event(moved, 5, &mut only);
    assert!(!write.own_kind);
    assert_eq!(only.physical_cursor, Some(bits(1.0, 2.0)));
}

#[test]
fn viewport_moves_the_cursor_and_keeps_its_size() {
    let moved = WindowEvent::CursorMoved {
        window: 1,
        position: bits(100.0, 100.0),
        delta: Some(bits(1.0, 0.0)),
    };
    match forward(moved, 8, bits(60.0, 70.0)) {
        Some(WindowEvent::CursorMoved { window, position, delta }) => {
            assert_eq!(window, 8);
            assert_eq!(position, bits(60.0, 70.0));
            assert_eq!(delta, Some(bits(1.0, 0.0)));
        }
        other => panic!("{:?}", other),
    }
    let resized = WindowEvent::WindowResized { window: 1, width: 0, height: 0 };
    assert!(forward(resized, 8, bits(0.0, 0.0)).is_none());
}
