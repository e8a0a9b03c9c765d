//! Window events, whom they are addressed to, and what they change about a window.

use crate::collections::EntityMap;
use vstd::arithmetic::power2::pow2;
use vstd::prelude::*;

verus! {

/// A pair of single-precision numbers, each as its bit pattern.
#[derive(Clone, Copy, PartialEq, Eq, Structural, Debug)]
pub struct Position {
    pub x: u32,
    pub y: u32,
}

/// A file that is dragged over a window.
#[derive(Debug)]
pub enum FileDragAndDrop {
    DroppedFile { window: u64, path: String },
    HoveredFile { window: u64, path: String },
    HoveredFileCanceled { window: u64 },
}

/// Text that comes in through an input method.
#[derive(Debug)]
pub enum Ime {
    Preedit { window: u64, value: String, cursor: Option<(usize, usize)> },
    Commit { window: u64, value: String },
    Enabled { window: u64 },
    Disabled { window: u64 },
}

/// Something that happened to a window or in it.
///
/// A window is known by the bit pattern of its entity, and a number that is not whole by its own
/// bit pattern. `body` is the rest of an event as its sender encoded it; nothing here looks into it.
#[derive(Debug)]
pub enum WindowEvent {
    AppLifecycle { body: Vec<u8> },
    CursorEntered { window: u64 },
    CursorLeft { window: u64 },
    CursorMoved { window: u64, position: Position, delta: Option<Position> },
    FileDragAndDrop(FileDragAndDrop),
    Ime(Ime),
    RequestRedraw,
    WindowBackendScaleFactorChanged { window: u64, scale_factor: u64 },
    WindowCloseRequested { window: u64 },
    WindowCreated { window: u64 },
    WindowDestroyed { window: u64 },
    WindowFocused { window: u64, focused: bool },
    WindowMoved { window: u64, x: i32, y: i32 },
    WindowOccluded { window: u64, occluded: bool },
    WindowResized { window: u64, width: u32, height: u32 },
    WindowScaleFactorChanged { window: u64, scale_factor: u64 },
    WindowThemeChanged { window: u64, body: Vec<u8> },
    MouseButtonInput { window: u64, body: Vec<u8> },
    MouseMotion { motion: Position },
    MouseWheel { window: u64, body: Vec<u8> },
    PinchGesture { amount: u32 },
    RotationGesture { amount: u32 },
    DoubleTapGesture,
    PanGesture { offset: Position },
    TouchInput { window: u64, body: Vec<u8> },
    KeyboardInput { window: u64, body: Vec<u8> },
    KeyboardFocusLost,
}

/// The window that an event is addressed to, if it is addressed to one.
pub open spec fn window_of(event: WindowEvent) -> Option<u64> {
    match event {
        WindowEvent::AppLifecycle { .. } => None,
        WindowEvent::CursorEntered { window } => Some(window),
        WindowEvent::CursorLeft { window } => Some(window),
        WindowEvent::CursorMoved { window, .. } => Some(window),
        WindowEvent::FileDragAndDrop(FileDragAndDrop::DroppedFile { window, .. }) => Some(window),
        WindowEvent::FileDragAndDrop(FileDragAndDrop::HoveredFile { window, .. }) => Some(window),
        WindowEvent::FileDragAndDrop(FileDragAndDrop::HoveredFileCanceled { window }) => Some(
            window,
        ),
        WindowEvent::Ime(Ime::Preedit { window, .. }) => Some(window),
        WindowEvent::Ime(Ime::Commit { window, .. }) => Some(window),
        WindowEvent::Ime(Ime::Enabled { window }) => Some(window),
        WindowEvent::Ime(Ime::Disabled { window }) => Some(window),
        WindowEvent::RequestRedraw => None,
        WindowEvent::WindowBackendScaleFactorChanged { window, .. } => Some(window),
        WindowEvent::WindowCloseRequested { window } => Some(window),
        WindowEvent::WindowCreated { window } => Some(window),
        WindowEvent::WindowDestroyed { window } => Some(window),
        WindowEvent::WindowFocused { window, .. } => Some(window),
        WindowEvent::WindowMoved { window, .. } => Some(window),
        WindowEvent::WindowOccluded { window, .. } => Some(window),
        WindowEvent::WindowResized { window, .. } => Some(window),
        WindowEvent::WindowScaleFactorChanged { window, .. } => Some(window),
        WindowEvent::WindowThemeChanged { window, .. } => Some(window),
        WindowEvent::MouseButtonInput { window, .. } => Some(window),
        WindowEvent::MouseMotion { .. } => None,
        WindowEvent::MouseWheel { window, .. } => Some(window),
        WindowEvent::PinchGesture { .. } => None,
        WindowEvent::RotationGesture { .. } => None,
        WindowEvent::DoubleTapGesture => None,
        WindowEvent::PanGesture { .. } => None,
        WindowEvent::TouchInput { window, .. } => Some(window),
        WindowEvent::KeyboardInput { window, .. } => Some(window),
        WindowEvent::KeyboardFocusLost => None,
    }
}

/// The same event, addressed to another window. An event that is addressed to no window stays as
/// it is.
pub open spec fn addressed_to(event: WindowEvent, window: u64) -> WindowEvent {
    match event {
        WindowEvent::CursorEntered { .. } => WindowEvent::CursorEntered { window },
        WindowEvent::CursorLeft { .. } => WindowEvent::CursorLeft { window },
        WindowEvent::CursorMoved { position, delta, .. } => WindowEvent::CursorMoved {
            window,
            position,
            delta,
        },
        WindowEvent::FileDragAndDrop(FileDragAndDrop::DroppedFile { path, .. }) =>
            WindowEvent::FileDragAndDrop(FileDragAndDrop::DroppedFile { window, path }),
        WindowEvent::FileDragAndDrop(FileDragAndDrop::HoveredFile { path, .. }) =>
            WindowEvent::FileDragAndDrop(FileDragAndDrop::HoveredFile { window, path }),
        WindowEvent::FileDragAndDrop(FileDragAndDrop::HoveredFileCanceled { .. }) =>
            WindowEvent::FileDragAndDrop(FileDragAndDrop::HoveredFileCanceled { window }),
        WindowEvent::Ime(Ime::Preedit { value, cursor, .. }) => WindowEvent::Ime(
            Ime::Preedit { window, value, cursor },
        ),
        WindowEvent::Ime(Ime::Commit { value, .. }) => WindowEvent::Ime(
            Ime::Commit { window, value },
        ),
        WindowEvent::Ime(Ime::Enabled { .. }) => WindowEvent::Ime(Ime::Enabled { window }),
        WindowEvent::Ime(Ime::Disabled { .. }) => WindowEvent::Ime(Ime::Disabled { window }),
        WindowEvent::WindowBackendScaleFactorChanged { scale_factor, .. } =>
            WindowEvent::WindowBackendScaleFactorChanged { window, scale_factor },
        WindowEvent::WindowCloseRequested { .. } => WindowEvent::WindowCloseRequested { window },
        WindowEvent::WindowCreated { .. } => WindowEvent::WindowCreated { window },
        WindowEvent::WindowDestroyed { .. } => WindowEvent::WindowDestroyed { window },
        WindowEvent::WindowFocused { focused, .. } => WindowEvent::WindowFocused {
            window,
            focused,
        },
        WindowEvent::WindowMoved { x, y, .. } => WindowEvent::WindowMoved { window, x, y },
        WindowEvent::WindowOccluded { occluded, .. } => WindowEvent::WindowOccluded {
            window,
            occluded,
        },
        WindowEvent::WindowResized { width, height, .. } => WindowEvent::WindowResized {
            window,
            width,
            height,
        },
        WindowEvent::WindowScaleFactorChanged { scale_factor, .. } =>
            WindowEvent::WindowScaleFactorChanged { window, scale_factor },
        WindowEvent::WindowThemeChanged { body, .. } => WindowEvent::WindowThemeChanged {
            window,
            body,
        },
        WindowEvent::MouseButtonInput { body, .. } => WindowEvent::MouseButtonInput {
            window,
            body,
        },
        WindowEvent::MouseWheel { body, .. } => WindowEvent::MouseWheel { window, body },
        WindowEvent::TouchInput { body, .. } => WindowEvent::TouchInput { window, body },
        WindowEvent::KeyboardInput { body, .. } => WindowEvent::KeyboardInput { window, body },
        _ => event,
    }
}

/// Addresses an event to another window.
pub fn address_to(event: WindowEvent, window: u64) -> (addressed: WindowEvent)
    ensures
        addressed == addressed_to(event, window),
{
    match event {
        WindowEvent::AppLifecycle { body } => WindowEvent::AppLifecycle { body },
        WindowEvent::CursorEntered { .. } => WindowEvent::CursorEntered { window },
        WindowEvent::CursorLeft { .. } => WindowEvent::CursorLeft { window },
        WindowEvent::CursorMoved { window: _, position, delta } => WindowEvent::CursorMoved {
            window,
            position,
            delta,
        },
        WindowEvent::FileDragAndDrop(file) => WindowEvent::FileDragAndDrop(
            match file {
                FileDragAndDrop::DroppedFile { window: _, path } => FileDragAndDrop::DroppedFile {
                    window,
                    path,
                },
                FileDragAndDrop::HoveredFile { window: _, path } => FileDragAndDrop::HoveredFile {
                    window,
                    path,
                },
                FileDragAndDrop::HoveredFileCanceled { .. } =>
                    FileDragAndDrop::HoveredFileCanceled { window },
            },
        ),
        WindowEvent::Ime(ime) => WindowEvent::Ime(
            match ime {
                Ime::Preedit { window: _, value, cursor } => Ime::Preedit {
                    window,
                    value,
                    cursor,
                },
                Ime::Commit { window: _, value } => Ime::Commit { window, value },
                Ime::Enabled { .. } => Ime::Enabled { window },
                Ime::Disabled { .. } => Ime::Disabled { window },
            },
        ),
        WindowEvent::RequestRedraw => WindowEvent::RequestRedraw,
        WindowEvent::WindowBackendScaleFactorChanged { window: _, scale_factor } =>
            WindowEvent::WindowBackendScaleFactorChanged { window, scale_factor },
        WindowEvent::WindowCloseRequested { .. } => WindowEvent::WindowCloseRequested { window },
        WindowEvent::WindowCreated { .. } => WindowEvent::WindowCreated { window },
        WindowEvent::WindowDestroyed { .. } => WindowEvent::WindowDestroyed { window },
        WindowEvent::WindowFocused { window: _, focused } => WindowEvent::WindowFocused {
            window,
            focused,
        },
        WindowEvent::WindowMoved { window: _, x, y } => WindowEvent::WindowMoved { window, x, y },
        WindowEvent::WindowOccluded { window: _, occluded } => WindowEvent::WindowOccluded {
            window,
            occluded,
        },
        WindowEvent::WindowResized { window: _, width, height } => WindowEvent::WindowResized {
            window,
            width,
            height,
        },
        WindowEvent::WindowScaleFactorChanged { window: _, scale_factor } =>
            WindowEvent::WindowScaleFactorChanged { window, scale_factor },
        WindowEvent::WindowThemeChanged { window: _, body } => WindowEvent::WindowThemeChanged {
            window,
            body,
        },
        WindowEvent::MouseButtonInput { window: _, body } => WindowEvent::MouseButtonInput {
            window,
            body,
        },
        WindowEvent::MouseMotion { motion } => WindowEvent::MouseMotion { motion },
        WindowEvent::MouseWheel { window: _, body } => WindowEvent::MouseWheel { window, body },
        WindowEvent::PinchGesture { amount } => WindowEvent::PinchGesture { amount },
        WindowEvent::RotationGesture { amount } => WindowEvent::RotationGesture { amount },
        WindowEvent::DoubleTapGesture => WindowEvent::DoubleTapGesture,
        WindowEvent::PanGesture { offset } => WindowEvent::PanGesture { offset },
        WindowEvent::TouchInput { window: _, body } => WindowEvent::TouchInput { window, body },
        WindowEvent::KeyboardInput { window: _, body } => WindowEvent::KeyboardInput {
            window,
            body,
        },
        WindowEvent::KeyboardFocusLost => WindowEvent::KeyboardFocusLost,
    }
}

/// Addressing an event changes its window and nothing else: an event that had a window has the new
/// one, an event that had none still has none, addressing it back restores it, and addressing it
/// twice is addressing it once.
pub proof fn law_addressing_changes_the_window_alone(event: WindowEvent, a: u64, b: u64)
    ensures
        window_of(addressed_to(event, a)) == (if window_of(event) is Some {
            Some(a)
        } else {
            None
        }),
        window_of(event) is Some ==> addressed_to(addressed_to(event, a), window_of(event)->0)
            == event,
        window_of(event) is None ==> addressed_to(event, a) == event,
        addressed_to(addressed_to(event, a), b) == addressed_to(event, b),
{
}

/// The whole part of a single-precision number given by its bit pattern: negative numbers and
/// values that are no number give zero, and a number too large for the result gives the largest one.
pub open spec fn whole_part(bits: u32) -> u32 {
    let negative = bits >= 0x8000_0000;
    let exponent = (bits as int / 0x80_0000) % 256;
    let fraction = bits as int % 0x80_0000;
    let significand = 0x80_0000 + fraction;
    if negative || (exponent == 255 && fraction != 0) || exponent < 127 {
        0
    } else if exponent >= 127 + 32 {
        u32::MAX
    } else if exponent >= 127 + 23 {
        (significand * pow2((exponent - 150) as nat)) as u32
    } else {
        (significand / pow2((150 - exponent) as nat) as int) as u32
    }
}

/// Takes the whole part of a single-precision number given by its bit pattern.
pub fn whole_pixels(bits: u32) -> (pixels: u32)
    ensures
        pixels == whole_part(bits),
{
    if bits >= 0x8000_0000 {
        return 0;
    }
    let exponent: u32 = (bits / 0x80_0000) % 256;
    let fraction: u32 = bits % 0x80_0000;
    let significand: u32 = 0x80_0000 + fraction;
    if (exponent == 255 && fraction != 0) || exponent < 127 {
        0
    } else if exponent >= 159 {
        u32::MAX
    } else if exponent >= 150 {
        let shift: u32 = exponent - 150;
        proof {
            vstd::arithmetic::power2::lemma2_to64();
            assert(pow2(shift as nat) <= pow2(8)) by {
                if shift < 8 {
                    vstd::arithmetic::power2::lemma_pow2_strictly_increases(shift as nat, 8);
                }
            }
            assert(significand * pow2(shift as nat) <= u32::MAX) by (nonlinear_arith)
                requires
                    significand < 0x100_0000,
                    pow2(shift as nat) <= 256,
            ;
            vstd::bits::lemma_u32_shl_is_mul(significand, shift);
        }
        significand << shift
    } else {
        let shift: u32 = 150 - exponent;
        proof {
            vstd::bits::lemma_u32_shr_is_div(significand, shift);
        }
        significand >> shift
    }
}

/// What a window shows of itself to the systems of a world.
#[derive(Clone, Copy, PartialEq, Eq, Structural, Debug)]
pub struct Window {
    pub physical_width: u32,
    pub physical_height: u32,
    pub physical_cursor: Option<Position>,
}

/// A window as an event leaves it: moving the cursor sets the cursor, resizing sets the size in
/// whole pixels, and no other event touches the window.
pub open spec fn window_after(window: Window, event: WindowEvent) -> Window {
    match event {
        WindowEvent::CursorMoved { position, .. } => Window {
            physical_cursor: Some(position),
            ..window
        },
        WindowEvent::WindowResized { width, height, .. } => Window {
            physical_width: whole_part(width),
            physical_height: whole_part(height),
            ..window
        },
        _ => window,
    }
}

/// Whether an event changes the window that it is addressed to.
pub open spec fn changes_window(event: WindowEvent) -> bool {
    event is CursorMoved || event is WindowResized
}

/// Applies an event to a window.
fn apply_to_window(window: Window, event: &WindowEvent) -> (after: Window)
    ensures
        after == window_after(window, *event),
{
    match event {
        WindowEvent::CursorMoved { window: _, position, delta: _ } => Window {
            physical_width: window.physical_width,
            physical_height: window.physical_height,
            physical_cursor: Some(*position),
        },
        WindowEvent::WindowResized { window: _, width, height } => Window {
            physical_width: whole_pixels(*width),
            physical_height: whole_pixels(*height),
            physical_cursor: window.physical_cursor,
        },
        _ => window,
    }
}

/// An event on its way to the readers of a world.
pub struct EventWrite {
    /// Whether the readers of events of this one kind get it too, ahead of those who read all
    /// window events.
    pub own_kind: bool,
    pub event: WindowEvent,
}

/// There is no window with this entity.
#[derive(Clone, Copy, PartialEq, Eq, Structural, Debug)]
pub struct NoSuchWindow(pub u64);

/// Brings an event into a world: the window that it changes is changed, and then every reader of
/// its kind and every reader of window events gets it. If it would change a window that does not
/// exist, nothing happens at all.
pub fn write_window_event(event: WindowEvent, windows: &mut EntityMap<Window>) -> (written: Result<
    EventWrite,
    NoSuchWindow,
>)
    requires
        old(windows).wf(),
    ensures
        final(windows).wf(),
        changes_window(event) && !old(windows)@.dom().contains(window_of(event)->0) ==> {
            &&& written == Err::<EventWrite, NoSuchWindow>(NoSuchWindow(window_of(event)->0))
            &&& final(windows)@ == old(windows)@
        },
        changes_window(event) && old(windows)@.dom().contains(window_of(event)->0) ==> {
            &&& written == Ok::<EventWrite, NoSuchWindow>(EventWrite { own_kind: true, event })
            &&& final(windows)@ == old(windows)@.insert(
                window_of(event)->0,
                window_after(old(windows)@[window_of(event)->0], event),
            )
        },
        !changes_window(event) ==> {
            &&& written == Ok::<EventWrite, NoSuchWindow>(EventWrite { own_kind: true, event })
            &&& final(windows)@ == old(windows)@
        },
{
    let changed: Option<u64> = match &event {
        WindowEvent::CursorMoved { window, position: _, delta: _ } => Some(*window),
        WindowEvent::WindowResized { window, width: _, height: _ } => Some(*window),
        _ => None,
    };
    match changed {
        Some(entity) => {
            let after = match windows.get(entity) {
                Some(window) => apply_to_window(*window, &event),
                None => {
                    return Err(NoSuchWindow(entity));
                },
            };
            windows.insert(entity, after);
        },
        None => {},
    }
    Ok(EventWrite { own_kind: true, event })
}

/// Brings an event of another process into a world that has one window: the event is addressed to
/// that window, changes it, and goes to the readers of window events. Of the readers of one kind,
/// only those of keys and of resizing get it.
pub fn process_window_event(event: WindowEvent, entity: u64, window: &mut Window) -> (written:
    EventWrite)
    ensures
        written.event == addressed_to(event, entity),
        written.own_kind == (event is WindowResized || event is KeyboardInput),
        *final(window) == window_after(*old(window), event),
{
    let own_kind = match &event {
        WindowEvent::WindowResized { .. } => true,
        WindowEvent::KeyboardInput { .. } => true,
        _ => false,
    };
    *window = apply_to_window(*window, &event);
    EventWrite { own_kind, event: address_to(event, entity) }
}

/// An event as a viewport passes it on to the game, with the cursor position relative to the
/// viewport's own corner. Resizing the editor's window does not resize the game's.
pub open spec fn forwarded(event: WindowEvent, window: u64, local: Position) -> Option<
    WindowEvent,
> {
    match event {
        WindowEvent::WindowResized { .. } => None,
        WindowEvent::CursorMoved { delta, .. } => Some(
            WindowEvent::CursorMoved { window, position: local, delta },
        ),
        _ => Some(addressed_to(event, window)),
    }
}

/// Prepares an event for the game.
pub fn forward(event: WindowEvent, window: u64, local: Position) -> (passed: Option<WindowEvent>)
    ensures
        passed == forwarded(event, window, local),
{
    match event {
        WindowEvent::WindowResized { .. } => None,
        WindowEvent::CursorMoved { window: _, position: _, delta } => Some(
            WindowEvent::CursorMoved { window, position: local, delta },
        ),
        event => Some(address_to(event, window)),
    }
}

/// Two events of one kind.
pub open spec fn same_kind(a: WindowEvent, b: WindowEvent) -> bool {
    &&& a is AppLifecycle <==> b is AppLifecycle
    &&& a is CursorEntered <==> b is CursorEntered
    &&& a is CursorLeft <==> b is CursorLeft
    &&& a is CursorMoved <==> b is CursorMoved
    &&& a is FileDragAndDrop <==> b is FileDragAndDrop
    &&& a is Ime <==> b is Ime
    &&& a is RequestRedraw <==> b is RequestRedraw
    &&& a is WindowBackendScaleFactorChanged <==> b is WindowBackendScaleFactorChanged
    &&& a is WindowCloseRequested <==> b is WindowCloseRequested
    &&& a is WindowCreated <==> b is WindowCreated
    &&& a is WindowDestroyed <==> b is WindowDestroyed
    &&& a is WindowFocused <==> b is WindowFocused
    &&& a is WindowMoved <==> b is WindowMoved
    &&& a is WindowOccluded <==> b is WindowOccluded
    &&& a is WindowResized <==> b is WindowResized
    &&& a is WindowScaleFactorChanged <==> b is WindowScaleFactorChanged
    &&& a is WindowThemeChanged <==> b is WindowThemeChanged
    &&& a is MouseButtonInput <==> b is MouseButtonInput
    &&& a is MouseMotion <==> b is MouseMotion
    &&& a is MouseWheel <==> b is MouseWheel
    &&& a is PinchGesture <==> b is PinchGesture
    &&& a is RotationGesture <==> b is RotationGesture
    &&& a is DoubleTapGesture <==> b is DoubleTapGesture
    &&& a is PanGesture <==> b is PanGesture
    &&& a is TouchInput <==> b is TouchInput
    &&& a is KeyboardInput <==> b is KeyboardInput
    &&& a is KeyboardFocusLost <==> b is KeyboardFocusLost
}

/// Every event but those of eight kinds is addressed to a window.
pub proof fn law_events_without_a_window(event: WindowEvent)
    ensures
        window_of(event) is None <==> {
            ||| event is AppLifecycle
            ||| event is RequestRedraw
            ||| event is MouseMotion
            ||| event is PinchGesture
            ||| event is RotationGesture
            ||| event is DoubleTapGesture
            ||| event is PanGesture
            ||| event is KeyboardFocusLost
        },
{
}

/// An event that carries the entity of a window is addressed to that window.
pub proof fn law_event_is_addressed_to_the_window_that_it_carries(
    window: u64,
    position: Position,
    delta: Option<Position>,
    path: String,
    cursor: Option<(usize, usize)>,
    number: u64,
    flag: bool,
    x: i32,
    y: i32,
    width: u32,
    height: u32,
    body: Vec<u8>,
)
    ensures
        window_of(WindowEvent::CursorEntered { window }) == Some(window),
        window_of(WindowEvent::CursorLeft { window }) == Some(window),
        window_of(WindowEvent::CursorMoved { window, position, delta }) == Some(window),
        window_of(
            WindowEvent::FileDragAndDrop(FileDragAndDrop::DroppedFile { window, path }),
        ) == Some(window),
        window_of(
            WindowEvent::FileDragAndDrop(FileDragAndDrop::HoveredFile { window, path }),
        ) == Some(window),
        window_of(
            WindowEvent::FileDragAndDrop(FileDragAndDrop::HoveredFileCanceled { window }),
        ) == Some(window),
        window_of(WindowEvent::Ime(Ime::Preedit { window, value: path, cursor })) == Some(window),
        window_of(WindowEvent::Ime(Ime::Commit { window, value: path })) == Some(window),
        window_of(WindowEvent::Ime(Ime::Enabled { window })) == Some(window),
        window_of(WindowEvent::Ime(Ime::Disabled { window })) == Some(window),
        window_of(
            WindowEvent::WindowBackendScaleFactorChanged { window, scale_factor: number },
        ) == Some(window),
        window_of(WindowEvent::WindowCloseRequested { window }) == Some(window),
        window_of(WindowEvent::WindowCreated { window }) == Some(window),
        window_of(WindowEvent::WindowDestroyed { window }) == Some(window),
        window_of(WindowEvent::WindowFocused { window, focused: flag }) == Some(window),
        window_of(WindowEvent::WindowMoved { window, x, y }) == Some(window),
        window_of(WindowEvent::WindowOccluded { window, occluded: flag }) == Some(window),
        window_of(WindowEvent::WindowResized { window, width, height }) == Some(window),
        window_of(
            WindowEvent::WindowScaleFactorChanged { window, scale_factor: number },
        ) == Some(window),
        window_of(WindowEvent::WindowThemeChanged { window, body }) == Some(window),
        window_of(WindowEvent::MouseButtonInput { window, body }) == Some(window),
        window_of(WindowEvent::MouseWheel { window, body }) == Some(window),
        window_of(WindowEvent::TouchInput { window, body }) == Some(window),
        window_of(WindowEvent::KeyboardInput { window, body }) == Some(window),
{
}

/// What [`address_to`] returns is an event of the same kind, addressed to the given window if it
/// can be addressed at all. It says all that the event said: addressing it back gives the event.
pub proof fn law_addressed_event_says_the_same(
    event: WindowEvent,
    window: u64,
    addressed: WindowEvent,
    back: WindowEvent,
)
    requires
        call_ensures(address_to, (event, window), addressed),
        window_of(event) is Some ==> call_ensures(
            address_to,
            (addressed, window_of(event)->0),
            back,
        ),
    ensures
        same_kind(addressed, event),
        window_of(event) is Some ==> window_of(addressed) == Some(window) && back == event,
        window_of(event) is None ==> addressed == event,
{
}

/// Of all events, a viewport keeps back those that resize the editor's window, and no others. What
/// [`forward`] returns is of the kind of the event and addressed to the window that the viewport
/// shows. Where the cursor moved, it is said to be at the place that was given; all else that the
/// event says is passed on, so that addressing it back gives the event again.
pub proof fn law_every_event_but_resizing_is_forwarded(
    event: WindowEvent,
    window: u64,
    local: Position,
    passed: Option<WindowEvent>,
)
    requires
        call_ensures(forward, (event, window, local), passed),
    ensures
        passed is None <==> event is WindowResized,
        passed is Some ==> {
            &&& same_kind(passed->0, event)
            &&& window_of(event) is Some ==> window_of(passed->0) == Some(window)
            &&& window_of(event) is None ==> passed->0 == event
            &&& event is CursorMoved ==> {
                &&& passed->0->CursorMoved_position == local
                &&& passed->0->CursorMoved_delta == event->CursorMoved_delta
            }
            &&& window_of(event) is Some && !(event is CursorMoved) ==> addressed_to(
                passed->0,
                window_of(event)->0,
            ) == event
        },
{
}

/// Of all events, those that resize the editor's window are kept back, and no others. An event that
/// is passed on is of the same kind, addressed to the window that is shown, and says the same but
/// for the place of the cursor.
pub proof fn law_forwarded_event(event: WindowEvent, window: u64, local: Position)
    ensures
        forwarded(event, window, local) is None <==> event is WindowResized,
        forwarded(event, window, local) is Some ==> {
            let passed = forwarded(event, window, local)->0;
            &&& same_kind(passed, event)
            &&& window_of(event) is Some ==> window_of(passed) == Some(window)
            &&& window_of(event) is None ==> passed == event
            &&& event is CursorMoved ==> {
                &&& passed->CursorMoved_position == local
                &&& passed->CursorMoved_delta == event->CursorMoved_delta
            }
            &&& window_of(event) is Some && !(event is CursorMoved) ==> addressed_to(
                passed,
                window_of(event)->0,
            ) == event
        },
{
}

/// An event that moves the cursor leaves the size of a window alone, one that resizes the window
/// leaves the cursor alone, and every other event leaves the whole window alone.
pub proof fn law_event_changes_what_it_is_about(window: Window, event: WindowEvent)
    ensures
        ({
            let after = window_after(window, event);
            &&& !(event is WindowResized) ==> after.physical_width == window.physical_width
                && after.physical_height == window.physical_height
            &&& !(event is CursorMoved) ==> after.physical_cursor == window.physical_cursor
            &&& event is CursorMoved ==> after.physical_cursor == Some(
                event->CursorMoved_position,
            )
            &&& event is WindowResized ==> after.physical_width == whole_part(
                event->WindowResized_width,
            ) && after.physical_height == whole_part(event->WindowResized_height)
        }),
{
}

/// The whole part of a number is the largest whole number that is not above it. With its bit pattern
/// taken apart, a number that is not negative is its significand times a power of two.
pub proof fn law_whole_part_is_rounded_down(exponent: u32, fraction: u32)
    requires
        exponent < 255,
        fraction < 0x80_0000,
    ensures
        ({
            let bits = (exponent * 0x80_0000 + fraction) as u32;
            let whole = whole_part(bits);
            let significand = 0x80_0000 + fraction;
            &&& exponent < 127 ==> whole == 0
            &&& 127 <= exponent < 150 ==> {
                let unit = pow2((150 - exponent) as nat);
                whole * unit <= significand < (whole + 1) * unit
            }
            &&& 150 <= exponent < 159 ==> whole == significand * pow2((exponent - 150) as nat)
            &&& exponent >= 159 ==> whole == u32::MAX
            &&& whole_part((bits + 0x8000_0000) as u32) == 0
        }),
{
    let bits = (exponent * 0x80_0000 + fraction) as u32;
    let significand: int = 0x80_0000 + fraction;
    assert(bits as int == exponent * 0x80_0000 + fraction);
    assert(bits as int / 0x80_0000 == exponent);
    assert(bits as int % 0x80_0000 == fraction);
    assert(bits < 0x8000_0000);
    if 127 <= exponent < 150 {
        let unit: int = pow2((150 - exponent) as nat) as int;
        vstd::arithmetic::power2::lemma_pow2_pos((150 - exponent) as nat);
        vstd::arithmetic::div_mod::lemma_fundamental_div_mod(significand, unit);
        vstd::arithmetic::div_mod::lemma_mod_bound(significand, unit);
        let q = significand / unit;
        assert(0 <= q <= significand) by (nonlinear_arith)
            requires
                q == significand / unit,
                unit > 0,
                significand >= 0,
        ;
        assert(whole_part(bits) == q);
        assert(q * unit <= significand < (q + 1) * unit) by (nonlinear_arith)
            requires
                significand == unit * q + significand % unit,
                0 <= significand % unit < unit,
        ;
    }
    if 150 <= exponent < 159 {
        let unit: int = pow2((exponent - 150) as nat) as int;
        vstd::arithmetic::power2::lemma2_to64();
        if exponent < 158 {
            vstd::arithmetic::power2::lemma_pow2_strictly_increases((exponent - 150) as nat, 8);
        }
        assert(0 <= significand * unit <= u32::MAX) by (nonlinear_arith)
            requires
                0 <= significand < 0x100_0000,
                0 <= unit <= 256,
        ;
    }
}

/// Of what is no number the whole part is zero, and of infinity it is the largest number there is.
pub proof fn law_whole_part_of_no_number(fraction: u32)
    requires
        0 < fraction < 0x80_0000,
    ensures
        whole_part((0x7f80_0000 + fraction) as u32) == 0,
        whole_part((0xff80_0000 + fraction) as u32) == 0,
        whole_part(0x7f80_0000) == u32::MAX,
        whole_part(0xff80_0000) == 0,
{
}

/// [`write_window_event`] refuses an event only if it moves the cursor in, or resizes, a window that
/// does not exist. Every other event is written as it is, for all readers.
pub proof fn law_window_event_is_written(
    event: WindowEvent,
    windows: &mut EntityMap<Window>,
    written: Result<EventWrite, NoSuchWindow>,
)
    requires
        call_ensures(write_window_event, (event, windows), written),
    ensures
        ({
            let missing = {
                ||| event is CursorMoved && !old(windows)@.dom().contains(event->CursorMoved_window)
                ||| event is WindowResized && !old(windows)@.dom().contains(
                    event->WindowResized_window,
                )
            };
            &&& written is Err <==> missing
            &&& written is Err ==> Some(written->Err_0.0) == window_of(event)
            &&& written is Ok ==> written->Ok_0.event == event && written->Ok_0.own_kind
            &&& final(windows)@.dom() == old(windows)@.dom()
            &&& forall|other: u64|
                #![trigger final(windows)@[other]]
                old(windows)@.dom().contains(other) && window_of(event) != Some(other)
                    ==> final(windows)@[other] == old(windows)@[other]
            &&& forall|window: u64|
                #![trigger final(windows)@[window]]
                old(windows)@.dom().contains(window) && window_of(event) == Some(window) ==> {
                    let before = old(windows)@[window];
                    let after = final(windows)@[window];
                    &&& event is CursorMoved ==> after.physical_cursor == Some(
                        event->CursorMoved_position,
                    )
                    &&& !(event is CursorMoved) ==> after.physical_cursor == before.physical_cursor
                    &&& event is WindowResized ==> after.physical_width == whole_part(
                        event->WindowResized_width,
                    ) && after.physical_height == whole_part(event->WindowResized_height)
                    &&& !(event is WindowResized) ==> after.physical_width == before.physical_width
                        && after.physical_height == before.physical_height
                }
        }),
{
    assert(final(windows)@.dom() =~= old(windows)@.dom());
}

/// A game with a single window writes every event, addressed to that window. The readers of one kind
/// get it if it is a key, or resizes the window.
pub proof fn law_event_of_the_single_window(
    event: WindowEvent,
    entity: u64,
    window: &mut Window,
    written: EventWrite,
)
    requires
        call_ensures(process_window_event, (event, entity, window), written),
    ensures
        same_kind(written.event, event),
        window_of(event) is Some ==> window_of(written.event) == Some(entity) && addressed_to(
            written.event,
            window_of(event)->0,
        ) == event,
        window_of(event) is None ==> written.event == event,
        written.own_kind <==> event is WindowResized || event is KeyboardInput,
        event is CursorMoved ==> final(window).physical_cursor == Some(
            event->CursorMoved_position,
        ),
        !(event is CursorMoved) ==> final(window).physical_cursor == old(window).physical_cursor,
        event is WindowResized ==> final(window).physical_width == whole_part(
            event->WindowResized_width,
        ) && final(window).physical_height == whole_part(event->WindowResized_height),
        !(event is WindowResized) ==> final(window).physical_width == old(window).physical_width
            && final(window).physical_height == old(window).physical_height,
{
}

/// What [`whole_pixels`] returns is the whole part that the sizes of windows are made of.
pub proof fn law_whole_pixels_are_the_whole_part(bits: u32, pixels: u32)
    requires
        call_ensures(whole_pixels, (bits,), pixels),
    ensures
        bits < 0x3f80_0000 ==> pixels == 0,
        0x3f80_0000 <= bits < 0x4000_0000 ==> pixels == 1,
        bits >= 0x8000_0000 ==> pixels == 0,
        pixels == whole_part(bits),
{
    if 0x3f80_0000 <= bits < 0x4000_0000 {
        let fraction = (bits - 0x3f80_0000) as u32;
        law_whole_part_is_rounded_down(127, fraction);
        assert(127 * 0x80_0000 + fraction == bits);
        vstd::arithmetic::power2::lemma2_to64();
        assert(pow2(23) == 0x80_0000);
        let whole: int = whole_part(bits) as int;
        let significand: int = 0x80_0000 + fraction;
        assert(whole == 1) by (nonlinear_arith)
            requires
                whole * 0x80_0000 <= significand < (whole + 1) * 0x80_0000,
                0x80_0000 <= significand < 0x100_0000,
        ;
    }
}

} // verus!
