//! Parsing of keyboard and mouse input blobs and the local mouse-state
//! machine. Injecting the events into the OS is platform work outside
//! the library; what to inject is decided here.

use vstd::prelude::*;

verus! {

/// Key-down action byte.
pub const KEY_DOWN: u8 = 0;

/// Key-up action byte.
pub const KEY_UP: u8 = 1;

/// Extended key-down action byte.
pub const KEY_EXTENDED_DOWN: u8 = 2;

/// Extended key-up action byte.
pub const KEY_EXTENDED_UP: u8 = 3;

/// A parsed keyboard event: press or release of a virtual keycode.
#[derive(Debug, Clone, Copy, PartialEq, Eq, Structural)]
pub struct KeyEvent {
    /// Whether the key goes down.
    pub down: bool,
    /// Whether it is an extended key.
    pub extended: bool,
    /// The virtual keycode.
    pub keycode: u8,
}

/// Parse a keyboard blob: the first byte selects press, release or their
/// extended forms; the second is the keycode. Anything else is ignored.
pub fn handle_keyboard_event_fixed(data: &Vec<u8>) -> (r: Option<KeyEvent>)
    ensures
        data@.len() < 2 ==> r is None,
        data@.len() >= 2 ==> r == (match data@[0] {
            0u8 => Some(KeyEvent { down: true, extended: false, keycode: data@[1] }),
            1u8 => Some(KeyEvent { down: false, extended: false, keycode: data@[1] }),
            2u8 => Some(KeyEvent { down: true, extended: true, keycode: data@[1] }),
            3u8 => Some(KeyEvent { down: false, extended: true, keycode: data@[1] }),
            _ => None,
        }),
{
    if data.len() < 2 {
        return None;
    }
    let action = data[0];
    let keycode = data[1];
    match action {
        KEY_DOWN => Some(KeyEvent { down: true, extended: false, keycode }),
        KEY_UP => Some(KeyEvent { down: false, extended: false, keycode }),
        KEY_EXTENDED_DOWN => Some(KeyEvent { down: true, extended: true, keycode }),
        KEY_EXTENDED_UP => Some(KeyEvent { down: false, extended: true, keycode }),
        _ => None,
    }
}

/// Parse a unicode blob: on a key-down action the code point is the
/// big-endian pair at offsets five and six.
pub fn handle_unicode_input_fixed(data: &Vec<u8>) -> (r: Option<u16>)
    ensures
        data@.len() < 7 ==> r is None,
        data@.len() >= 7 ==> r == (if data@[4] == 0 {
            Some(((data@[5] as u16) * 256 + (data@[6] as u16)) as u16)
        } else {
            None
        }),
{
    if data.len() < 7 {
        return None;
    }
    let action = data[4];
    let unicode_high = data[5] as u16;
    let unicode_low = data[6] as u16;
    let unicode = unicode_high * 256 + unicode_low;
    if action == KEY_DOWN {
        Some(unicode)
    } else {
        None
    }
}

/// Whether a mouse button is pressed.
#[derive(Debug, Clone, Copy, PartialEq, Eq, Structural)]
pub enum MouseButtonState {
    Up,
    Down,
}

/// Which button, if any, a drag is running with.
#[derive(Debug, Clone, Copy, PartialEq, Eq, Structural)]
pub enum DragState {
    NoDrag,
    LeftDrag,
    RightDrag,
    MiddleDrag,
}

/// The buttons the mouse blobs address.
#[derive(Debug, Clone, Copy, PartialEq, Eq, Structural)]
pub enum MouseButton {
    Left,
    Right,
    Middle,
    Back,
    Forward,
}

/// The local mirror of the remote mouse.
#[derive(Debug, Clone, Copy)]
pub struct MouseState {
    /// The last position.
    pub last_position: (i32, i32),
    /// The left button.
    pub left_button: MouseButtonState,
    /// The right button.
    pub right_button: MouseButtonState,
    /// The middle button.
    pub middle_button: MouseButtonState,
    /// The back button.
    pub back_button: MouseButtonState,
    /// The forward button.
    pub forward_button: MouseButtonState,
    /// The running drag, if any.
    pub drag_state: DragState,
    /// Where the drag started, if one is running.
    pub drag_start_pos: Option<(i32, i32)>,
}

impl Default for MouseState {
    fn default() -> (r: Self)
        ensures
            r.last_position.0 == 0 && r.last_position.1 == 0,
            r.left_button == MouseButtonState::Up,
            r.right_button == MouseButtonState::Up,
            r.middle_button == MouseButtonState::Up,
            r.back_button == MouseButtonState::Up,
            r.forward_button == MouseButtonState::Up,
            r.drag_state == DragState::NoDrag,
            r.drag_start_pos is None,
    {
        MouseState {
            last_position: (0, 0),
            left_button: MouseButtonState::Up,
            right_button: MouseButtonState::Up,
            middle_button: MouseButtonState::Up,
            back_button: MouseButtonState::Up,
            forward_button: MouseButtonState::Up,
            drag_state: DragState::NoDrag,
            drag_start_pos: None,
        }
    }
}

/// What the injector must do for one mouse blob.
#[derive(Debug, Clone, Copy, PartialEq, Eq, Structural)]
pub enum MouseCommand {
    /// Move only.
    Move,
    /// Press a button.
    ButtonDown(MouseButton),
    /// Release a button.
    ButtonUp(MouseButton),
    /// Scroll by the given wheel deltas.
    Wheel { delta_y: i16, delta_x: i16 },
    /// Double-click the left button.
    DoubleClick,
}

/// A parsed mouse blob: the target position and the command.
#[derive(Debug, Clone, Copy, PartialEq, Eq, Structural)]
pub struct MouseEvent {
    /// Target x position.
    pub x: i32,
    /// Target y position.
    pub y: i32,
    /// What to inject.
    pub command: MouseCommand,
}

/// The button and wheel command selected by a mouse blob's first byte.
pub open spec fn spec_mouse_command(button: u8, delta_y: i16, delta_x: i16) -> Option<
    MouseCommand,
> {
    if button == 0x00 {
        if delta_y != 0 || delta_x != 0 {
            Some(MouseCommand::Wheel { delta_y, delta_x })
        } else {
            Some(MouseCommand::Move)
        }
    } else if button == 0x02 {
        Some(MouseCommand::ButtonDown(MouseButton::Left))
    } else if button == 0x04 {
        Some(MouseCommand::ButtonUp(MouseButton::Left))
    } else if button == 0x08 {
        Some(MouseCommand::ButtonDown(MouseButton::Right))
    } else if button == 0x10 {
        Some(MouseCommand::ButtonUp(MouseButton::Right))
    } else if button == 0x20 {
        Some(MouseCommand::ButtonDown(MouseButton::Middle))
    } else if button == 0x40 {
        Some(MouseCommand::ButtonUp(MouseButton::Middle))
    } else if button == 0x05 {
        Some(MouseCommand::ButtonDown(MouseButton::Back))
    } else if button == 0x0a {
        Some(MouseCommand::ButtonUp(MouseButton::Back))
    } else if button == 0x06 {
        Some(MouseCommand::ButtonDown(MouseButton::Forward))
    } else if button == 0x0c {
        Some(MouseCommand::ButtonUp(MouseButton::Forward))
    } else if button == 0x88 {
        Some(MouseCommand::DoubleClick)
    } else {
        None
    }
}

/// Parse one mouse blob: button byte, big-endian x and y, and optional
/// big-endian wheel deltas. Unknown button bytes parse to nothing.
pub fn parse_mouse_event(data: &Vec<u8>) -> (r: Option<MouseEvent>)
    ensures
        data@.len() < 5 ==> r is None,
        data@.len() >= 5 ==> {
            let dy: i16 = if data@.len() >= 7 {
                spec_i16_from_be(data@[5], data@[6])
            } else {
                0
            };
            let dx: i16 = if data@.len() >= 9 {
                spec_i16_from_be(data@[7], data@[8])
            } else {
                0
            };
            match spec_mouse_command(data@[0], dy, dx) {
                Some(cmd) => r == Some(
                    MouseEvent {
                        x: ((data@[1] as u16) * 256 + (data@[2] as u16)) as u16 as i32,
                        y: ((data@[3] as u16) * 256 + (data@[4] as u16)) as u16 as i32,
                        command: cmd,
                    },
                ),
                None => r is None,
            }
        },
{
    if data.len() < 5 {
        return None;
    }
    let button = data[0];
    let x = ((data[1] as u16) * 256 + (data[2] as u16)) as i32;
    let y = ((data[3] as u16) * 256 + (data[4] as u16)) as i32;
    let delta_y: i16 = if data.len() >= 7 {
        read_i16_be(data[5], data[6])
    } else {
        0
    };
    let delta_x: i16 = if data.len() >= 9 {
        read_i16_be(data[7], data[8])
    } else {
        0
    };
    let command: MouseCommand = if button == 0x00 {
        if delta_y != 0 || delta_x != 0 {
            MouseCommand::Wheel { delta_y, delta_x }
        } else {
            MouseCommand::Move
        }
    } else if button == 0x02 {
        MouseCommand::ButtonDown(MouseButton::Left)
    } else if button == 0x04 {
        MouseCommand::ButtonUp(MouseButton::Left)
    } else if button == 0x08 {
        MouseCommand::ButtonDown(MouseButton::Right)
    } else if button == 0x10 {
        MouseCommand::ButtonUp(MouseButton::Right)
    } else if button == 0x20 {
        MouseCommand::ButtonDown(MouseButton::Middle)
    } else if button == 0x40 {
        MouseCommand::ButtonUp(MouseButton::Middle)
    } else if button == 0x05 {
        MouseCommand::ButtonDown(MouseButton::Back)
    } else if button == 0x0a {
        MouseCommand::ButtonUp(MouseButton::Back)
    } else if button == 0x06 {
        MouseCommand::ButtonDown(MouseButton::Forward)
    } else if button == 0x0c {
        MouseCommand::ButtonUp(MouseButton::Forward)
    } else if button == 0x88 {
        MouseCommand::DoubleClick
    } else {
        return None;
    };
    Some(MouseEvent { x, y, command })
}

/// The signed 16-bit value read from two big-endian bytes.
pub open spec fn spec_i16_from_be(b0: u8, b1: u8) -> i16 {
    (((b0 as u16) * 256 + (b1 as u16)) as u16) as i16
}

/// Read a signed 16-bit big-endian value from two bytes.
fn read_i16_be(b0: u8, b1: u8) -> (r: i16)
    ensures
        r == spec_i16_from_be(b0, b1),
{
    let u: u16 = (b0 as u16) * 256 + (b1 as u16);
    #[verifier::truncate]
    let r: i16 = u as i16;
    r
}

/// Press a button: record its state, start a drag for a primary button,
/// and remember the drag origin.
pub fn handle_button_down(state: &mut MouseState, button: MouseButton, x: i32, y: i32)
    ensures
        final(state).drag_start_pos == (if button is Left || button is Right
            || button is Middle {
            Some((x, y))
        } else {
            old(state).drag_start_pos
        }),
        button is Left ==> final(state).left_button == MouseButtonState::Down
            && final(state).drag_state == DragState::LeftDrag,
        button is Right ==> final(state).right_button == MouseButtonState::Down
            && final(state).drag_state == DragState::RightDrag,
        button is Middle ==> final(state).middle_button == MouseButtonState::Down
            && final(state).drag_state == DragState::MiddleDrag,
        button is Back ==> final(state).back_button == MouseButtonState::Down,
        button is Forward ==> final(state).forward_button == MouseButtonState::Down,
{
    match button {
        MouseButton::Left => {
            state.left_button = MouseButtonState::Down;
            state.drag_state = DragState::LeftDrag;
        },
        MouseButton::Right => {
            state.right_button = MouseButtonState::Down;
            state.drag_state = DragState::RightDrag;
        },
        MouseButton::Middle => {
            state.middle_button = MouseButtonState::Down;
            state.drag_state = DragState::MiddleDrag;
        },
        MouseButton::Back => {
            state.back_button = MouseButtonState::Down;
        },
        MouseButton::Forward => {
            state.forward_button = MouseButtonState::Down;
        },
    }
    match button {
        MouseButton::Left | MouseButton::Right | MouseButton::Middle => {
            state.drag_start_pos = Some((x, y));
        },
        _ => {},
    }
}

/// Release a button: record its state, end a drag that ran with this
/// button, and forget the drag origin for primary buttons.
pub fn handle_button_up(state: &mut MouseState, button: MouseButton)
    ensures
        button is Left ==> final(state).left_button == MouseButtonState::Up,
        button is Right ==> final(state).right_button == MouseButtonState::Up,
        button is Middle ==> final(state).middle_button == MouseButtonState::Up,
        button is Back ==> final(state).back_button == MouseButtonState::Up,
        button is Forward ==> final(state).forward_button == MouseButtonState::Up,
        (button is Left || button is Right || button is Middle)
            ==> final(state).drag_start_pos is None,
{
    match button {
        MouseButton::Left => {
            state.left_button = MouseButtonState::Up;
            if state.drag_state == DragState::LeftDrag {
                state.drag_state = DragState::NoDrag;
            }
        },
        MouseButton::Right => {
            state.right_button = MouseButtonState::Up;
            if state.drag_state == DragState::RightDrag {
                state.drag_state = DragState::NoDrag;
            }
        },
        MouseButton::Middle => {
            state.middle_button = MouseButtonState::Up;
            if state.drag_state == DragState::MiddleDrag {
                state.drag_state = DragState::NoDrag;
            }
        },
        MouseButton::Back => {
            state.back_button = MouseButtonState::Up;
        },
        MouseButton::Forward => {
            state.forward_button = MouseButtonState::Up;
        },
    }
    match button {
        MouseButton::Left | MouseButton::Right | MouseButton::Middle => {
            state.drag_start_pos = None;
        },
        _ => {},
    }
}

/// A plain move during a drag: the state is left as it is; only the
/// caller's position bookkeeping changes.
pub fn handle_drag_move(state: &mut MouseState, x: i32, y: i32)
    ensures
        *final(state) == *old(state),
{
    if state.drag_state != DragState::NoDrag {
        let _has_origin = state.drag_start_pos.is_some();
    }
}

/// The whole-wheel-click count for a raw delta on platforms that scroll
/// by clicks: the magnitude in 120ths, at least one click.
pub fn wheel_clicks(delta: i16) -> (r: i32)
    ensures
        r == {
            let magnitude = if delta >= 0 {
                delta as int
            } else {
                -(delta as int)
            };
            if magnitude / 120 >= 1 {
                magnitude / 120
            } else {
                1int
            }
        },
{
    let magnitude: i32 = if delta >= 0 {
        delta as i32
    } else {
        -(delta as i32)
    };
    let clicks = magnitude / 120;
    if clicks >= 1 {
        clicks
    } else {
        1
    }
}

/// The batch delay in milliseconds for a burst of queued inputs: longer
/// pauses as the burst grows.
pub fn input_batch_delay(consecutive_inputs: u32) -> (r: u64)
    ensures
        r == (if consecutive_inputs > 100 {
            50int
        } else if consecutive_inputs > 50 {
            25int
        } else if consecutive_inputs > 20 {
            15int
        } else {
            crate::protocol::INPUT_DEBOUNCE_MS as int
        }),
{
    if consecutive_inputs > 100 {
        50
    } else if consecutive_inputs > 50 {
        25
    } else if consecutive_inputs > 20 {
        15
    } else {
        crate::protocol::INPUT_DEBOUNCE_MS
    }
}

/// The per-kind minimum interval between processed inputs, in
/// milliseconds.
pub fn input_min_interval_ms(is_keyboard: bool, is_mouse: bool, is_unicode: bool) -> (r: u64)
    ensures
        is_keyboard ==> r == 8,
        !is_keyboard && is_mouse ==> r == 2,
        !is_keyboard && !is_mouse && is_unicode ==> r == 15,
        !is_keyboard && !is_mouse && !is_unicode ==> r == crate::protocol::INPUT_DEBOUNCE_MS,
{
    if is_keyboard {
        8
    } else if is_mouse {
        2
    } else if is_unicode {
        15
    } else {
        crate::protocol::INPUT_DEBOUNCE_MS
    }
}

} // verus!
