//! The basic vocabulary of the library: buttons, directions, axes,
//! coordinates, errors and settings.

use vstd::prelude::*;

use crate::text::push_str;

verus! {

/// Arbitrary value to be able to distinguish events created by enigo
pub const EVENT_MARKER: u32 = 100;

/// Represents a mouse button
#[derive(Debug, Clone, Copy, PartialEq, Eq, Hash, Structural)]
pub enum Button {
    /// Left mouse button
    Left,
    /// Middle mouse button
    Middle,
    /// Right mouse button
    Right,
    /// 4th mouse button. Typically performs the same function as `Browser_Back`
    Back,
    /// 5th mouse button. Typically performs the same function as `Browser_Forward`
    Forward,
    /// Scroll up button. It is better to use the `Mouse::scroll` method to scroll.
    ScrollUp,
    /// Scroll down button. It is better to use the `Mouse::scroll` method to scroll.
    ScrollDown,
    /// Scroll left button. It is better to use the `Mouse::scroll` method to scroll.
    ScrollLeft,
    /// Scroll right button. It is better to use the `Mouse::scroll` method to scroll.
    ScrollRight,
}

/// The axis that a scroll button scrolls along and its direction, as the
/// sign of the scroll lengths it stands for: up and left are negative, down
/// and right positive. Other buttons do not scroll.
pub open spec fn scroll_motion(button: Button) -> Option<(Axis, int)> {
    match button {
        Button::ScrollUp => Some((Axis::Vertical, -1)),
        Button::ScrollDown => Some((Axis::Vertical, 1)),
        Button::ScrollLeft => Some((Axis::Horizontal, -1)),
        Button::ScrollRight => Some((Axis::Horizontal, 1)),
        _ => None,
    }
}

impl Default for Button {
    fn default() -> (b: Self)
        ensures
            b == Button::Left,
    {
        Button::Left
    }
}

/// The direction of a key or button
#[derive(Debug, Clone, Copy, PartialEq, Eq, Hash, Structural)]
pub enum Direction {
    Press,
    Release,
    /// Equivalent to a press followed by a release
    Click,
}

impl Default for Direction {
    fn default() -> (d: Self)
        ensures
            d == Direction::Click,
    {
        Direction::Click
    }
}

/// Specifies the axis for scrolling
#[derive(Debug, Clone, Copy, PartialEq, Eq, Hash, Structural)]
pub enum Axis {
    Horizontal,
    Vertical,
}

impl Default for Axis {
    fn default() -> (a: Self)
        ensures
            a == Axis::Vertical,
    {
        Axis::Vertical
    }
}

/// Specifies if a coordinate is relative or absolute
#[derive(Debug, Clone, Copy, PartialEq, Eq, Hash, Structural)]
pub enum Coordinate {
    Abs,
    Rel,
}

impl Default for Coordinate {
    fn default() -> (c: Self)
        ensures
            c == Coordinate::Abs,
    {
        Coordinate::Abs
    }
}

/// Error when simulating input
#[derive(Debug, Clone, PartialEq, Eq, Hash)]
pub enum InputError {
    /// Mapping a keycode to a keysym failed
    Mapping(String),
    /// Unmapping a keycode failed
    Unmapping(String),
    /// There was no space to map any keycodes
    NoEmptyKeycodes,
    /// There was an error with the protocol
    Simulate(&'static str),
    /// The input you want to simulate is invalid.
    /// This happens for example if you want to enter text that contains NULL
    /// bytes (`\0`)
    InvalidInput(&'static str),
}

pub type InputResult<T> = Result<T, InputError>;

/// The message that describes an error when simulating input
pub open spec fn input_error_message(e: InputError) -> Seq<char> {
    match e {
        InputError::Mapping(s) => "error when mapping keycode to keysym: ("@ + s@ + ")"@,
        InputError::Unmapping(s) => "error when unmapping keysym: ("@ + s@ + ")"@,
        InputError::NoEmptyKeycodes => "there were no empty keycodes that could be used"@,
        InputError::Simulate(s) => "simulating input failed: ("@ + s@ + ")"@,
        InputError::InvalidInput(s) => "you tried to simulate invalid input: ("@ + s@ + ")"@,
    }
}

impl InputError {
    /// The message that describes the error
    pub fn to_string(&self) -> (r: String)
        ensures
            r@ == input_error_message(*self),
    {
        let mut out = String::new();
        match self {
            InputError::Mapping(e) => {
                push_str(&mut out, "error when mapping keycode to keysym: (");
                push_str(&mut out, e.as_str());
                push_str(&mut out, ")");
            },
            InputError::Unmapping(e) => {
                push_str(&mut out, "error when unmapping keysym: (");
                push_str(&mut out, e.as_str());
                push_str(&mut out, ")");
            },
            InputError::NoEmptyKeycodes => {
                push_str(&mut out, "there were no empty keycodes that could be used");
            },
            InputError::Simulate(e) => {
                push_str(&mut out, "simulating input failed: (");
                push_str(&mut out, e);
                push_str(&mut out, ")");
            },
            InputError::InvalidInput(e) => {
                push_str(&mut out, "you tried to simulate invalid input: (");
                push_str(&mut out, e);
                push_str(&mut out, ")");
            },
        }
        out
    }
}

/// Error when establishing a new connection
#[derive(Debug, Clone, Copy, PartialEq, Eq, Hash)]
pub enum NewConError {
    /// Error while creating the connection
    EstablishCon(&'static str),
    /// The application does not have the permission to simulate input
    NoPermission,
    /// Error when receiving a reply
    Reply,
    /// The keymap is full, so there was no space to map any keycodes to keysyms
    NoEmptyKeycodes,
}

/// The message that describes an error when establishing a connection
pub open spec fn new_con_error_message(e: NewConError) -> Seq<char> {
    match e {
        NewConError::EstablishCon(s) => "no connection could be established: ("@ + s@ + ")"@,
        NewConError::NoPermission => "the application does not have the permission to simulate input"@,
        NewConError::Reply => "there was an error with the reply from the display server. this should not happen"@,
        NewConError::NoEmptyKeycodes => "there were no empty keycodes that could be used"@,
    }
}

impl NewConError {
    /// The message that describes the error
    pub fn to_string(&self) -> (r: String)
        ensures
            r@ == new_con_error_message(*self),
    {
        let mut out = String::new();
        match self {
            NewConError::EstablishCon(e) => {
                push_str(&mut out, "no connection could be established: (");
                push_str(&mut out, e);
                push_str(&mut out, ")");
            },
            NewConError::NoPermission => {
                push_str(&mut out, "the application does not have the permission to simulate input");
            },
            NewConError::Reply => {
                push_str(
                    &mut out,
                    "there was an error with the reply from the display server. this should not happen",
                );
            },
            NewConError::NoEmptyKeycodes => {
                push_str(&mut out, "there were no empty keycodes that could be used");
            },
        }
        out
    }
}

/// Settings for creating the Enigo struct and its behavior
#[derive(Debug, Clone, PartialEq, Eq, Hash)]
pub struct Settings {
    /// Sleep delay on Linux X11
    pub linux_delay: u32,
    /// Display name to connect to when using Linux X11
    pub x11_display: Option<String>,
    /// Display name to connect to when using Linux Wayland
    pub wayland_display: Option<String>,
    /// Arbitrary value to be able to distinguish events created by enigo.
    /// All events will be marked with this value in the dwExtraInfo field
    pub windows_dw_extra_info: Option<usize>,
    /// Arbitrary value to be able to distinguish events created by enigo.
    /// All events will be marked with this value in the
    /// `EVENT_SOURCE_USER_DATA` field
    pub event_source_user_data: Option<i64>,
    /// Set this to true if you want all held keys to get released when Enigo
    /// gets dropped. The default is true.
    pub release_keys_when_dropped: bool,
    /// Open a prompt to ask the user for the permission to simulate input if
    /// they are missing. This only works on macOS. The default is true.
    pub open_prompt_to_get_permissions: bool,
    /// The simulated input is independent from the pressed keys on the
    /// physical keyboard. This only works on macOS. The default is true.
    pub independent_of_keyboard_state: bool,
    /// If this is set to true, the relative mouse motion will be subject to the
    /// settings for mouse speed and acceleration level. The default value is false.
    pub windows_subject_to_mouse_speed_and_acceleration_level: bool,
}

impl Default for Settings {
    fn default() -> (s: Self)
        ensures
            s.linux_delay == 12,
            s.x11_display is None,
            s.wayland_display is None,
            s.windows_dw_extra_info is None,
            s.event_source_user_data is None,
            s.release_keys_when_dropped,
            s.open_prompt_to_get_permissions,
            s.independent_of_keyboard_state,
            !s.windows_subject_to_mouse_speed_and_acceleration_level,
    {
        Settings {
            linux_delay: 12,
            x11_display: None,
            wayland_display: None,
            windows_dw_extra_info: None,
            event_source_user_data: None,
            release_keys_when_dropped: true,
            open_prompt_to_get_permissions: true,
            independent_of_keyboard_state: true,
            windows_subject_to_mouse_speed_and_acceleration_level: false,
        }
    }
}

/// Absolute value of an integer
pub open spec fn abs_int(v: int) -> int {
    if v < 0 { -v } else { v }
}

/// The factor by which Windows multiplies a relative mouse motion of
/// `(x, y)`: doubled once if either distance exceeds the first threshold and
/// the acceleration is on, doubled again if either exceeds the second
/// threshold and the acceleration level is two.
pub open spec fn rel_move_multiplier(x: int, y: int, threshold1: int, threshold2: int, acceleration_level: int) -> int {
    let first = if acceleration_level != 0 && (abs_int(x) > threshold1 || abs_int(y) > threshold1) {
        2int
    } else {
        1int
    };
    if acceleration_level == 2 && (abs_int(x) > threshold2 || abs_int(y) > threshold2) {
        first * 2
    } else {
        first
    }
}

/// `n / 10`, rounded to the nearest integer, ties away from zero
pub open spec fn round_tenth(n: int) -> int {
    if n >= 0 { (n + 5) / 10 } else { -((-n + 5) / 10) }
}

/// Clamps an integer into the range of `i32`
pub open spec fn clamp_i32(v: int) -> int {
    if v > i32::MAX { i32::MAX as int } else if v < i32::MIN { i32::MIN as int } else { v }
}

/// The coordinate that a relative motion of `d` ends up as once the
/// multiplier `m` and the mouse speed `speed` (in tenths) are applied
pub open spec fn scaled_motion(d: int, m: int, speed: int) -> int {
    clamp_i32(round_tenth(m * d * speed))
}

/// The inputs on which computing the location would take the absolute value
/// of `i32::MIN` or overflow `i32` when applying the multiplier
pub open spec fn rel_location_defined(x: i32, y: i32, threshold1: i32, threshold2: i32, acceleration_level: i32) -> bool {
    &&& acceleration_level != 0 ==> x != i32::MIN
    &&& (acceleration_level != 0 && abs_int(x as int) <= threshold1) ==> y != i32::MIN
    &&& (acceleration_level == 2 && abs_int(x as int) <= threshold2) ==> y != i32::MIN
    &&& i32::MIN <= rel_move_multiplier(x as int, y as int, threshold1 as int, threshold2 as int, acceleration_level as int) * x <= i32::MAX
    &&& i32::MIN <= rel_move_multiplier(x as int, y as int, threshold1 as int, threshold2 as int, acceleration_level as int) * y <= i32::MAX
}

/// IMPORTANT: This function does NOT simulate a relative mouse movement.
///
/// Estimates where a relative mouse motion of `(x, y)` ends up on Windows
/// when the motion is subject to the system's mouse speed and acceleration
/// settings: the motion is multiplied by up to four depending on the two
/// thresholds and the acceleration level, then scaled by `mouse_speed / 10`
/// and rounded to the nearest integer (ties away from zero), saturating at
/// the bounds of `i32`. The scaling is computed exactly on integers.
pub fn win_future_rel_mouse_location(
    x: i32,
    y: i32,
    threshold1: i32,
    threshold2: i32,
    acceleration_level: i32,
    mouse_speed: i32,
) -> (r: (i32, i32))
    requires
        rel_location_defined(x, y, threshold1, threshold2, acceleration_level),
    ensures
        ({
            let m = rel_move_multiplier(x as int, y as int, threshold1 as int, threshold2 as int, acceleration_level as int);
            &&& r.0 == scaled_motion(x as int, m, mouse_speed as int)
            &&& r.1 == scaled_motion(y as int, m, mouse_speed as int)
        }),
{
    let mut multiplier: i32 = 1;
    if acceleration_level != 0 && (abs_i32(x) > threshold1 || abs_i32(y) > threshold1) {
        multiplier = 2;
    }
    if acceleration_level == 2 && (abs_i32(x) > threshold2 || abs_i32(y) > threshold2) {
        multiplier = multiplier * 2;
    }
    let accelerated_x: i32 = multiplier * x;
    let accelerated_y: i32 = multiplier * y;
    let scaled_x = scale_by_speed(accelerated_x, mouse_speed);
    let scaled_y = scale_by_speed(accelerated_y, mouse_speed);
    (scaled_x, scaled_y)
}

/// Negating a motion negates where it is estimated to end up: the
/// multiplier is the same and the rounding is symmetric. This holds as long
/// as the scaled motions stay within `i32`; where they saturate, the result
/// is `i32::MAX` one way and `i32::MIN` the other.
pub proof fn lemma_rel_location_negation(
    x: i32,
    y: i32,
    threshold1: i32,
    threshold2: i32,
    acceleration_level: i32,
    mouse_speed: i32,
)
    requires
        ({
            let m = rel_move_multiplier(x as int, y as int, threshold1 as int, threshold2 as int, acceleration_level as int);
            &&& abs_int(round_tenth(m * x * mouse_speed)) <= i32::MAX
            &&& abs_int(round_tenth(m * y * mouse_speed)) <= i32::MAX
        }),
    ensures
        ({
            let m = rel_move_multiplier(x as int, y as int, threshold1 as int, threshold2 as int, acceleration_level as int);
            let mn = rel_move_multiplier(-x, -y, threshold1 as int, threshold2 as int, acceleration_level as int);
            &&& mn == m
            &&& scaled_motion(-x, mn, mouse_speed as int) == -scaled_motion(x as int, m, mouse_speed as int)
            &&& scaled_motion(-y, mn, mouse_speed as int) == -scaled_motion(y as int, m, mouse_speed as int)
        }),
{
    let m = rel_move_multiplier(x as int, y as int, threshold1 as int, threshold2 as int, acceleration_level as int);
    assert(abs_int(-x) == abs_int(x as int));
    assert(abs_int(-y) == abs_int(y as int));
    lemma_round_tenth_odd(m * x * mouse_speed);
    lemma_round_tenth_odd(m * y * mouse_speed);
    assert(m * (-x) * mouse_speed == -(m * x * mouse_speed)) by (nonlinear_arith);
    assert(m * (-y) * mouse_speed == -(m * y * mouse_speed)) by (nonlinear_arith);
}

/// Rounding to tenths is symmetric about zero
proof fn lemma_round_tenth_odd(n: int)
    ensures
        round_tenth(-n) == -round_tenth(n),
{
}

/// Absolute value of an `i32` other than `i32::MIN`
fn abs_i32(v: i32) -> (r: i32)
    requires
        v != i32::MIN,
    ensures
        r == abs_int(v as int),
{
    if v < 0 { -v } else { v }
}

/// `accelerated * mouse_speed / 10`, rounded half away from zero and
/// saturated to `i32`
fn scale_by_speed(accelerated: i32, mouse_speed: i32) -> (r: i32)
    ensures
        r == clamp_i32(round_tenth(accelerated * mouse_speed)),
{
    let a: i64 = accelerated as i64;
    let s: i64 = mouse_speed as i64;
    assert(i32::MIN * i32::MAX <= a * s <= i32::MIN * i32::MIN) by (nonlinear_arith)
        requires
            i32::MIN <= a <= i32::MAX,
            i32::MIN <= s <= i32::MAX,
    ;
    let n: i64 = a * s;
    let rounded: i64 = if n >= 0 {
        (n + 5) / 10
    } else {
        -((-n + 5) / 10)
    };
    if rounded > i32::MAX as i64 {
        i32::MAX
    } else if rounded < i32::MIN as i64 {
        i32::MIN
    } else {
        rounded as i32
    }
}

/// The pointer speed multiplier that the Windows mouse sensitivity slider
/// selects, in tenths: the sensitivity runs from 1 to 20 and the multiplier
/// from 0.1 to 2.0, so the multiplier in tenths is the sensitivity itself.
/// Other sensitivities are refused.
pub fn update_mouse_speed(mouse_sensitivity: i32) -> (r: InputResult<u32>)
    ensures
        1 <= mouse_sensitivity <= 20 ==> r == Ok::<u32, InputError>(mouse_sensitivity as u32),
        !(1 <= mouse_sensitivity <= 20) ==> r == Err::<u32, InputError>(
            InputError::InvalidInput("Mouse sensitivity must be between 1 and 20."),
        ),
{
    if mouse_sensitivity < 1 || mouse_sensitivity > 20 {
        return Err(InputError::InvalidInput("Mouse sensitivity must be between 1 and 20."));
    }
    Ok(mouse_sensitivity as u32)
}

/// The name and index under which a mouse button is written out; only the
/// left, middle and right buttons have one
pub open spec fn spec_button_variant(button: Button) -> Option<(Seq<char>, u32)> {
    match button {
        Button::Left => Some(("left"@, 0)),
        Button::Middle => Some(("middle"@, 1)),
        Button::Right => Some(("right"@, 2)),
        _ => None,
    }
}

/// The name and index under which a mouse button is written out. The
/// other buttons cannot be written out.
pub fn button_variant(button: Button) -> (r: Result<(&'static str, u32), &'static str>)
    ensures
        spec_button_variant(button) matches Some((n, i)) ==> (r matches Ok((s, j)) && s@ == n && j == i),
        spec_button_variant(button) is None ==> r == Err::<(&'static str, u32), &'static str>(
            "Not a valid MouseButton type.",
        ),
{
    match button {
        Button::Left => Ok(("left", 0)),
        Button::Middle => Ok(("middle", 1)),
        Button::Right => Ok(("right", 2)),
        _ => Err("Not a valid MouseButton type."),
    }
}

/// The mouse button that a name that was read stands for
pub fn button_from_name(name: &str) -> (r: Result<Button, &'static str>)
    ensures
        name@ == "left"@ ==> r == Ok::<Button, &'static str>(Button::Left),
        name@ == "middle"@ ==> r == Ok::<Button, &'static str>(Button::Middle),
        name@ == "right"@ ==> r == Ok::<Button, &'static str>(Button::Right),
        !(name@ == "left"@ || name@ == "middle"@ || name@ == "right"@) ==> r == Err::<
            Button,
            &'static str,
        >("Not a valid MouseButton type."),
{
    proof {
        reveal_strlit("left");
        reveal_strlit("middle");
        reveal_strlit("right");
        assert("left"@.len() == 4 && "middle"@.len() == 6 && "right"@.len() == 5);
    }
    if crate::text::same_text(name, "left") {
        Ok(Button::Left)
    } else if crate::text::same_text(name, "middle") {
        Ok(Button::Middle)
    } else if crate::text::same_text(name, "right") {
        Ok(Button::Right)
    } else {
        Err("Not a valid MouseButton type.")
    }
}

/// A mouse button that can be written out is read back as itself
pub proof fn lemma_button_name_round_trip(button: Button)
    requires
        spec_button_variant(button) is Some,
    ensures
        ({
            let name = match spec_button_variant(button) {
                Some((n, _)) => n,
                None => Seq::<char>::empty(),
            };
            &&& name == "left"@ ==> button == Button::Left
            &&& name == "middle"@ ==> button == Button::Middle
            &&& name == "right"@ ==> button == Button::Right
            &&& name == "left"@ || name == "middle"@ || name == "right"@
        }),
{
    reveal_strlit("left");
    reveal_strlit("middle");
    reveal_strlit("right");
    assert("left"@.len() == 4 && "middle"@.len() == 6 && "right"@.len() == 5);
}

} // verus!
