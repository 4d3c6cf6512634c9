//! What the XDG desktop portal backend sends: the key states of a
//! direction, the keysyms and keycodes in the portal's units, the motions
//! that stand for an absolute move, and whether a session is a Wayland one.

use vstd::prelude::*;

use crate::input::{Coordinate, Direction, InputError, InputResult};
use crate::keycodes::{key_to_keysym, spec_key_to_keysym, Key};
use crate::text::chars_of;

verus! {

/// The state of a key or a button in a portal notification
#[derive(Debug, Clone, Copy, PartialEq, Eq, Hash, Structural)]
pub enum KeyState {
    Pressed,
    Released,
}

/// The key states that a direction is sent as, in order
pub open spec fn spec_key_states(direction: Direction) -> Seq<KeyState> {
    match direction {
        Direction::Press => seq![KeyState::Pressed],
        Direction::Release => seq![KeyState::Released],
        Direction::Click => seq![KeyState::Pressed, KeyState::Released],
    }
}

/// The key states that a direction is sent as: a click is a press and then
/// a release
pub fn key_states(direction: Direction) -> (r: Vec<KeyState>)
    ensures
        r@ == spec_key_states(direction),
{
    let mut v: Vec<KeyState> = Vec::new();
    match direction {
        Direction::Press => {
            v.push(KeyState::Pressed);
        },
        Direction::Release => {
            v.push(KeyState::Released);
        },
        Direction::Click => {
            v.push(KeyState::Pressed);
            v.push(KeyState::Released);
        },
    }
    assert(v@ =~= spec_key_states(direction));
    v
}

/// The keysym of a key as the portal takes it, a signed number
pub fn portal_keysym(key: Key) -> (r: InputResult<i32>)
    ensures
        spec_key_to_keysym(key) <= i32::MAX ==> r == Ok::<i32, InputError>(
            spec_key_to_keysym(key) as i32,
        ),
        spec_key_to_keysym(key) > i32::MAX ==> r == Err::<i32, InputError>(
            InputError::InvalidInput("The keysym was larger than i32::MAX"),
        ),
{
    let keysym = key_to_keysym(key);
    if keysym > 2147483647 {
        return Err(InputError::InvalidInput("The keysym was larger than i32::MAX"));
    }
    Ok(keysym as i32)
}

/// The evdev keycode of an X11 keycode, 8 less; an X11 keycode below 8 has
/// no evdev keycode and is refused
pub fn portal_keycode(keycode: u16) -> (r: InputResult<i32>)
    ensures
        keycode >= 8 ==> r == Ok::<i32, InputError>((keycode - 8) as i32),
        keycode < 8 ==> r == Err::<i32, InputError>(
            InputError::InvalidInput("the keycode must be at least 8 (X11 keycode offset)"),
        ),
{
    if keycode < 8 {
        return Err(InputError::InvalidInput("the keycode must be at least 8 (X11 keycode offset)"));
    }
    Ok(keycode as i32 - 8)
}

/// The relative motions that a motion is sent as. The portal cannot move
/// to an absolute position without a screen cast, so an absolute move goes
/// as far as possible towards the top left corner first and then moves by
/// the position.
pub fn portal_motions(x: i32, y: i32, coordinate: Coordinate) -> (r: Vec<(i32, i32)>)
    ensures
        coordinate == Coordinate::Rel ==> r@ == seq![(x, y)],
        coordinate == Coordinate::Abs ==> r@ == seq![(i32::MIN, i32::MIN), (x, y)],
{
    let mut v: Vec<(i32, i32)> = Vec::new();
    if coordinate == Coordinate::Abs {
        v.push((i32::MIN, i32::MIN));
    }
    v.push((x, y));
    proof {
        if coordinate == Coordinate::Abs {
            assert(v@ =~= seq![(i32::MIN, i32::MIN), (x, y)]);
        } else {
            assert(v@ =~= seq![(x, y)]);
        }
    }
    v
}

/// The character in lower case if it is an ASCII upper case letter
pub open spec fn ascii_lower(c: char) -> char {
    if 'A' <= c <= 'Z' {
        ((c as u32) + 32) as char
    } else {
        c
    }
}

/// The two texts are equal when ASCII letters are compared without case
pub open spec fn eq_ignore_ascii_case(a: Seq<char>, b: Seq<char>) -> bool {
    &&& a.len() == b.len()
    &&& forall|i: int| 0 <= i < a.len() ==> ascii_lower(a[i]) == ascii_lower(b[i])
}

/// `c` in lower case if it is an ASCII upper case letter
fn to_ascii_lower(c: char) -> (r: char)
    ensures
        r == ascii_lower(c),
{
    if 'A' <= c && c <= 'Z' {
        let v: u32 = c as u32 + 32;
        assert(v == (c as u32) + 32);
        let r = (v as u8) as char;
        assert(r == ((c as u32) + 32) as char);
        r
    } else {
        c
    }
}

/// Whether the session is a Wayland session, which is the only place the
/// remote desktop portal is served: either a Wayland display is set or the
/// session type is `wayland`, in any case
pub fn is_wayland_session(wayland_display_set: bool, session_type: Option<&str>) -> (r: bool)
    ensures
        r == (wayland_display_set || (session_type matches Some(t) && eq_ignore_ascii_case(
            t@,
            "wayland"@,
        ))),
{
    if wayland_display_set {
        return true;
    }
    match session_type {
        None => false,
        Some(t) => {
            let a = chars_of(t);
            let b = chars_of("wayland");
            if a.len() != b.len() {
                return false;
            }
            let mut i: usize = 0;
            while i < a.len()
                invariant
                    !wayland_display_set,
                    session_type == Some(t),
                    a@ == t@,
                    b@ == "wayland"@,
                    a@.len() == b@.len(),
                    i <= a@.len(),
                    forall|k: int| 0 <= k < i ==> ascii_lower(a@[k]) == ascii_lower(b@[k]),
                decreases a@.len() - i,
            {
                if to_ascii_lower(a[i]) != to_ascii_lower(b[i]) {
                    assert(ascii_lower(t@[i as int]) != ascii_lower("wayland"@[i as int]));
                    return false;
                }
                i = i + 1;
            }
            true
        },
    }
}

} // verus!
