//! The decisions of the libei backend: how text is cut into protocol
//! messages, what the backend keeps of the session as events arrive, which
//! device state allows sending events, and which evdev codes the mouse
//! buttons are sent as.

use vstd::prelude::*;

use std::collections::{HashMap, HashSet};

use crate::input::{scroll_motion, Axis, Button, Coordinate, Direction, InputError, InputResult};
use crate::keycodes::{key_to_keysym, spec_key_to_keysym, Key};
use crate::keymap2::{level_keycode, on_levels};
use crate::text::same_text;
use vstd::std_specs::iter::IteratorSpec;
use vstd::utf8::{encode_utf8_valid_utf8, is_char_boundary, valid_utf8};
use vstd::string::StringSliceAdditionalSpecFns;

verus! {

broadcast use vstd::std_specs::hash::group_hash_axioms;

/// `ei_text.utf8` allows at most 254 bytes (255 including the terminating NUL).
pub const EI_TEXT_MAX_UTF8_LEN: usize = 254;

/// The largest character boundary of `bytes` that is at most `e`
pub open spec fn last_boundary_upto(bytes: Seq<u8>, e: int) -> int
    decreases e,
{
    if e <= 0 {
        0
    } else if is_char_boundary(bytes, e) {
        e
    } else {
        last_boundary_upto(bytes, e - 1)
    }
}

/// The chunks of `bytes`: each is the longest rest of the input of at most
/// `max` bytes that ends on a character boundary
pub open spec fn utf8_chunks(bytes: Seq<u8>, max: int) -> Seq<Seq<u8>>
    decreases bytes.len(),
{
    if bytes.len() == 0 {
        Seq::<Seq<u8>>::empty()
    } else {
        let top = if max < bytes.len() { max } else { bytes.len() as int };
        let e = last_boundary_upto(bytes, top);
        if e <= 0 {
            seq![bytes]
        } else {
            proof {
                lemma_last_boundary_le(bytes, top);
            }
            seq![bytes.take(e)] + utf8_chunks(bytes.skip(e), max)
        }
    }
}

pub proof fn lemma_last_boundary_le(bytes: Seq<u8>, e: int)
    ensures
        last_boundary_upto(bytes, e) <= e || last_boundary_upto(bytes, e) == 0,
        last_boundary_upto(bytes, e) >= 0,
    decreases e,
{
    if e > 0 && !is_char_boundary(bytes, e) {
        lemma_last_boundary_le(bytes, e - 1);
    }
}

/// The UTF-8 bytes of each string
pub open spec fn chunk_bytes(v: Seq<&str>) -> Seq<Seq<u8>>
    decreases v.len(),
{
    if v.len() == 0 {
        Seq::<Seq<u8>>::empty()
    } else {
        chunk_bytes(v.drop_last()).push(v.last().spec_bytes())
    }
}

/// Joins byte sequences
pub open spec fn concat_bytes(v: Seq<Seq<u8>>) -> Seq<u8>
    decreases v.len(),
{
    if v.len() == 0 {
        Seq::<u8>::empty()
    } else {
        v[0] + concat_bytes(v.drop_first())
    }
}

proof fn lemma_first_boundary(bytes: Seq<u8>)
    requires
        valid_utf8(bytes),
        bytes.len() > 0,
    ensures
        1 <= vstd::utf8::length_of_first_scalar(bytes) <= 4,
        vstd::utf8::length_of_first_scalar(bytes) <= bytes.len(),
        is_char_boundary(bytes, vstd::utf8::length_of_first_scalar(bytes)),
{
    reveal_with_fuel(is_char_boundary, 2);
    vstd::utf8::is_char_boundary_start_end_of_seq(vstd::utf8::pop_first_scalar(bytes));
}

proof fn lemma_last_boundary_bounds(bytes: Seq<u8>, e: int, b: int)
    requires
        1 <= b <= e,
        is_char_boundary(bytes, b),
    ensures
        b <= last_boundary_upto(bytes, e) <= e,
        is_char_boundary(bytes, last_boundary_upto(bytes, e)),
    decreases e,
{
    if !is_char_boundary(bytes, e) {
        lemma_last_boundary_bounds(bytes, e - 1, b);
    }
}

/// Every chunk is non-empty, holds at most `max` bytes, and the chunks
/// joined give back the input
pub proof fn lemma_utf8_chunks(bytes: Seq<u8>, max: int)
    requires
        valid_utf8(bytes),
        max >= 4,
    ensures
        concat_bytes(utf8_chunks(bytes, max)) == bytes,
        forall|i: int|
            0 <= i < utf8_chunks(bytes, max).len() ==> {
                &&& 1 <= (#[trigger] utf8_chunks(bytes, max)[i]).len() <= max
                &&& valid_utf8(utf8_chunks(bytes, max)[i])
            },
    decreases bytes.len(),
{
    if bytes.len() > 0 {
        let top = if max < bytes.len() { max } else { bytes.len() as int };
        lemma_first_boundary(bytes);
        lemma_last_boundary_bounds(bytes, top, vstd::utf8::length_of_first_scalar(bytes));
        let e = last_boundary_upto(bytes, top);
        vstd::utf8::valid_utf8_split(bytes, e);
        assert(bytes.subrange(0, e) =~= bytes.take(e));
        assert(bytes.subrange(e, bytes.len() as int) =~= bytes.skip(e));
        lemma_utf8_chunks(bytes.skip(e), max);
        let rest = utf8_chunks(bytes.skip(e), max);
        let all = utf8_chunks(bytes, max);
        assert(all == seq![bytes.take(e)] + rest);
        assert(all.drop_first() =~= rest);
        assert(bytes.take(e) + bytes.skip(e) =~= bytes);
        assert forall|i: int| 0 <= i < all.len() implies {
            &&& 1 <= (#[trigger] all[i]).len() <= max
            &&& valid_utf8(all[i])
        } by {
            if i > 0 {
                assert(all[i] == rest[i - 1]);
            }
        }
    }
}

/// Split `s` into UTF-8 substrings of at most `max_bytes` bytes each: each
/// substring is the longest rest of `s` of at most `max_bytes` bytes that
/// ends on a character boundary
pub fn utf8_byte_chunks<'a>(s: &'a str, max_bytes: usize) -> (r: Vec<&'a str>)
    requires
        max_bytes >= 4,
        s.spec_bytes().len() <= usize::MAX,
    ensures
        chunk_bytes(r@) == utf8_chunks(s.spec_bytes(), max_bytes as int),
{
    let mut rest: &'a str = s;
    let mut out: Vec<&'a str> = Vec::new();
    proof {
        encode_utf8_valid_utf8(s@);
        assert(chunk_bytes(out@) + utf8_chunks(rest.spec_bytes(), max_bytes as int) =~= utf8_chunks(
            s.spec_bytes(),
            max_bytes as int,
        ));
    }
    while rest.len() != 0
        invariant
            max_bytes >= 4,
            valid_utf8(rest.spec_bytes()),
            rest.spec_bytes().len() <= usize::MAX,
            chunk_bytes(out@) + utf8_chunks(rest.spec_bytes(), max_bytes as int) == utf8_chunks(
                s.spec_bytes(),
                max_bytes as int,
            ),
        decreases rest.spec_bytes().len(),
    {
        let ghost bytes = rest.spec_bytes();
        let len = rest.len();
        assert(len == bytes.len());
        assert(bytes.len() > 0);
        let top: usize = if max_bytes < len {
            max_bytes
        } else {
            len
        };
        let mut end: usize = top;
        proof {
            lemma_first_boundary(bytes);
            lemma_last_boundary_bounds(bytes, top as int, vstd::utf8::length_of_first_scalar(bytes));
        }
        while !rest.is_char_boundary(end)
            invariant
                bytes == rest.spec_bytes(),
                1 <= vstd::utf8::length_of_first_scalar(bytes) <= end <= top,
                is_char_boundary(bytes, vstd::utf8::length_of_first_scalar(bytes)),
                last_boundary_upto(bytes, top as int) == last_boundary_upto(bytes, end as int),
            decreases end,
        {
            end = end - 1;
        }
        let (chunk, tail) = rest.split_at(end);
        proof {
            vstd::utf8::valid_utf8_split(bytes, end as int);
            assert(chunk.spec_bytes() =~= bytes.take(end as int));
            assert(tail.spec_bytes() =~= bytes.skip(end as int));
            assert(utf8_chunks(bytes, max_bytes as int) == seq![bytes.take(end as int)] + utf8_chunks(
                bytes.skip(end as int),
                max_bytes as int,
            ));
        }
        let ghost before = out@;
        out.push(chunk);
        proof {
            assert(out@.drop_last() =~= before);
            assert(chunk_bytes(out@) == chunk_bytes(before).push(chunk.spec_bytes()));
            assert(chunk_bytes(out@) + utf8_chunks(tail.spec_bytes(), max_bytes as int) =~= chunk_bytes(before)
                + utf8_chunks(bytes, max_bytes as int));
        }
        rest = tail;
    }
    proof {
        assert(utf8_chunks(rest.spec_bytes(), max_bytes as int) =~= Seq::<Seq<u8>>::empty());
        assert(chunk_bytes(out@) + Seq::<Seq<u8>>::empty() =~= chunk_bytes(out@));
    }
    out
}

/// The state of an emulated device
#[derive(Debug, Clone, Copy, PartialEq, Eq, Structural)]
pub enum DeviceState {
    Paused,
    Resumed,
    Emulating,
}

impl Default for DeviceState {
    fn default() -> (d: Self)
        ensures
            d == DeviceState::Paused,
    {
        DeviceState::Paused
    }
}

/// What has to happen before events can be sent to a device: nothing if it
/// is emulating; if it was resumed, emulation is started with the current
/// sequence number, which is then incremented (wrapping); a paused device
/// cannot be used, as only the EIS implementation can resume it.
///
/// Returns the new state, the new sequence number and whether
/// `start_emulating` has to be sent.
pub fn ensure_emulating(state: DeviceState, sequence: u32) -> (r: Result<(DeviceState, u32, bool), InputError>)
    ensures
        match state {
            DeviceState::Emulating => r == Ok::<(DeviceState, u32, bool), InputError>(
                (DeviceState::Emulating, sequence, false),
            ),
            DeviceState::Resumed => r == Ok::<(DeviceState, u32, bool), InputError>(
                (
                    DeviceState::Emulating,
                    (if sequence == u32::MAX { 0 } else { sequence + 1 }) as u32,
                    true,
                ),
            ),
            DeviceState::Paused => r == Err::<(DeviceState, u32, bool), InputError>(
                InputError::Simulate(
                    "cannot simulate input: the device is paused by the EIS implementation",
                ),
            ),
        },
{
    match state {
        DeviceState::Emulating => Ok((DeviceState::Emulating, sequence, false)),
        DeviceState::Resumed => {
            let next = if sequence == u32::MAX {
                0
            } else {
                sequence + 1
            };
            Ok((DeviceState::Emulating, next, true))
        },
        DeviceState::Paused => Err(
            InputError::Simulate(
                "cannot simulate input: the device is paused by the EIS implementation",
            ),
        ),
    }
}

/// How the libei backend sends a button event
#[derive(Debug, Clone, Copy, PartialEq, Eq, Structural)]
pub enum ButtonAction {
    /// Nothing to send: releasing a scroll button has no effect
    Nothing,
    /// Send the evdev button code (`linux/input-event-codes.h`)
    Code(u32),
    /// Scroll by one click on the axis instead
    Scroll(i32, Axis),
}

/// The way the libei backend sends a button event
pub open spec fn spec_button_action(button: Button, direction: Direction) -> ButtonAction {
    match button {
        Button::Left => ButtonAction::Code(0x110),
        Button::Right => ButtonAction::Code(0x111),
        Button::Middle => ButtonAction::Code(0x112),
        Button::Forward => ButtonAction::Code(0x115),
        Button::Back => ButtonAction::Code(0x116),
        _ => if direction == Direction::Release {
            ButtonAction::Nothing
        } else {
            match button {
                Button::ScrollDown => ButtonAction::Scroll(1, Axis::Vertical),
                Button::ScrollUp => ButtonAction::Scroll((-1int) as i32, Axis::Vertical),
                Button::ScrollRight => ButtonAction::Scroll(1, Axis::Horizontal),
                _ => ButtonAction::Scroll((-1int) as i32, Axis::Horizontal),
            }
        },
    }
}

/// The button that an evdev button code stands for, listed by code (the
/// `BTN_` constants of `linux/input-event-codes.h`)
pub open spec fn evdev_names_button(code: u32, button: Button) -> bool {
    match code {
        0x110 => button == Button::Left,  // BTN_LEFT
        0x111 => button == Button::Right,  // BTN_RIGHT
        0x112 => button == Button::Middle,  // BTN_MIDDLE
        0x115 => button == Button::Forward,  // BTN_FORWARD
        0x116 => button == Button::Back,  // BTN_BACK
        _ => false,
    }
}

/// The buttons that the libei backend sends as evdev codes are sent as the
/// code of their name, so each has its own code; a scroll button is sent as
/// one click along its axis in its direction, and a release of it sends
/// nothing
pub proof fn lemma_button_actions(b1: Button, b2: Button, d1: Direction, d2: Direction)
    ensures
        spec_button_action(b1, d1) matches ButtonAction::Code(c) ==> evdev_names_button(c, b1),
        scroll_motion(b1) is None ==> spec_button_action(b1, d1) is Code,
        spec_button_action(b1, d1) is Code && spec_button_action(b1, d1) == spec_button_action(b2, d2) ==> b1
            == b2,
        spec_button_action(b1, d1) matches ButtonAction::Scroll(n, axis) ==> scroll_motion(b1) == Some(
            (axis, n as int),
        ),
        scroll_motion(b1) is Some ==> (d1 == Direction::Release <==> spec_button_action(b1, d1)
            == ButtonAction::Nothing),
        scroll_motion(b1) is Some && d1 != Direction::Release ==> spec_button_action(b1, d1) is Scroll,
{
}

/// Decides how a button event is sent with libei: the real buttons by their
/// evdev codes, the scroll buttons as a scroll of one click (a release of a
/// scroll button does nothing)
pub fn button_action(button: Button, direction: Direction) -> (r: ButtonAction)
    ensures
        r == spec_button_action(button, direction),
{
    if direction == Direction::Release {
        match button {
            Button::Left | Button::Right | Button::Back | Button::Forward | Button::Middle => {},
            Button::ScrollDown | Button::ScrollUp | Button::ScrollRight | Button::ScrollLeft => {
                return ButtonAction::Nothing;
            },
        }
    }
    match button {
        Button::Left => ButtonAction::Code(0x110),
        Button::Right => ButtonAction::Code(0x111),
        Button::Back => ButtonAction::Code(0x116),
        Button::Forward => ButtonAction::Code(0x115),
        Button::Middle => ButtonAction::Code(0x112),
        Button::ScrollDown => ButtonAction::Scroll(1, Axis::Vertical),
        Button::ScrollUp => ButtonAction::Scroll(-1, Axis::Vertical),
        Button::ScrollRight => ButtonAction::Scroll(1, Axis::Horizontal),
        Button::ScrollLeft => ButtonAction::Scroll(-1, Axis::Horizontal),
    }
}

/// The evdev keycode of a raw X11 keycode, which is 8 more; keycodes below
/// 8 have none
pub fn raw_evdev_keycode(keycode: u16) -> (r: InputResult<u32>)
    ensures
        keycode >= 8 ==> r == Ok::<u32, InputError>((keycode - 8) as u32),
        keycode < 8 ==> r == Err::<u32, InputError>(
            InputError::InvalidInput("the keycode must be at least 8 (X11 keycode offset)"),
        ),
{
    if keycode < 8 {
        return Err(InputError::InvalidInput("the keycode must be at least 8 (X11 keycode offset)"));
    }
    Ok((keycode - 8) as u32)
}

/// Text entered with `ei_text` cannot hold the null character
pub fn check_text(text: &str) -> (r: InputResult<()>)
    ensures
        text@.contains('\0') <==> r is Err,
        r is Err ==> r == Err::<(), InputError>(
            InputError::InvalidInput(
                "the text to enter contained a NULL byte ('\\0'), which is not allowed",
            ),
        ),
{
    if crate::text::contains_nul(text) {
        return Err(
            InputError::InvalidInput(
                "the text to enter contained a NULL byte ('\\0'), which is not allowed",
            ),
        );
    }
    Ok(())
}

/// An absolute motion cannot go to negative coordinates; a relative one
/// can go anywhere
pub fn check_motion(x: i32, y: i32, coordinate: Coordinate) -> (r: InputResult<()>)
    ensures
        (coordinate == Coordinate::Abs && (x < 0 || y < 0)) <==> r is Err,
        r is Err ==> r == Err::<(), InputError>(
            InputError::InvalidInput("the absolute coordinates cannot be negative"),
        ),
{
    if coordinate == Coordinate::Abs && (x < 0 || y < 0) {
        return Err(InputError::InvalidInput("the absolute coordinates cannot be negative"));
    }
    Ok(())
}

/// The scroll amounts on the horizontal and the vertical axis for a scroll
/// of `length` on `axis`
pub fn scroll_amounts(length: i32, axis: Axis) -> (r: (i32, i32))
    ensures
        axis == Axis::Horizontal ==> r == (length, 0i32),
        axis == Axis::Vertical ==> r == (0i32, length),
{
    match axis {
        Axis::Horizontal => (length, 0),
        Axis::Vertical => (0, length),
    }
}

/// The capability masks that a seat announced, by interface name; a later
/// announcement for an interface replaces the earlier one
pub struct SeatCapabilities {
    entries: Vec<(String, u64)>,
}

impl SeatCapabilities {
    /// The announced masks by interface name
    pub closed spec fn masks(&self) -> Map<Seq<char>, u64> {
        Map::new(
            |name: Seq<char>| exists|i: int| 0 <= i < self.entries@.len() && self.entries@[i].0@ == name,
            |name: Seq<char>|
                self.entries@[choose|i: int| 0 <= i < self.entries@.len() && self.entries@[i].0@ == name].1,
        )
    }

    /// No two entries have the same name
    pub closed spec fn wf(&self) -> bool {
        forall|i: int, j: int|
            0 <= i < self.entries@.len() && 0 <= j < self.entries@.len() && i != j ==> self.entries@[i].0@
                != self.entries@[j].0@
    }

    /// No capability announced
    pub fn new() -> (r: Self)
        ensures
            r.wf(),
            r.masks() == Map::<Seq<char>, u64>::empty(),
    {
        let r = SeatCapabilities { entries: Vec::new() };
        assert(r.masks() =~= Map::<Seq<char>, u64>::empty());
        r
    }

    /// The position of the entry with the name, if any
    fn position(&self, name: &str) -> (r: Option<usize>)
        ensures
            r is None ==> forall|i: int| 0 <= i < self.entries@.len() ==> self.entries@[i].0@ != name@,
            r matches Some(k) ==> k < self.entries@.len() && self.entries@[k as int].0@ == name@,
    {
        let mut k: usize = 0;
        while k < self.entries.len()
            invariant
                k <= self.entries@.len(),
                forall|i: int| 0 <= i < k ==> self.entries@[i].0@ != name@,
            decreases self.entries@.len() - k,
        {
            if crate::text::same_text(self.entries[k].0.as_str(), name) {
                return Some(k);
            }
            k = k + 1;
        }
        None
    }

    /// The mask announced for the interface, if any
    pub fn get(&self, name: &str) -> (r: Option<u64>)
        requires
            self.wf(),
        ensures
            r == if self.masks().contains_key(name@) {
                Some(self.masks()[name@])
            } else {
                None::<u64>
            },
    {
        match self.position(name) {
            Some(k) => {
                proof {
                    let c = choose|i: int| 0 <= i < self.entries@.len() && self.entries@[i].0@ == name@;
                    assert(c == k);
                }
                Some(self.entries[k].1)
            },
            None => None,
        }
    }

    /// Record the mask the seat announced for an interface
    pub fn insert(&mut self, name: String, mask: u64)
        requires
            old(self).wf(),
        ensures
            final(self).wf(),
            final(self).masks() == old(self).masks().insert(name@, mask),
    {
        let ghost n = name@;
        match self.position(name.as_str()) {
            Some(k) => {
                let ghost before = self.entries@;
                self.entries.set(k, (name, mask));
                proof {
                    assert forall|q: Seq<char>| #[trigger] self.masks().contains_key(q) == old(self).masks().insert(
                        n,
                        mask,
                    ).contains_key(q) by {
                        if q == n {
                            assert(self.entries@[k as int].0@ == q);
                        }
                        if q != n && old(self).masks().contains_key(q) {
                            let i = choose|i: int| 0 <= i < before.len() && before[i].0@ == q;
                            assert(self.entries@[i].0@ == q);
                        }
                        if self.masks().contains_key(q) && q != n {
                            let i = choose|i: int| 0 <= i < self.entries@.len() && self.entries@[i].0@ == q;
                            assert(before[i].0@ == q);
                        }
                    }
                    assert forall|q: Seq<char>| #[trigger] self.masks().contains_key(q) implies self.masks()[q]
                        == old(self).masks().insert(n, mask)[q] by {
                        let i = choose|i: int| 0 <= i < self.entries@.len() && self.entries@[i].0@ == q;
                        if q == n {
                            assert(i == k);
                        } else {
                            let j = choose|j: int| 0 <= j < before.len() && before[j].0@ == q;
                            assert(j == i);
                        }
                    }
                    assert(self.masks() =~= old(self).masks().insert(n, mask));
                }
            },
            None => {
                let ghost before = self.entries@;
                self.entries.push((name, mask));
                proof {
                    let last = before.len() as int;
                    assert forall|q: Seq<char>| #[trigger] self.masks().contains_key(q) == old(self).masks().insert(
                        n,
                        mask,
                    ).contains_key(q) by {
                        if q == n {
                            assert(self.entries@[last].0@ == q);
                        } else if old(self).masks().contains_key(q) {
                            let i = choose|i: int| 0 <= i < before.len() && before[i].0@ == q;
                            assert(self.entries@[i].0@ == q);
                        }
                    }
                    assert forall|q: Seq<char>| #[trigger] self.masks().contains_key(q) implies self.masks()[q]
                        == old(self).masks().insert(n, mask)[q] by {
                        let i = choose|i: int| 0 <= i < self.entries@.len() && self.entries@[i].0@ == q;
                        if q == n {
                            assert(i == last);
                        } else {
                            let j = choose|j: int| 0 <= j < before.len() && before[j].0@ == q;
                            assert(j == i);
                        }
                    }
                    assert(self.masks() =~= old(self).masks().insert(n, mask));
                }
            },
        }
    }

    /// The mask to bind to the seat with once it announced all capabilities:
    /// the union of the masks of the interfaces that the backend uses
    pub fn bind_mask(&self) -> (r: u64)
        requires
            self.wf(),
        ensures
            r == (if self.masks().contains_key("ei_button"@) { self.masks()["ei_button"@] } else { 0 })
                | (if self.masks().contains_key("ei_keyboard"@) { self.masks()["ei_keyboard"@] } else { 0 })
                | (if self.masks().contains_key("ei_pointer"@) { self.masks()["ei_pointer"@] } else { 0 })
                | (if self.masks().contains_key("ei_pointer_absolute"@) {
                self.masks()["ei_pointer_absolute"@]
            } else {
                0
            }) | (if self.masks().contains_key("ei_scroll"@) { self.masks()["ei_scroll"@] } else { 0 })
                | (if self.masks().contains_key("ei_touchscreen"@) {
                self.masks()["ei_touchscreen"@]
            } else {
                0
            }) | (if self.masks().contains_key("ei_text"@) { self.masks()["ei_text"@] } else { 0 }),
    {
        let b0 = match self.get("ei_button") { Some(b) => b, None => 0 };
        let b1 = match self.get("ei_keyboard") { Some(b) => b, None => 0 };
        let b2 = match self.get("ei_pointer") { Some(b) => b, None => 0 };
        let b3 = match self.get("ei_pointer_absolute") { Some(b) => b, None => 0 };
        let b4 = match self.get("ei_scroll") { Some(b) => b, None => 0 };
        let b5 = match self.get("ei_touchscreen") { Some(b) => b, None => 0 };
        let b6 = match self.get("ei_text") { Some(b) => b, None => 0 };
        b0 | b1 | b2 | b3 | b4 | b5 | b6
    }
}

/// An event from the EIS implementation that changes what the backend keeps
/// of the session. Objects are named by their ids.
#[derive(Debug, Clone, PartialEq, Eq)]
pub enum EiEvent {
    /// The handshake is done and the connection has this serial
    Connection(u32),
    /// The connection ended: the last serial, the reason (the protocol's
    /// number for it) and the explanation, if one was given
    Disconnected(u32, u32, Option<String>),
    /// A request named an invalid object; the last serial
    InvalidObject(u32),
    /// A seat appeared
    SeatAdded(u64),
    /// A seat went away, with the serial
    SeatDestroyed(u64, u32),
    /// A seat announced a device: the seat and the device
    DeviceAdded(u64, u64),
    /// A device went away, with the serial
    DeviceDestroyed(u64, u32),
    /// A device may be used, with the serial
    DeviceResumed(u64, u32),
    /// A device may not be used any more, with the serial
    DevicePaused(u64, u32),
    /// The EIS implementation pings; whether the ping object is alive
    Ping(bool),
    /// A keyboard got a keymap: the keyboard, whether the keymap is an XKB
    /// one, and whether it could be loaded
    KeyboardKeymap(u64, bool, bool),
    /// A keyboard went away, with the serial
    KeyboardDestroyed(u64, u32),
    /// The modifiers of a keyboard changed, with the serial
    KeyboardModifiers(u32),
    /// A device announced an interface: the device, the interface's name
    /// and the interface object
    DeviceInterface(u64, String, u64),
    /// A text interface object went away, with the serial
    TextDestroyed(u64, u32),
}

/// What the backend keeps of a session: the seats, the devices with their
/// states, the keyboards that have a keymap, the devices that have a text
/// interface or a keyboard interface with its object, the reason and
/// explanation of
/// a disconnect, the sequence number of the next emulation and the last
/// serial
pub struct SessionView {
    pub seats: Set<u64>,
    pub devices: Map<u64, DeviceState>,
    pub keyboards: Set<u64>,
    pub texts: Map<u64, u64>,
    pub keyboard_ifaces: Map<u64, u64>,
    pub disconnect: Option<(u32, Option<Seq<char>>)>,
    pub sequence: u32,
    pub last_serial: u32,
}

/// An explanation as text
pub open spec fn explanation_view(explanation: Option<String>) -> Option<Seq<char>> {
    match explanation {
        Some(s) => Some(s@),
        None => None,
    }
}

/// Every device with a text or a keyboard interface is a known device
pub open spec fn session_wf(v: SessionView) -> bool {
    &&& forall|d: u64| #[trigger] v.texts.contains_key(d) ==> v.devices.contains_key(d)
    &&& forall|d: u64| #[trigger] v.keyboard_ifaces.contains_key(d) ==> v.devices.contains_key(d)
}

/// `texts` without the devices whose text interface is `object`
pub open spec fn without_object(texts: Map<u64, u64>, object: u64) -> Map<u64, u64> {
    Map::new(|d: u64| texts.contains_key(d) && texts[d] != object, |d: u64| texts[d])
}

/// The session after an event. Events for seats or devices that are not
/// known change nothing; a new device starts paused; a disconnect forgets
/// every seat, device and keyboard, keeps its reason and explanation and
/// starts the sequence over.
pub open spec fn session_step(v: SessionView, e: EiEvent) -> SessionView {
    match e {
        EiEvent::Connection(serial) => SessionView { last_serial: serial, ..v },
        EiEvent::Disconnected(serial, reason, explanation) => SessionView {
            seats: Set::empty(),
            devices: Map::empty(),
            keyboards: Set::empty(),
            texts: Map::empty(),
            keyboard_ifaces: Map::empty(),
            disconnect: Some((reason, explanation_view(explanation))),
            sequence: 0,
            last_serial: serial,
        },
        EiEvent::InvalidObject(serial) => SessionView { last_serial: serial, ..v },
        EiEvent::SeatAdded(seat) => SessionView { seats: v.seats.insert(seat), ..v },
        EiEvent::SeatDestroyed(seat, serial) => if v.seats.contains(seat) {
            SessionView { seats: v.seats.remove(seat), last_serial: serial, ..v }
        } else {
            v
        },
        EiEvent::DeviceAdded(seat, device) => if v.seats.contains(seat) {
            SessionView { devices: v.devices.insert(device, DeviceState::Paused), ..v }
        } else {
            v
        },
        EiEvent::DeviceDestroyed(device, serial) => if v.devices.contains_key(device) {
            SessionView {
                devices: v.devices.remove(device),
                texts: v.texts.remove(device),
                keyboard_ifaces: v.keyboard_ifaces.remove(device),
                last_serial: serial,
                ..v
            }
        } else {
            v
        },
        EiEvent::DeviceResumed(device, serial) => if v.devices.contains_key(device) {
            SessionView { devices: v.devices.insert(device, DeviceState::Resumed), last_serial: serial, ..v }
        } else {
            v
        },
        EiEvent::DevicePaused(device, serial) => if v.devices.contains_key(device) {
            SessionView { devices: v.devices.insert(device, DeviceState::Paused), last_serial: serial, ..v }
        } else {
            v
        },
        EiEvent::Ping(_) => v,
        EiEvent::KeyboardKeymap(keyboard, xkb, loaded) => if xkb && loaded {
            SessionView { keyboards: v.keyboards.insert(keyboard), ..v }
        } else {
            v
        },
        EiEvent::KeyboardDestroyed(keyboard, serial) => SessionView {
            keyboards: v.keyboards.remove(keyboard),
            last_serial: serial,
            ..v
        },
        EiEvent::KeyboardModifiers(serial) => SessionView { last_serial: serial, ..v },
        EiEvent::DeviceInterface(device, name, object) => if v.devices.contains_key(device) && name@ == "ei_text"@ {
            SessionView { texts: v.texts.insert(device, object), ..v }
        } else if v.devices.contains_key(device) && name@ == "ei_keyboard"@ {
            SessionView { keyboard_ifaces: v.keyboard_ifaces.insert(device, object), ..v }
        } else {
            v
        },
        EiEvent::TextDestroyed(object, serial) => SessionView {
            texts: without_object(v.texts, object),
            last_serial: serial,
            ..v
        },
    }
}

/// What taking an event into account results in: a ping whose object is
/// no longer alive and an XKB keymap that cannot be loaded are errors; a
/// keymap of another type is ignored
pub open spec fn event_outcome(e: EiEvent) -> InputResult<()> {
    match e {
        EiEvent::Ping(alive) => if alive {
            Ok(())
        } else {
            Err(InputError::Simulate("ei::Pingpong is no longer alive"))
        },
        EiEvent::KeyboardKeymap(_, xkb, loaded) => if xkb && !loaded {
            Err(InputError::Simulate("failed to create keymap"))
        } else {
            Ok(())
        },
        _ => Ok(()),
    }
}

/// What making a device emulate does to the session and returns: nothing
/// for an emulating device; for a resumed one, emulation starts with the
/// last serial and the current sequence number, which then goes up by one
/// (wrapping); a paused device is refused
pub open spec fn emulation_start(v: SessionView, device: u64) -> (SessionView, InputResult<Option<(u32, u32)>>) {
    match v.devices[device] {
        DeviceState::Emulating => (v, Ok(None)),
        DeviceState::Resumed => (
            SessionView {
                devices: v.devices.insert(device, DeviceState::Emulating),
                sequence: (if v.sequence == u32::MAX { 0 } else { v.sequence + 1 }) as u32,
                ..v
            },
            Ok(Some((v.last_serial, v.sequence))),
        ),
        DeviceState::Paused => (
            v,
            Err(InputError::Simulate("cannot simulate input: the device is paused by the EIS implementation")),
        ),
    }
}

/// Once the EIS implementation resumes a device, emulation on it starts
/// with the serial of the resume, and only once: asking again sends
/// nothing. A device that was paused again is refused.
pub proof fn lemma_resume_then_emulate(v: SessionView, device: u64, serial: u32)
    requires
        v.devices.contains_key(device),
    ensures
        ({
            let resumed = session_step(v, EiEvent::DeviceResumed(device, serial));
            let (started, r1) = emulation_start(resumed, device);
            let (again, r2) = emulation_start(started, device);
            let paused = session_step(started, EiEvent::DevicePaused(device, serial));
            &&& r1 == Ok::<Option<(u32, u32)>, InputError>(Some((serial, v.sequence)))
            &&& r2 == Ok::<Option<(u32, u32)>, InputError>(None)
            &&& again == started
            &&& emulation_start(paused, device).1 is Err
        }),
{
}

/// Forget the text interface `object` of every device that has it
fn remove_object(texts: &mut HashMap<u64, u64>, object: u64)
    ensures
        final(texts)@ == without_object(old(texts)@, object),
{
    let mut devices: Vec<u64> = Vec::new();
    proof {
        vstd::std_specs::hash::axiom_spec_keys_iter(texts);
    }
    for d in it: texts.keys()
        invariant
            it.seq() == vstd::std_specs::hash::spec_keys_iter(texts).remaining(),
            devices@.len() == it.index(),
            forall|j: int| 0 <= j < devices@.len() ==> devices@[j] == *it.seq()[j],
    {
        devices.push(*d);
    }
    let ghost all = vstd::std_specs::hash::spec_keys_iter(texts).remaining().unref();
    assert(devices@ =~= all);
    let ghost orig = texts@;
    let mut i: usize = 0;
    while i < devices.len()
        invariant
            i <= devices@.len(),
            devices@.no_duplicates(),
            devices@.to_set() == orig.dom(),
            texts@ == Map::new(
                |d: u64| orig.contains_key(d) && (orig[d] != object || !devices@.take(i as int).contains(d)),
                |d: u64| orig[d],
            ),
        decreases devices@.len() - i,
    {
        let d = devices[i];
        assert(devices@.to_set().contains(d));
        let o = *texts.get(&d).unwrap();
        let ghost before = texts@;
        if o == object {
            texts.remove(&d);
        }
        proof {
            assert(devices@.take(i + 1) =~= devices@.take(i as int).push(d));
            assert(!devices@.take(i as int).contains(d)) by {
                if devices@.take(i as int).contains(d) {
                    let k = choose|k: int| 0 <= k < i && devices@[k] == d;
                    assert(devices@[k] == devices@[i as int]);
                }
            }
            assert forall|x: u64| #[trigger] devices@.take(i + 1).contains(x) <==> (devices@.take(i as int).contains(x)
                || x == d) by {
                if devices@.take(i + 1).contains(x) {
                    let k = choose|k: int| 0 <= k < i + 1 && #[trigger] devices@.take(i + 1)[k] == x;
                    if k < i {
                        assert(devices@.take(i as int)[k] == x);
                    }
                }
                if devices@.take(i as int).contains(x) {
                    let k = choose|k: int| 0 <= k < i && #[trigger] devices@.take(i as int)[k] == x;
                    assert(devices@.take(i + 1)[k] == x);
                }
                if x == d {
                    assert(devices@.take(i + 1)[i as int] == x);
                }
            }
            assert(orig.contains_key(d) && before.contains_key(d) && before[d] == orig[d]);
            assert(o == orig[d]);
            assert(texts@ =~= Map::new(
                |x: u64| orig.contains_key(x) && (orig[x] != object || !devices@.take(i + 1).contains(x)),
                |x: u64| orig[x],
            ));
        }
        i = i + 1;
    }
    proof {
        assert(devices@.take(i as int) =~= devices@);
        assert forall|d: u64| orig.contains_key(d) implies devices@.contains(d) by {
            assert(devices@.to_set().contains(d));
        }
        assert(texts@ =~= without_object(orig, object));
    }
}

/// A request that the backend sends to the EIS implementation to enter a key
#[derive(Debug, Clone, Copy, PartialEq, Eq, Structural)]
pub enum EiRequest {
    /// Start emulating on the device, with the last serial and the sequence
    /// number
    StartEmulating(u64, u32, u32),
    /// Enter a keysym with the text interface object; pressed or released
    TextKeysym(u64, u32, bool),
    /// Enter an evdev keycode with the keyboard interface object; pressed
    /// or released
    KeyboardKey(u64, u32, bool),
    /// End a frame of the device, with the last serial
    Frame(u64, u32),
}

/// The interface a key goes through: a device's text interface, which
/// takes keysyms, or its keyboard interface, which takes keycodes
#[derive(Debug, Clone, Copy, PartialEq, Eq, Structural)]
pub enum KeyRoute {
    Text(u64),
    Keyboard(u64),
}

/// The requests that start emulation, if it has to be started
pub open spec fn start_requests(device: u64, start: Option<(u32, u32)>) -> Seq<EiRequest> {
    match start {
        Some((serial, sequence)) => seq![EiRequest::StartEmulating(device, serial, sequence)],
        None => Seq::empty(),
    }
}

/// The key request of one phase
pub open spec fn key_request(text: bool, object: u64, code: u32, pressed: bool) -> EiRequest {
    if text {
        EiRequest::TextKeysym(object, code, pressed)
    } else {
        EiRequest::KeyboardKey(object, code, pressed)
    }
}

/// The requests of the phases of a key event: the press, then the release,
/// each in a frame of its own
pub open spec fn phase_requests(
    device: u64,
    serial: u32,
    text: bool,
    object: u64,
    code: u32,
    direction: Direction,
) -> Seq<EiRequest> {
    let press = if direction == Direction::Press || direction == Direction::Click {
        seq![key_request(text, object, code, true), EiRequest::Frame(device, serial)]
    } else {
        Seq::empty()
    };
    let release = if direction == Direction::Release || direction == Direction::Click {
        seq![key_request(text, object, code, false), EiRequest::Frame(device, serial)]
    } else {
        Seq::empty()
    };
    press + release
}

/// What entering a key code on a device does to the session and returns:
/// emulation is started if it has to be, which fails for a paused device;
/// then the key's phases are sent
pub open spec fn key_event(
    v: SessionView,
    device: u64,
    text: bool,
    object: u64,
    code: u32,
    direction: Direction,
) -> (SessionView, InputResult<Seq<EiRequest>>) {
    let (after, start) = emulation_start(v, device);
    match start {
        Ok(s) => (
            after,
            Ok(start_requests(device, s) + phase_requests(device, v.last_serial, text, object, code, direction)),
        ),
        Err(e) => (after, Err(e)),
    }
}

/// The route a key takes: a device with a text interface if there is one;
/// otherwise a device with a keyboard interface, whose keyboard must have
/// received a keymap
pub open spec fn key_route_ok(v: SessionView, r: InputResult<KeyRoute>) -> bool {
    &&& r matches Ok(KeyRoute::Text(d)) ==> v.texts.contains_key(d)
    &&& r matches Ok(KeyRoute::Keyboard(d)) ==> {
        &&& v.texts.is_empty()
        &&& v.keyboard_ifaces.contains_key(d)
        &&& v.keyboards.contains(v.keyboard_ifaces[d])
    }
    &&& v.texts.is_empty() ==> !(r matches Ok(KeyRoute::Text(_)))
    &&& !v.texts.is_empty() ==> (r matches Ok(KeyRoute::Text(_)))
    &&& r is Err ==> {
        ||| v.keyboard_ifaces.is_empty() && r == Err::<KeyRoute, InputError>(InputError::Simulate(
            "cannot simulate key event: no device implementing the `ei::Keyboard` interface was found on any connected device",
        ))
        ||| (exists|d: u64| #[trigger] v.keyboard_ifaces.contains_key(d) && !v.keyboards.contains(v.keyboard_ifaces[d]))
            && r == Err::<KeyRoute, InputError>(InputError::Simulate(
            "cannot simulate key event: no keymap was received for the keyboard",
        ))
    }
}

/// The requests of a result, as a sequence
pub open spec fn requests_view(r: InputResult<Vec<EiRequest>>) -> InputResult<Seq<EiRequest>> {
    match r {
        Ok(v) => Ok(v@),
        Err(e) => Err(e),
    }
}

/// `kc` is the first keycode, from `min` on, whose first or second level
/// holds the keysym
pub open spec fn first_level_keycode(min: u32, levels: Seq<(Vec<u32>, Vec<u32>)>, keysym: u32, kc: u32) -> bool {
    &&& min <= kc < min + levels.len()
    &&& on_levels(levels, kc - min, keysym)
    &&& forall|j: int| 0 <= j < kc - min ==> !on_levels(levels, j, keysym)
}

/// The error when the key is on no level of the keymap
pub open spec fn unmapped_key_error() -> InputError {
    InputError::InvalidInput(
        "failed to map the requested key to a keycode: the provided key is not mapped in the current xkb keymap",
    )
}

/// The keys of a map, each once
fn map_keys(m: &HashMap<u64, u64>) -> (r: Vec<u64>)
    ensures
        r@.no_duplicates(),
        r@.to_set() == m@.dom(),
{
    let mut out: Vec<u64> = Vec::new();
    proof {
        vstd::std_specs::hash::axiom_spec_keys_iter(m);
    }
    for d in it: m.keys()
        invariant
            it.seq() == vstd::std_specs::hash::spec_keys_iter(m).remaining(),
            out@.len() == it.index(),
            forall|j: int| 0 <= j < out@.len() ==> out@[j] == *it.seq()[j],
    {
        out.push(*d);
    }
    let ghost all = vstd::std_specs::hash::spec_keys_iter(m).remaining().unref();
    assert(out@ =~= all);
    out
}

/// The seats, devices and keyboards of a libei session, the state of each
/// device, the disconnect, the sequence number of the next emulation and
/// the last serial
pub struct EiSession {
    seats: HashSet<u64>,
    devices: HashMap<u64, DeviceState>,
    keyboards: HashSet<u64>,
    texts: HashMap<u64, u64>,
    keyboard_ifaces: HashMap<u64, u64>,
    disconnect: Option<(u32, Option<String>)>,
    sequence: u32,
    last_serial: u32,
}

/// The disconnect as it is kept in the view
pub open spec fn disconnect_view(d: Option<(u32, Option<String>)>) -> Option<(u32, Option<Seq<char>>)> {
    match d {
        Some((reason, explanation)) => Some((reason, explanation_view(explanation))),
        None => None,
    }
}

impl View for EiSession {
    type V = SessionView;

    closed spec fn view(&self) -> SessionView {
        SessionView {
            seats: self.seats@,
            devices: self.devices@,
            keyboards: self.keyboards@,
            texts: self.texts@,
            keyboard_ifaces: self.keyboard_ifaces@,
            disconnect: disconnect_view(self.disconnect),
            sequence: self.sequence,
            last_serial: self.last_serial,
        }
    }
}

impl EiSession {
    /// A session before any event
    pub fn new() -> (r: Self)
        ensures
            r@.seats == Set::<u64>::empty(),
            r@.devices == Map::<u64, DeviceState>::empty(),
            r@.keyboards == Set::<u64>::empty(),
            r@.texts == Map::<u64, u64>::empty(),
            r@.keyboard_ifaces == Map::<u64, u64>::empty(),
            session_wf(r@),
            r@.disconnect == None::<(u32, Option<Seq<char>>)>,
            r@.sequence == 0,
            r@.last_serial == 0,
    {
        EiSession {
            seats: HashSet::new(),
            devices: HashMap::new(),
            keyboards: HashSet::new(),
            texts: HashMap::new(),
            keyboard_ifaces: HashMap::new(),
            disconnect: None,
            sequence: 0,
            last_serial: 0,
        }
    }

    /// Take an event into account
    pub fn handle(&mut self, event: EiEvent) -> (r: InputResult<()>)
        ensures
            final(self)@ == session_step(old(self)@, event),
            r == event_outcome(event),
            session_wf(old(self)@) ==> session_wf(final(self)@),
    {
        let ghost e = event;
        let mut r: InputResult<()> = Ok(());
        match event {
            EiEvent::Connection(serial) | EiEvent::InvalidObject(serial) | EiEvent::KeyboardModifiers(serial) => {
                self.last_serial = serial;
            },
            EiEvent::DeviceInterface(device, name, object) => {
                if self.devices.contains_key(&device) {
                    if same_text(name.as_str(), "ei_text") {
                        self.texts.insert(device, object);
                    } else if same_text(name.as_str(), "ei_keyboard") {
                        self.keyboard_ifaces.insert(device, object);
                    }
                }
            },
            EiEvent::TextDestroyed(object, serial) => {
                self.last_serial = serial;
                remove_object(&mut self.texts, object);
            },
            EiEvent::Disconnected(serial, reason, explanation) => {
                self.seats.clear();
                self.devices.clear();
                self.keyboards.clear();
                self.texts.clear();
                self.keyboard_ifaces.clear();
                self.disconnect = Some((reason, explanation));
                self.sequence = 0;
                self.last_serial = serial;
            },
            EiEvent::Ping(alive) => {
                if !alive {
                    r = Err(InputError::Simulate("ei::Pingpong is no longer alive"));
                }
            },
            EiEvent::KeyboardKeymap(keyboard, xkb, loaded) => {
                if xkb {
                    if loaded {
                        self.keyboards.insert(keyboard);
                    } else {
                        r = Err(InputError::Simulate("failed to create keymap"));
                    }
                }
            },
            EiEvent::KeyboardDestroyed(keyboard, serial) => {
                self.last_serial = serial;
                self.keyboards.remove(&keyboard);
            },
            EiEvent::SeatAdded(seat) => {
                self.seats.insert(seat);
            },
            EiEvent::SeatDestroyed(seat, serial) => {
                if self.seats.contains(&seat) {
                    self.last_serial = serial;
                    self.seats.remove(&seat);
                }
            },
            EiEvent::DeviceAdded(seat, device) => {
                if self.seats.contains(&seat) {
                    self.devices.insert(device, DeviceState::Paused);
                }
            },
            EiEvent::DeviceDestroyed(device, serial) => {
                if self.devices.contains_key(&device) {
                    self.last_serial = serial;
                    self.devices.remove(&device);
                    self.texts.remove(&device);
                    self.keyboard_ifaces.remove(&device);
                }
            },
            EiEvent::DeviceResumed(device, serial) => {
                if self.devices.contains_key(&device) {
                    self.last_serial = serial;
                    self.devices.insert(device, DeviceState::Resumed);
                }
            },
            EiEvent::DevicePaused(device, serial) => {
                if self.devices.contains_key(&device) {
                    self.last_serial = serial;
                    self.devices.insert(device, DeviceState::Paused);
                }
            },
        }
        proof {
            assert(self@.seats =~= session_step(old(self)@, e).seats);
            assert(self@.devices =~= session_step(old(self)@, e).devices);
            assert(self@.keyboards =~= session_step(old(self)@, e).keyboards);
            assert(self@.texts =~= session_step(old(self)@, e).texts);
            assert(self@.keyboard_ifaces =~= session_step(old(self)@, e).keyboard_ifaces);
        }
        r
    }

    /// Whether the keyboard has a keymap
    pub fn has_keyboard(&self, keyboard: u64) -> (r: bool)
        ensures
            r == self@.keyboards.contains(keyboard),
    {
        self.keyboards.contains(&keyboard)
    }

    /// The text interface object of the device, if it has one
    pub fn text_interface(&self, device: u64) -> (r: Option<u64>)
        ensures
            r == (if self@.texts.contains_key(device) {
                Some(self@.texts[device])
            } else {
                None::<u64>
            }),
    {
        match self.texts.get(&device) {
            Some(o) => Some(*o),
            None => None,
        }
    }

    /// The reason and explanation of the disconnect, if the connection
    /// ended
    pub fn disconnect(&self) -> (r: Option<(u32, Option<String>)>)
        ensures
            disconnect_view(r) == self@.disconnect,
    {
        match &self.disconnect {
            Some((reason, explanation)) => Some((*reason, explanation.clone())),
            None => None,
        }
    }

    /// The last serial the EIS implementation sent
    pub fn last_serial(&self) -> (r: u32)
        ensures
            r == self@.last_serial,
    {
        self.last_serial
    }

    /// The route a key takes, as `key_route_ok` says. Which device is taken
    /// when several qualify is left open: it depends on the order in which
    /// the devices are stored.
    pub fn key_route(&self) -> (r: InputResult<KeyRoute>)
        ensures
            key_route_ok(self@, r),
    {
        let texts = map_keys(&self.texts);
        if texts.len() > 0 {
            proof {
                assert(texts@.to_set().contains(texts@[0]));
                assert(self@.texts.dom().contains(texts@[0]));
            }
            return Ok(KeyRoute::Text(texts[0]));
        }
        proof {
            assert(texts@ =~= Seq::<u64>::empty());
            assert(texts@.to_set() =~= Set::<u64>::empty());
            assert(self@.texts.dom().is_empty());
        }
        let keyboards = map_keys(&self.keyboard_ifaces);
        if keyboards.len() == 0 {
            proof {
                assert(keyboards@ =~= Seq::<u64>::empty());
                assert(keyboards@.to_set() =~= Set::<u64>::empty());
            }
            return Err(
                InputError::Simulate(
                    "cannot simulate key event: no device implementing the `ei::Keyboard` interface was found on any connected device",
                ),
            );
        }
        let device = keyboards[0];
        proof {
            assert(keyboards@.to_set().contains(device));
        }
        let keyboard = *self.keyboard_ifaces.get(&device).unwrap();
        if !self.keyboards.contains(&keyboard) {
            return Err(InputError::Simulate("cannot simulate key event: no keymap was received for the keyboard"));
        }
        Ok(KeyRoute::Keyboard(device))
    }

    /// Send a key code through an interface object of a device: start
    /// emulating if needed, then the key's phases
    fn key_requests(&mut self, device: u64, text: bool, object: u64, code: u32, direction: Direction) -> (r:
        InputResult<Vec<EiRequest>>)
        requires
            old(self)@.devices.contains_key(device),
        ensures
            (final(self)@, requests_view(r)) == key_event(old(self)@, device, text, object, code, direction),
    {
        let serial = self.last_serial;
        let start = self.start_emulating(device);
        let mut out: Vec<EiRequest> = Vec::new();
        match start {
            Err(e) => {
                return Err(e);
            },
            Ok(Some((s, sequence))) => {
                out.push(EiRequest::StartEmulating(device, s, sequence));
            },
            Ok(None) => {},
        }
        let ghost started = out@;
        if direction == Direction::Press || direction == Direction::Click {
            if text {
                out.push(EiRequest::TextKeysym(object, code, true));
            } else {
                out.push(EiRequest::KeyboardKey(object, code, true));
            }
            out.push(EiRequest::Frame(device, serial));
        }
        if direction == Direction::Release || direction == Direction::Click {
            if text {
                out.push(EiRequest::TextKeysym(object, code, false));
            } else {
                out.push(EiRequest::KeyboardKey(object, code, false));
            }
            out.push(EiRequest::Frame(device, serial));
        }
        assert(out@ =~= started + phase_requests(device, serial, text, object, code, direction));
        Ok(out)
    }

    /// Enter a key with the device's text interface, which takes the key's
    /// keysym
    pub fn text_key(&mut self, device: u64, key: Key, direction: Direction) -> (r: InputResult<Vec<EiRequest>>)
        requires
            old(self)@.devices.contains_key(device),
            old(self)@.texts.contains_key(device),
        ensures
            (final(self)@, requests_view(r)) == key_event(
                old(self)@,
                device,
                true,
                old(self)@.texts[device],
                spec_key_to_keysym(key),
                direction,
            ),
    {
        let object = *self.texts.get(&device).unwrap();
        let keysym = key_to_keysym(key);
        self.key_requests(device, true, object, keysym, direction)
    }

    /// Enter an X11 keycode with the device's keyboard interface, which
    /// takes evdev keycodes: 8 less
    pub fn keyboard_key(&mut self, device: u64, keycode: u32, direction: Direction) -> (r: InputResult<
        Vec<EiRequest>,
    >)
        requires
            old(self)@.devices.contains_key(device),
            old(self)@.keyboard_ifaces.contains_key(device),
            keycode >= 8,
        ensures
            (final(self)@, requests_view(r)) == key_event(
                old(self)@,
                device,
                false,
                old(self)@.keyboard_ifaces[device],
                (keycode - 8) as u32,
                direction,
            ),
    {
        let object = *self.keyboard_ifaces.get(&device).unwrap();
        self.key_requests(device, false, object, keycode - 8, direction)
    }

    /// Enter a key, in the order of the libei backend: find the route (a
    /// device with a text interface first, else one with a keyboard
    /// interface whose keyboard has a keymap); on a keyboard, find the key's
    /// keycode on the levels of that keymap (`levels` lists the keysyms of
    /// the first two levels of each keycode from `min` on); start emulating
    /// if needed; then send the press and the release, each in a frame.
    /// Returns the route and the requests. A failure changes nothing.
    pub fn key_step(
        &mut self,
        key: Key,
        direction: Direction,
        min: u32,
        levels: &Vec<(Vec<u32>, Vec<u32>)>,
    ) -> (r: InputResult<(KeyRoute, Vec<EiRequest>)>)
        requires
            session_wf(old(self)@),
            8 <= min,
            min + levels@.len() <= u32::MAX + 1,
        ensures
            r matches Ok((route, reqs)) ==> {
                &&& key_route_ok(old(self)@, Ok(route))
                &&& route matches KeyRoute::Text(d) ==> (final(self)@, Ok::<Seq<EiRequest>, InputError>(reqs@))
                    == key_event(old(self)@, d, true, old(self)@.texts[d], spec_key_to_keysym(key), direction)
                &&& route matches KeyRoute::Keyboard(d) ==> exists|kc: u32|
                    #[trigger] first_level_keycode(min, levels@, spec_key_to_keysym(key), kc) && (
                    final(self)@,
                    Ok::<Seq<EiRequest>, InputError>(reqs@),
                ) == key_event(old(self)@, d, false, old(self)@.keyboard_ifaces[d], (kc - 8) as u32, direction)
            },
            r is Err ==> final(self)@ == old(self)@,
            r matches Err(e) ==> {
                ||| key_route_ok(old(self)@, Err(e))
                ||| old(self)@.texts.is_empty() && e == unmapped_key_error() && forall|j: int|
                    0 <= j < levels@.len() ==> !on_levels(levels@, j, spec_key_to_keysym(key))
                ||| e == InputError::Simulate("cannot simulate input: the device is paused by the EIS implementation")
            },
            !old(self)@.texts.is_empty() ==> r is Ok || r == Err::<(KeyRoute, Vec<EiRequest>), InputError>(
                InputError::Simulate("cannot simulate input: the device is paused by the EIS implementation"),
            ),
    {
        let route = self.key_route();
        match route {
            Err(e) => Err(e),
            Ok(KeyRoute::Text(d)) => {
                match self.text_key(d, key, direction) {
                    Ok(reqs) => Ok((KeyRoute::Text(d), reqs)),
                    Err(e) => Err(e),
                }
            },
            Ok(KeyRoute::Keyboard(d)) => {
                let kc = match level_keycode(min, levels, key) {
                    Ok(kc) => kc,
                    Err(_) => {
                        return Err(
                            InputError::InvalidInput(
                                "failed to map the requested key to a keycode: the provided key is not mapped in the current xkb keymap",
                            ),
                        );
                    },
                };
                assert(first_level_keycode(min, levels@, spec_key_to_keysym(key), kc));
                match self.keyboard_key(d, kc, direction) {
                    Ok(reqs) => Ok((KeyRoute::Keyboard(d), reqs)),
                    Err(e) => Err(e),
                }
            },
        }
    }

    /// Make sure the device emulates before events are sent to it. Returns
    /// the last serial and the sequence number to start emulating with if
    /// it has to be started, and fails for a paused device.
    pub fn start_emulating(&mut self, device: u64) -> (r: InputResult<Option<(u32, u32)>>)
        requires
            old(self)@.devices.contains_key(device),
        ensures
            (final(self)@, r) == emulation_start(old(self)@, device),
    {
        let state = match self.devices.get(&device) {
            Some(s) => *s,
            None => DeviceState::Paused,
        };
        match ensure_emulating(state, self.sequence) {
            Ok((new_state, next, start)) => {
                if start {
                    let serial = self.last_serial;
                    let sequence = self.sequence;
                    self.sequence = next;
                    self.devices.insert(device, new_state);
                    proof {
                        assert(self@.devices =~= old(self)@.devices.insert(device, DeviceState::Emulating));
                    }
                    Ok(Some((serial, sequence)))
                } else {
                    Ok(None)
                }
            },
            Err(e) => Err(e),
        }
    }
}

} // verus!
