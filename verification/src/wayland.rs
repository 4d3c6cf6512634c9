//! What the Wayland backend keeps track of while it talks to the
//! compositor: which globals were announced, which protocol objects can be
//! created from them, the outputs and their sizes, and how keys, buttons and
//! motions turn into protocol requests.

use vstd::prelude::*;

use crate::input::{Direction, InputError, InputResult, NewConError};
use crate::text::same_text;

verus! {

/// The interfaces of the globals that the backend binds
#[derive(Debug, Clone, Copy, PartialEq, Eq, Hash, Structural)]
pub enum Interface {
    Seat,
    Output,
    InputMethodManager,
    VirtualKeyboardManager,
    VirtualPointerManager,
    Other,
}

/// The interface that a global's interface name stands for
pub open spec fn spec_interface_kind(name: Seq<char>) -> Interface {
    if name == "wl_seat"@ {
        Interface::Seat
    } else if name == "wl_output"@ {
        Interface::Output
    } else if name == "zwp_input_method_manager_v2"@ {
        Interface::InputMethodManager
    } else if name == "zwp_virtual_keyboard_manager_v1"@ {
        Interface::VirtualKeyboardManager
    } else if name == "zwlr_virtual_pointer_manager_v1"@ {
        Interface::VirtualPointerManager
    } else {
        Interface::Other
    }
}

/// The protocol name of each interface the backend uses
pub open spec fn interface_name(i: Interface) -> Option<Seq<char>> {
    match i {
        Interface::Seat => Some("wl_seat"@),
        Interface::Output => Some("wl_output"@),
        Interface::InputMethodManager => Some("zwp_input_method_manager_v2"@),
        Interface::VirtualKeyboardManager => Some("zwp_virtual_keyboard_manager_v1"@),
        Interface::VirtualPointerManager => Some("zwlr_virtual_pointer_manager_v1"@),
        Interface::Other => None,
    }
}

/// A global's interface name is read as the interface of that name, and as
/// no interface the backend uses when it names none of them
pub proof fn lemma_interface_names(name: Seq<char>, i: Interface)
    ensures
        i != Interface::Other ==> (spec_interface_kind(name) == i <==> interface_name(i) == Some(name)),
{
    reveal_strlit("wl_seat");
    reveal_strlit("wl_output");
    reveal_strlit("zwp_input_method_manager_v2");
    reveal_strlit("zwp_virtual_keyboard_manager_v1");
    reveal_strlit("zwlr_virtual_pointer_manager_v1");
    assert("wl_seat"@ =~= seq!['w', 'l', '_', 's', 'e', 'a', 't']);
    assert("wl_output"@ =~= seq!['w', 'l', '_', 'o', 'u', 't', 'p', 'u', 't']);
    assert("zwp_input_method_manager_v2"@ =~= seq!['z', 'w', 'p', '_', 'i', 'n', 'p', 'u', 't', '_', 'm', 'e', 't', 'h', 'o', 'd', '_', 'm', 'a', 'n', 'a', 'g', 'e', 'r', '_', 'v', '2']);
    assert("zwp_virtual_keyboard_manager_v1"@ =~= seq!['z', 'w', 'p', '_', 'v', 'i', 'r', 't', 'u', 'a', 'l', '_', 'k', 'e', 'y', 'b', 'o', 'a', 'r', 'd', '_', 'm', 'a', 'n', 'a', 'g', 'e', 'r', '_', 'v', '1']);
    assert("zwlr_virtual_pointer_manager_v1"@ =~= seq!['z', 'w', 'l', 'r', '_', 'v', 'i', 'r', 't', 'u', 'a', 'l', '_', 'p', 'o', 'i', 'n', 't', 'e', 'r', '_', 'm', 'a', 'n', 'a', 'g', 'e', 'r', '_', 'v', '1']);
}

/// The interface that a global's interface name stands for
pub fn interface_kind(name: &str) -> (r: Interface)
    ensures
        r == spec_interface_kind(name@),
{
    if same_text(name, "wl_seat") {
        Interface::Seat
    } else if same_text(name, "wl_output") {
        Interface::Output
    } else if same_text(name, "zwp_input_method_manager_v2") {
        Interface::InputMethodManager
    } else if same_text(name, "zwp_virtual_keyboard_manager_v1") {
        Interface::VirtualKeyboardManager
    } else if same_text(name, "zwlr_virtual_pointer_manager_v1") {
        Interface::VirtualPointerManager
    } else {
        Interface::Other
    }
}

/// Which protocol objects exist
#[derive(Debug, Clone, Copy, PartialEq, Eq, Hash, Structural)]
pub struct Objects {
    pub seat: bool,
    pub im_manager: bool,
    pub keyboard_manager: bool,
    pub pointer_manager: bool,
    pub input_method: bool,
    pub virtual_keyboard: bool,
    pub virtual_pointer: bool,
}

/// What to do when a global is announced: bind it, and create the objects
/// that need both the seat and a manager once both are there
#[derive(Debug, Clone, Copy, PartialEq, Eq, Hash, Structural)]
pub struct GlobalActions {
    pub bind: bool,
    pub create_input_method: bool,
    pub create_virtual_keyboard: bool,
    pub create_virtual_pointer: bool,
}

/// The actions for an announced global
pub open spec fn actions_for_global(o: Objects, i: Interface) -> GlobalActions {
    match i {
        Interface::Seat => GlobalActions {
            bind: true,
            create_input_method: o.im_manager && !o.input_method,
            create_virtual_keyboard: o.keyboard_manager && !o.virtual_keyboard,
            create_virtual_pointer: o.pointer_manager && !o.virtual_pointer,
        },
        Interface::Output => GlobalActions {
            bind: true,
            create_input_method: false,
            create_virtual_keyboard: false,
            create_virtual_pointer: false,
        },
        Interface::InputMethodManager => GlobalActions {
            bind: true,
            create_input_method: o.seat && !o.input_method,
            create_virtual_keyboard: false,
            create_virtual_pointer: false,
        },
        Interface::VirtualKeyboardManager => GlobalActions {
            bind: true,
            create_input_method: false,
            create_virtual_keyboard: o.seat && !o.virtual_keyboard,
            create_virtual_pointer: false,
        },
        Interface::VirtualPointerManager => GlobalActions {
            bind: true,
            create_input_method: false,
            create_virtual_keyboard: false,
            create_virtual_pointer: o.seat && !o.virtual_pointer,
        },
        Interface::Other => GlobalActions {
            bind: false,
            create_input_method: false,
            create_virtual_keyboard: false,
            create_virtual_pointer: false,
        },
    }
}

/// The objects after a global was announced and the actions were taken
pub open spec fn objects_after_global(o: Objects, i: Interface) -> Objects {
    let a = actions_for_global(o, i);
    Objects {
        seat: o.seat || i == Interface::Seat,
        im_manager: o.im_manager || i == Interface::InputMethodManager,
        keyboard_manager: o.keyboard_manager || i == Interface::VirtualKeyboardManager,
        pointer_manager: o.pointer_manager || i == Interface::VirtualPointerManager,
        input_method: o.input_method || a.create_input_method,
        virtual_keyboard: o.virtual_keyboard || a.create_virtual_keyboard,
        virtual_pointer: o.virtual_pointer || a.create_virtual_pointer,
    }
}

/// The objects after a global of the interface was removed. Removing the
/// seat drops the seat and the input method and keyboard managers.
pub open spec fn objects_after_remove(o: Objects, i: Interface) -> Objects {
    match i {
        Interface::Seat => Objects { seat: false, im_manager: false, keyboard_manager: false, ..o },
        Interface::InputMethodManager => Objects { im_manager: false, ..o },
        Interface::VirtualKeyboardManager => Objects { keyboard_manager: false, ..o },
        Interface::VirtualPointerManager => Objects { pointer_manager: false, ..o },
        _ => o,
    }
}

/// The size of an output and whether it is rotated by a quarter turn
#[derive(Debug, Clone, Copy, PartialEq, Eq, Hash, Structural)]
pub struct OutputInfo {
    pub width: i32,
    pub height: i32,
    pub transform: bool,
}

impl Default for OutputInfo {
    fn default() -> (r: Self)
        ensures
            r == (OutputInfo { width: 0, height: 0, transform: false }),
    {
        OutputInfo { width: 0, height: 0, transform: false }
    }
}

/// `idx` is the first global with the name
pub open spec fn first_named(globals: Seq<(Interface, u32, u32)>, name: u32, idx: int) -> bool {
    &&& 0 <= idx < globals.len()
    &&& globals[idx].1 == name
    &&& forall|j: int| 0 <= j < idx ==> globals[j].1 != name
}

/// `outputs` without those whose object id is `id`
pub open spec fn outputs_without(outputs: Seq<(u32, OutputInfo)>, id: u32) -> Seq<(u32, OutputInfo)> {
    outputs.filter(|o: (u32, OutputInfo)| o.0 != id)
}

/// `outputs` with the first output whose object id is `id` changed by `f`
pub open spec fn update_first_output(
    outputs: Seq<(u32, OutputInfo)>,
    id: u32,
    f: spec_fn(OutputInfo) -> OutputInfo,
) -> Seq<(u32, OutputInfo)> {
    if exists|k: int| 0 <= k < outputs.len() && outputs[k].0 == id {
        let k = choose|k: int|
            0 <= k < outputs.len() && outputs[k].0 == id && forall|j: int|
                0 <= j < k ==> outputs[j].0 != id;
        outputs.update(k, (id, f(outputs[k].1)))
    } else {
        outputs
    }
}

/// What the backend knows of the compositor's globals and of the objects it
/// created from them
pub struct Registry {
    pub objects: Objects,
    /// The announced globals: interface, name and version
    pub globals: Vec<(Interface, u32, u32)>,
    /// The bound outputs: object id and what is known of them
    pub outputs: Vec<(u32, OutputInfo)>,
    /// The serial of the input method, counting its `done` events
    pub im_serial: u32,
    pub seat_keyboard: bool,
    pub seat_pointer: bool,
}

impl Registry {
    /// Nothing announced yet
    pub fn new() -> (r: Self)
        ensures
            r.objects == (Objects {
                seat: false,
                im_manager: false,
                keyboard_manager: false,
                pointer_manager: false,
                input_method: false,
                virtual_keyboard: false,
                virtual_pointer: false,
            }),
            r.globals@ == Seq::<(Interface, u32, u32)>::empty(),
            r.outputs@ == Seq::<(u32, OutputInfo)>::empty(),
            r.im_serial == 0,
            !r.seat_keyboard,
            !r.seat_pointer,
    {
        Registry {
            objects: Objects {
                seat: false,
                im_manager: false,
                keyboard_manager: false,
                pointer_manager: false,
                input_method: false,
                virtual_keyboard: false,
                virtual_pointer: false,
            },
            globals: Vec::new(),
            outputs: Vec::new(),
            im_serial: 0,
            seat_keyboard: false,
            seat_pointer: false,
        }
    }

    /// A global was announced: it is recorded, and the returned actions say
    /// what to bind and create
    pub fn global_announced(&mut self, interface: Interface, name: u32, version: u32) -> (r:
        GlobalActions)
        ensures
            r == actions_for_global(old(self).objects, interface),
            final(self).objects == objects_after_global(old(self).objects, interface),
            final(self).globals@ == old(self).globals@.push((interface, name, version)),
            final(self).outputs@ == old(self).outputs@,
            final(self).im_serial == old(self).im_serial,
            final(self).seat_keyboard == old(self).seat_keyboard,
            final(self).seat_pointer == old(self).seat_pointer,
    {
        let o = self.objects;
        let actions = match interface {
            Interface::Seat => GlobalActions {
                bind: true,
                create_input_method: o.im_manager && !o.input_method,
                create_virtual_keyboard: o.keyboard_manager && !o.virtual_keyboard,
                create_virtual_pointer: o.pointer_manager && !o.virtual_pointer,
            },
            Interface::Output => GlobalActions {
                bind: true,
                create_input_method: false,
                create_virtual_keyboard: false,
                create_virtual_pointer: false,
            },
            Interface::InputMethodManager => GlobalActions {
                bind: true,
                create_input_method: o.seat && !o.input_method,
                create_virtual_keyboard: false,
                create_virtual_pointer: false,
            },
            Interface::VirtualKeyboardManager => GlobalActions {
                bind: true,
                create_input_method: false,
                create_virtual_keyboard: o.seat && !o.virtual_keyboard,
                create_virtual_pointer: false,
            },
            Interface::VirtualPointerManager => GlobalActions {
                bind: true,
                create_input_method: false,
                create_virtual_keyboard: false,
                create_virtual_pointer: o.seat && !o.virtual_pointer,
            },
            Interface::Other => GlobalActions {
                bind: false,
                create_input_method: false,
                create_virtual_keyboard: false,
                create_virtual_pointer: false,
            },
        };
        self.objects = Objects {
            seat: o.seat || interface == Interface::Seat,
            im_manager: o.im_manager || interface == Interface::InputMethodManager,
            keyboard_manager: o.keyboard_manager || interface == Interface::VirtualKeyboardManager,
            pointer_manager: o.pointer_manager || interface == Interface::VirtualPointerManager,
            input_method: o.input_method || actions.create_input_method,
            virtual_keyboard: o.virtual_keyboard || actions.create_virtual_keyboard,
            virtual_pointer: o.virtual_pointer || actions.create_virtual_pointer,
        };
        self.globals.push((interface, name, version));
        actions
    }

    /// An output was bound; nothing is known of its size yet
    pub fn output_bound(&mut self, id: u32)
        ensures
            final(self).outputs@ == old(self).outputs@.push(
                (id, OutputInfo { width: 0, height: 0, transform: false }),
            ),
            final(self).objects == old(self).objects,
            final(self).globals@ == old(self).globals@,
            final(self).im_serial == old(self).im_serial,
            final(self).seat_keyboard == old(self).seat_keyboard,
            final(self).seat_pointer == old(self).seat_pointer,
    {
        self.outputs.push((id, OutputInfo::default()));
    }

    /// A global was removed. The first global with the name is forgotten
    /// and so are the objects of its interface; for an output, every bound
    /// output whose object id equals the name is dropped. Returns the
    /// interface, or `None` when no global has the name.
    pub fn global_removed(&mut self, name: u32) -> (r: Option<Interface>)
        ensures
            r is None <==> forall|j: int|
                0 <= j < old(self).globals@.len() ==> (#[trigger] old(self).globals@[j]).1 != name,
            r is None ==> {
                &&& final(self).objects == old(self).objects
                &&& final(self).globals@ == old(self).globals@
                &&& final(self).outputs@ == old(self).outputs@
            },
            r matches Some(i) ==> {
                let idx = choose|idx: int| first_named(old(self).globals@, name, idx);
                &&& first_named(old(self).globals@, name, idx)
                &&& i == old(self).globals@[idx].0
                &&& final(self).objects == objects_after_remove(old(self).objects, i)
                &&& final(self).globals@ == old(self).globals@.remove(idx)
                &&& final(self).outputs@ == if i == Interface::Output {
                    outputs_without(old(self).outputs@, name)
                } else {
                    old(self).outputs@
                }
            },
            final(self).im_serial == old(self).im_serial,
            final(self).seat_keyboard == old(self).seat_keyboard,
            final(self).seat_pointer == old(self).seat_pointer,
    {
        let mut i: usize = 0;
        while i < self.globals.len() && self.globals[i].1 != name
            invariant
                i <= self.globals@.len(),
                forall|j: int| 0 <= j < i ==> (#[trigger] self.globals@[j]).1 != name,
            decreases self.globals@.len() - i,
        {
            i = i + 1;
        }
        if i == self.globals.len() {
            return None;
        }
        let kind = self.globals[i].0;
        let ghost g = self.globals@;
        proof {
            assert(first_named(g, name, i as int));
            let c = choose|idx: int| first_named(g, name, idx);
            if c < i {
                assert(g[c].1 != name);
            } else if c > i {
                assert(g[i as int].1 != name);
            }
        }
        let o = self.objects;
        match kind {
            Interface::Seat => {
                self.objects = Objects { seat: false, im_manager: false, keyboard_manager: false, ..o };
            },
            Interface::Output => {
                let mut kept: Vec<(u32, OutputInfo)> = Vec::new();
                let mut k: usize = 0;
                while k < self.outputs.len()
                    invariant
                        k <= self.outputs@.len(),
                        kept@ == outputs_without(self.outputs@.take(k as int), name),
                    decreases self.outputs@.len() - k,
                {
                    proof {
                        reveal(Seq::filter);
                        assert(self.outputs@.take(k + 1).drop_last() =~= self.outputs@.take(k as int));
                    }
                    if self.outputs[k].0 != name {
                        kept.push(self.outputs[k]);
                    }
                    k = k + 1;
                }
                assert(self.outputs@.take(k as int) =~= self.outputs@);
                self.outputs = kept;
            },
            Interface::InputMethodManager => {
                self.objects = Objects { im_manager: false, ..o };
            },
            Interface::VirtualKeyboardManager => {
                self.objects = Objects { keyboard_manager: false, ..o };
            },
            Interface::VirtualPointerManager => {
                self.objects = Objects { pointer_manager: false, ..o };
            },
            Interface::Other => {},
        }
        self.globals.remove(i);
        Some(kind)
    }

    /// The position of the first output with the object id, if any
    fn output_index(&self, id: u32) -> (r: Option<usize>)
        ensures
            r is None ==> forall|k: int| 0 <= k < self.outputs@.len() ==> self.outputs@[k].0 != id,
            r matches Some(k) ==> k < self.outputs@.len() && self.outputs@[k as int].0 == id && forall|
                j: int,
            |
                0 <= j < k ==> self.outputs@[j].0 != id,
    {
        let mut k: usize = 0;
        while k < self.outputs.len()
            invariant
                k <= self.outputs@.len(),
                forall|j: int| 0 <= j < k ==> self.outputs@[j].0 != id,
            decreases self.outputs@.len() - k,
        {
            if self.outputs[k].0 == id {
                return Some(k);
            }
            k = k + 1;
        }
        None
    }

    /// The geometry of an output was announced: an output turned by a
    /// quarter turn has its width and height swapped
    pub fn output_geometry(&mut self, id: u32, quarter_turn: bool)
        ensures
            final(self).outputs@ == if quarter_turn {
                update_first_output(
                    old(self).outputs@,
                    id,
                    |o: OutputInfo| OutputInfo { transform: true, ..o },
                )
            } else {
                old(self).outputs@
            },
            final(self).objects == old(self).objects,
            final(self).globals@ == old(self).globals@,
            final(self).im_serial == old(self).im_serial,
            final(self).seat_keyboard == old(self).seat_keyboard,
            final(self).seat_pointer == old(self).seat_pointer,
    {
        if !quarter_turn {
            return;
        }
        match self.output_index(id) {
            Some(k) => {
                let ghost before = self.outputs@;
                let (oid, info) = self.outputs[k];
                self.outputs.set(k, (oid, OutputInfo { transform: true, ..info }));
                proof {
                    let c = choose|c: int|
                        0 <= c < before.len() && before[c].0 == id && forall|j: int|
                            0 <= j < c ==> before[j].0 != id;
                    assert(0 <= k < before.len() && before[k as int].0 == id);
                    if c < k {
                        assert(before[c].0 != id);
                    } else if c > k {
                        assert(before[k as int].0 != id);
                    }
                }
            },
            None => {},
        }
    }

    /// A mode of an output was announced: the current mode gives its size
    pub fn output_mode(&mut self, id: u32, current: bool, width: i32, height: i32)
        ensures
            final(self).outputs@ == if current {
                update_first_output(
                    old(self).outputs@,
                    id,
                    |o: OutputInfo| OutputInfo { width: width, height: height, ..o },
                )
            } else {
                old(self).outputs@
            },
            final(self).objects == old(self).objects,
            final(self).globals@ == old(self).globals@,
            final(self).im_serial == old(self).im_serial,
            final(self).seat_keyboard == old(self).seat_keyboard,
            final(self).seat_pointer == old(self).seat_pointer,
    {
        if !current {
            return;
        }
        match self.output_index(id) {
            Some(k) => {
                let ghost before = self.outputs@;
                let (oid, info) = self.outputs[k];
                self.outputs.set(k, (oid, OutputInfo { width, height, ..info }));
                proof {
                    let c = choose|c: int|
                        0 <= c < before.len() && before[c].0 == id && forall|j: int|
                            0 <= j < c ==> before[j].0 != id;
                    assert(0 <= k < before.len() && before[k as int].0 == id);
                    if c < k {
                        assert(before[c].0 != id);
                    } else if c > k {
                        assert(before[k as int].0 != id);
                    }
                }
            },
            None => {},
        }
    }

    /// The input method is done with a batch of events: its serial goes up
    /// by one, wrapping around
    pub fn input_method_done(&mut self)
        ensures
            final(self).im_serial == (if old(self).im_serial == u32::MAX {
                0
            } else {
                old(self).im_serial + 1
            }),
            final(self).objects == old(self).objects,
            final(self).globals@ == old(self).globals@,
            final(self).outputs@ == old(self).outputs@,
            final(self).seat_keyboard == old(self).seat_keyboard,
            final(self).seat_pointer == old(self).seat_pointer,
    {
        self.im_serial = if self.im_serial == u32::MAX {
            0
        } else {
            self.im_serial + 1
        };
    }

    /// The seat announced its capabilities: a keyboard and a pointer are
    /// requested once each, for the capabilities it has. Returns whether to
    /// get the keyboard and whether to get the pointer.
    pub fn seat_capabilities(&mut self, keyboard: bool, pointer: bool) -> (r: (bool, bool))
        ensures
            r.0 == (keyboard && !old(self).seat_keyboard),
            r.1 == (pointer && !old(self).seat_pointer),
            final(self).seat_keyboard == (old(self).seat_keyboard || keyboard),
            final(self).seat_pointer == (old(self).seat_pointer || pointer),
            final(self).objects == old(self).objects,
            final(self).globals@ == old(self).globals@,
            final(self).outputs@ == old(self).outputs@,
            final(self).im_serial == old(self).im_serial,
    {
        let get_keyboard = keyboard && !self.seat_keyboard;
        let get_pointer = pointer && !self.seat_pointer;
        if get_keyboard {
            self.seat_keyboard = true;
        }
        if get_pointer {
            self.seat_pointer = true;
        }
        (get_keyboard, get_pointer)
    }

    /// A connection is of use only if one of the protocols to simulate input
    /// is there
    pub fn check_available_protocols(&self) -> (r: Result<(), NewConError>)
        ensures
            r is Err <==> !(self.objects.virtual_keyboard || self.objects.input_method
                || self.objects.virtual_pointer),
            r is Err ==> r == Err::<(), NewConError>(
                NewConError::EstablishCon("no protocol available to simulate input"),
            ),
    {
        if !self.objects.virtual_keyboard && !self.objects.input_method
            && !self.objects.virtual_pointer {
            return Err(NewConError::EstablishCon("no protocol available to simulate input"));
        }
        Ok(())
    }

    /// The size of the main display, taken to be the first output; a
    /// rotated output has its width and height swapped
    pub fn main_display(&self) -> (r: InputResult<(i32, i32)>)
        ensures
            self.outputs@.len() == 0 ==> r == Err::<(i32, i32), InputError>(
                InputError::Simulate("No screens available"),
            ),
            self.outputs@.len() > 0 ==> r == Ok::<(i32, i32), InputError>(
                if self.outputs@[0].1.transform {
                    (self.outputs@[0].1.height, self.outputs@[0].1.width)
                } else {
                    (self.outputs@[0].1.width, self.outputs@[0].1.height)
                },
            ),
    {
        if self.outputs.len() == 0 {
            return Err(InputError::Simulate("No screens available"));
        }
        let info = self.outputs[0].1;
        if info.transform {
            Ok((info.height, info.width))
        } else {
            Ok((info.width, info.height))
        }
    }
}

/// The virtual keyboard's key request for an X11 keycode: the evdev keycode,
/// which is 8 less, and the key state, 1 for a press and 0 for a release.
/// A click has to be sent as a press and a release.
pub fn key_request(keycode: u32, direction: Direction) -> (r: InputResult<(u32, u32)>)
    requires
        keycode >= 8,
    ensures
        direction == Direction::Press ==> r == Ok::<(u32, u32), InputError>(((keycode - 8) as u32, 1u32)),
        direction == Direction::Release ==> r == Ok::<(u32, u32), InputError>(((keycode - 8) as u32, 0u32)),
        direction == Direction::Click ==> r == Err::<(u32, u32), InputError>(
            InputError::Simulate(
                "impossible direction, this should never be possible. This function must never be called with Direction::Click",
            ),
        ),
{
    let keycode = keycode - 8;
    match direction {
        Direction::Press => Ok((keycode, 1)),
        Direction::Release => Ok((keycode, 0)),
        Direction::Click => Err(
            InputError::Simulate(
                "impossible direction, this should never be possible. This function must never be called with Direction::Click",
            ),
        ),
    }
}

/// The arguments of an absolute motion request: the position and the
/// extent of the display, none of which can be negative. The extent is
/// checked first, then the position.
pub fn absolute_motion(x: i32, y: i32, x_extend: i32, y_extend: i32) -> (r: InputResult<
    (u32, u32, u32, u32),
>)
    ensures
        x_extend < 0 ==> r == Err::<(u32, u32, u32, u32), InputError>(
            InputError::InvalidInput("x_extend cannot be negative"),
        ),
        x_extend >= 0 && y_extend < 0 ==> r == Err::<(u32, u32, u32, u32), InputError>(
            InputError::InvalidInput("y_extend cannot be negative"),
        ),
        x_extend >= 0 && y_extend >= 0 && (x < 0 || y < 0) ==> r == Err::<
            (u32, u32, u32, u32),
            InputError,
        >(InputError::InvalidInput("the absolute coordinates cannot be negative")),
        x_extend >= 0 && y_extend >= 0 && x >= 0 && y >= 0 ==> r == Ok::<
            (u32, u32, u32, u32),
            InputError,
        >((x as u32, y as u32, x_extend as u32, y_extend as u32)),
{
    if x_extend < 0 {
        return Err(InputError::InvalidInput("x_extend cannot be negative"));
    }
    if y_extend < 0 {
        return Err(InputError::InvalidInput("y_extend cannot be negative"));
    }
    if x < 0 || y < 0 {
        return Err(InputError::InvalidInput("the absolute coordinates cannot be negative"));
    }
    Ok((x as u32, y as u32, x_extend as u32, y_extend as u32))
}

/// What to do after the keymap was asked to map a key
#[derive(Debug, Clone, PartialEq, Eq)]
pub enum MapStep {
    /// Use the keycode the key was mapped to
    Use(u16),
    /// The keymap is full: unmap everything and map the key again
    UnmapAndRetry,
    /// Give up
    Fail(InputError),
}

/// What to do with the result of mapping a key: a mapping error means that
/// there was no room, so everything gets unmapped before the key is mapped
/// again; any other error is given up on
pub fn after_mapping(res: InputResult<u16>) -> (r: MapStep)
    ensures
        res matches Ok(kc) ==> r == MapStep::Use(kc),
        res matches Err(InputError::Mapping(_)) ==> r == MapStep::UnmapAndRetry,
        res is Err && !(res matches Err(InputError::Mapping(_))) ==> (r matches MapStep::Fail(
            InputError::Mapping(s),
        ) && s@ == "unable to map the key"@),
{
    match res {
        Ok(kc) => MapStep::Use(kc),
        Err(InputError::Mapping(_)) => MapStep::UnmapAndRetry,
        Err(_) => MapStep::Fail(InputError::Mapping(crate::text::string_from("unable to map the key"))),
    }
}

/// The actions create the object of the protocol that the manager serves
pub open spec fn creates(a: GlobalActions, manager: Interface) -> bool {
    match manager {
        Interface::InputMethodManager => a.create_input_method,
        Interface::VirtualKeyboardManager => a.create_virtual_keyboard,
        Interface::VirtualPointerManager => a.create_virtual_pointer,
        _ => false,
    }
}

/// The seat and a protocol manager can be announced in either order: once
/// both are, the protocol object exists, and it was requested exactly once
pub proof fn lemma_seat_and_manager_in_either_order(o: Objects, manager: Interface)
    requires
        manager == Interface::InputMethodManager || manager == Interface::VirtualKeyboardManager
            || manager == Interface::VirtualPointerManager,
        !o.seat,
        !o.input_method,
        !o.virtual_keyboard,
        !o.virtual_pointer,
    ensures
        ({
            let seat_first = objects_after_global(objects_after_global(o, Interface::Seat), manager);
            let manager_first = objects_after_global(objects_after_global(o, manager), Interface::Seat);
            &&& seat_first == manager_first
            &&& manager == Interface::InputMethodManager ==> seat_first.input_method
            &&& manager == Interface::VirtualKeyboardManager ==> seat_first.virtual_keyboard
            &&& manager == Interface::VirtualPointerManager ==> seat_first.virtual_pointer
        }),
        ({
            let a1 = actions_for_global(o, Interface::Seat);
            let a2 = actions_for_global(objects_after_global(o, Interface::Seat), manager);
            creates(a1, manager) != creates(a2, manager)
        }),
        ({
            let a1 = actions_for_global(o, manager);
            let a2 = actions_for_global(objects_after_global(o, manager), Interface::Seat);
            creates(a1, manager) != creates(a2, manager)
        }),
{
}

/// What the virtual keyboard is sent for one phase of a raw key event
#[derive(Debug, Clone, Copy, PartialEq, Eq, Structural)]
pub enum RawRequest {
    /// The key changed the modifiers: send the new depressed, latched and
    /// locked modifiers and the effective layout
    Modifiers(u32, u32, u32, u32),
    /// Send a key event: the evdev keycode and the key state
    Key(u32, u32),
}

/// The phases of a raw key event: a click is a press and then a release
pub fn raw_phases(direction: Direction) -> (r: Vec<Direction>)
    ensures
        direction == Direction::Press ==> r@ == seq![Direction::Press],
        direction == Direction::Release ==> r@ == seq![Direction::Release],
        direction == Direction::Click ==> r@ == seq![Direction::Press, Direction::Release],
{
    let mut v: Vec<Direction> = Vec::new();
    if direction == Direction::Press || direction == Direction::Click {
        v.push(Direction::Press);
    }
    if direction == Direction::Release || direction == Direction::Click {
        v.push(Direction::Release);
    }
    proof {
        if direction == Direction::Click {
            assert(v@ =~= seq![Direction::Press, Direction::Release]);
        } else if direction == Direction::Press {
            assert(v@ =~= seq![Direction::Press]);
        } else {
            assert(v@ =~= seq![Direction::Release]);
        }
    }
    v
}

/// The request for one phase of a raw key event: if the keymap reports
/// that the key changed the modifier state, the new state is sent;
/// otherwise the key itself, pressed or released
pub fn raw_request(keycode: u16, phase: Direction, change: Option<(u32, u32, u32, u32)>) -> (r:
    RawRequest)
    requires
        keycode >= 8,
        phase != Direction::Click,
    ensures
        change matches Some(m) ==> r == RawRequest::Modifiers(m.0, m.1, m.2, m.3),
        change is None ==> r == RawRequest::Key(
            (keycode - 8) as u32,
            if phase == Direction::Press {
                1u32
            } else {
                0u32
            },
        ),
{
    match change {
        Some((depressed, latched, locked, layout)) => RawRequest::Modifiers(depressed, latched, locked, layout),
        None => match key_request(keycode as u32, phase) {
            Ok((kc, state)) => RawRequest::Key(kc, state),
            Err(_) => RawRequest::Key((keycode - 8) as u32, 0),
        },
    }
}

} // verus!
