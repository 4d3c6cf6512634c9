//! How the Linux backend chooses among its connections: each request is
//! tried on the established connections in a fixed order (XDG desktop
//! portal, Wayland, X11, libei) until one of them succeeds, and the keys
//! and keycodes that were pressed are remembered so they can be released.

use vstd::prelude::*;

use crate::input::{Direction, InputError, InputResult, NewConError};
use crate::keycodes::Key;

verus! {

/// A protocol that the Linux backend can simulate input with
#[derive(Debug, Clone, Copy, PartialEq, Eq, Hash, Structural)]
pub enum Protocol {
    XdgDesktop,
    Wayland,
    X11,
    Libei,
}

/// The place of a protocol in the order in which they are tried
pub open spec fn rank(p: Protocol) -> int {
    match p {
        Protocol::XdgDesktop => 0,
        Protocol::Wayland => 1,
        Protocol::X11 => 2,
        Protocol::Libei => 3,
    }
}

/// Which connections could be established
#[derive(Debug, Clone, Copy, PartialEq, Eq, Hash, Structural)]
pub struct Connections {
    pub xdg_desktop: bool,
    pub wayland: bool,
    pub x11: bool,
    pub libei: bool,
}

impl Connections {
    /// The connection of the protocol was established
    pub open spec fn established(&self, p: Protocol) -> bool {
        match p {
            Protocol::XdgDesktop => self.xdg_desktop,
            Protocol::Wayland => self.wayland,
            Protocol::X11 => self.x11,
            Protocol::Libei => self.libei,
        }
    }

    /// `p` is the established protocol that comes first after the place
    /// `start`
    pub open spec fn first_after(&self, p: Protocol, start: int) -> bool {
        &&& self.established(p)
        &&& rank(p) > start
        &&& forall|q: Protocol| #[trigger] self.established(q) && rank(q) > start ==> rank(p) <= rank(q)
    }

    /// Creating the backend fails when no connection could be established
    pub fn check(&self) -> (r: Result<(), NewConError>)
        ensures
            r is Err <==> !(self.xdg_desktop || self.wayland || self.x11 || self.libei),
            r is Err ==> r == Err::<(), NewConError>(NewConError::EstablishCon("no successful connection")),
    {
        if self.xdg_desktop || self.wayland || self.x11 || self.libei {
            Ok(())
        } else {
            Err(NewConError::EstablishCon("no successful connection"))
        }
    }

    /// The protocol to try next: the first established one after `after`, or
    /// the first established one at all when nothing was tried yet
    pub fn next_protocol(&self, after: Option<Protocol>) -> (r: Option<Protocol>)
        ensures
            ({
                let start = match after {
                    Some(a) => rank(a),
                    None => -1,
                };
                &&& r matches Some(p) ==> self.first_after(p, start)
                &&& r is None ==> forall|q: Protocol| #[trigger] self.established(q) ==> rank(q) <= start
            }),
    {
        let start: i8 = match after {
            Some(Protocol::XdgDesktop) => 0,
            Some(Protocol::Wayland) => 1,
            Some(Protocol::X11) => 2,
            Some(Protocol::Libei) => 3,
            None => -1,
        };
        if start < 0 && self.xdg_desktop {
            return Some(Protocol::XdgDesktop);
        }
        if start < 1 && self.wayland {
            return Some(Protocol::Wayland);
        }
        if start < 2 && self.x11 {
            return Some(Protocol::X11);
        }
        if start < 3 && self.libei {
            return Some(Protocol::Libei);
        }
        None
    }
}

/// The error of a request that no connection could serve: the error of the
/// last connection that was tried, or `message` when none was
pub fn unserved(last: Option<InputError>, message: &'static str) -> (r: InputError)
    ensures
        last matches Some(e) ==> r == e,
        last is None ==> r == InputError::Simulate(message),
{
    match last {
        Some(e) => e,
        None => InputError::Simulate(message),
    }
}

/// Entering the null character does nothing
pub fn key_is_noop(key: Key) -> (r: bool)
    ensures
        r <==> key == Key::Unicode('\0'),
{
    match key {
        Key::Unicode(c) => c == '\0',
        _ => false,
    }
}

/// `ks` without any occurrence of `k`
pub open spec fn without_key(ks: Seq<Key>, k: Key) -> Seq<Key> {
    ks.filter(|x: Key| x != k)
}

/// `ks` without any occurrence of `k`
pub open spec fn without_keycode(ks: Seq<u16>, k: u16) -> Seq<u16> {
    ks.filter(|x: u16| x != k)
}

/// The held keys after a key was sent in a direction
pub open spec fn keys_after(held: Seq<Key>, key: Key, direction: Direction) -> Seq<Key> {
    match direction {
        Direction::Press => held.push(key),
        Direction::Release => without_key(held, key),
        Direction::Click => held,
    }
}

/// The held keycodes after a keycode was sent in a direction
pub open spec fn keycodes_after(held: Seq<u16>, keycode: u16, direction: Direction) -> Seq<u16> {
    match direction {
        Direction::Press => held.push(keycode),
        Direction::Release => without_keycode(held, keycode),
        Direction::Click => held,
    }
}

/// The keys and the raw keycodes that are held down, each in the order it
/// was pressed
pub struct HeldKeys {
    keys: Vec<Key>,
    keycodes: Vec<u16>,
}

impl HeldKeys {
    /// The held keys
    pub closed spec fn keys(&self) -> Seq<Key> {
        self.keys@
    }

    /// The held raw keycodes
    pub closed spec fn keycodes(&self) -> Seq<u16> {
        self.keycodes@
    }

    /// Nothing held
    pub fn new() -> (r: Self)
        ensures
            r.keys() == Seq::<Key>::empty(),
            r.keycodes() == Seq::<u16>::empty(),
    {
        HeldKeys { keys: Vec::new(), keycodes: Vec::new() }
    }

    /// A copy of the held keys and of the held keycodes
    pub fn held(&self) -> (r: (Vec<Key>, Vec<u16>))
        ensures
            r.0@ == self.keys(),
            r.1@ == self.keycodes(),
    {
        let mut keys: Vec<Key> = Vec::new();
        let mut i: usize = 0;
        while i < self.keys.len()
            invariant
                i <= self.keys@.len(),
                keys@ == self.keys@.take(i as int),
            decreases self.keys@.len() - i,
        {
            keys.push(self.keys[i]);
            assert(self.keys@.take(i + 1) =~= self.keys@.take(i as int).push(self.keys@[i as int]));
            i = i + 1;
        }
        assert(self.keys@.take(i as int) =~= self.keys@);
        let mut keycodes: Vec<u16> = Vec::new();
        let mut j: usize = 0;
        while j < self.keycodes.len()
            invariant
                j <= self.keycodes@.len(),
                keycodes@ == self.keycodes@.take(j as int),
            decreases self.keycodes@.len() - j,
        {
            keycodes.push(self.keycodes[j]);
            assert(self.keycodes@.take(j + 1) =~= self.keycodes@.take(j as int).push(
                self.keycodes@[j as int],
            ));
            j = j + 1;
        }
        assert(self.keycodes@.take(j as int) =~= self.keycodes@);
        (keys, keycodes)
    }

    /// Remember that a key was sent: a pressed key is held until it is
    /// released, which forgets every press of it
    pub fn key_sent(&mut self, key: Key, direction: Direction)
        ensures
            final(self).keys() == keys_after(old(self).keys(), key, direction),
            final(self).keycodes() == old(self).keycodes(),
    {
        match direction {
            Direction::Press => {
                self.keys.push(key);
            },
            Direction::Release => {
                let mut kept: Vec<Key> = Vec::new();
                let mut i: usize = 0;
                while i < self.keys.len()
                    invariant
                        i <= self.keys@.len(),
                        kept@ == without_key(self.keys@.take(i as int), key),
                    decreases self.keys@.len() - i,
                {
                    proof {
                        reveal(Seq::filter);
                        assert(self.keys@.take(i + 1).drop_last() =~= self.keys@.take(i as int));
                    }
                    if self.keys[i] != key {
                        kept.push(self.keys[i]);
                    }
                    i = i + 1;
                }
                assert(self.keys@.take(i as int) =~= self.keys@);
                self.keys = kept;
            },
            Direction::Click => {},
        }
    }

    /// Remember that a raw keycode was sent, as `key_sent` does for keys
    pub fn raw_sent(&mut self, keycode: u16, direction: Direction)
        ensures
            final(self).keycodes() == keycodes_after(old(self).keycodes(), keycode, direction),
            final(self).keys() == old(self).keys(),
    {
        match direction {
            Direction::Press => {
                self.keycodes.push(keycode);
            },
            Direction::Release => {
                let mut kept: Vec<u16> = Vec::new();
                let mut i: usize = 0;
                while i < self.keycodes.len()
                    invariant
                        i <= self.keycodes@.len(),
                        kept@ == without_keycode(self.keycodes@.take(i as int), keycode),
                    decreases self.keycodes@.len() - i,
                {
                    proof {
                        reveal(Seq::filter);
                        assert(self.keycodes@.take(i + 1).drop_last() =~= self.keycodes@.take(i as int));
                    }
                    if self.keycodes[i] != keycode {
                        kept.push(self.keycodes[i]);
                    }
                    i = i + 1;
                }
                assert(self.keycodes@.take(i as int) =~= self.keycodes@);
                self.keycodes = kept;
            },
            Direction::Click => {},
        }
    }
}

impl HeldKeys {
    /// The keys and the raw keycodes to release when the connection is
    /// dropped: every held one, in the order it was pressed, if the settings
    /// ask for it, and none otherwise
    pub fn to_release(&self, release_keys_when_dropped: bool) -> (r: (Vec<Key>, Vec<u16>))
        ensures
            release_keys_when_dropped ==> r.0@ == self.keys() && r.1@ == self.keycodes(),
            !release_keys_when_dropped ==> r.0@ == Seq::<Key>::empty() && r.1@ == Seq::<u16>::empty(),
    {
        if release_keys_when_dropped {
            self.held()
        } else {
            (Vec::new(), Vec::new())
        }
    }

    /// Take the outcome of sending a key into account: only a key that
    /// some connection entered changes what is held down
    pub fn key_outcome(&mut self, key: Key, direction: Direction, sent: &InputResult<()>)
        ensures
            final(self).keys() == (if sent is Ok {
                keys_after(old(self).keys(), key, direction)
            } else {
                old(self).keys()
            }),
            final(self).keycodes() == old(self).keycodes(),
    {
        if sent.is_ok() {
            self.key_sent(key, direction);
        }
    }

    /// Take the outcome of sending a raw keycode into account, as
    /// `key_outcome` does for keys
    pub fn raw_outcome(&mut self, keycode: u16, direction: Direction, sent: &InputResult<()>)
        ensures
            final(self).keycodes() == (if sent is Ok {
                keycodes_after(old(self).keycodes(), keycode, direction)
            } else {
                old(self).keycodes()
            }),
            final(self).keys() == old(self).keys(),
    {
        if sent.is_ok() {
            self.raw_sent(keycode, direction);
        }
    }
}

/// Sending a key press and then its release leaves the held keys as they
/// would be had the key only been released: every press of it is forgotten
pub proof fn lemma_press_release_forgets(held: Seq<Key>, key: Key)
    ensures
        keys_after(keys_after(held, key, Direction::Press), key, Direction::Release) == without_key(
            held,
            key,
        ),
        !keys_after(keys_after(held, key, Direction::Press), key, Direction::Release).contains(key),
{
    reveal(Seq::filter);
    assert(held.push(key).drop_last() =~= held);
    let r = without_key(held, key);
    if r.contains(key) {
        let i = choose|i: int| 0 <= i < r.len() && r[i] == key;
        held.lemma_filter_pred(|x: Key| x != key, i);
    }
}

/// The same for raw keycodes
pub proof fn lemma_raw_press_release_forgets(held: Seq<u16>, keycode: u16)
    ensures
        keycodes_after(keycodes_after(held, keycode, Direction::Press), keycode, Direction::Release)
            == without_keycode(held, keycode),
        !keycodes_after(keycodes_after(held, keycode, Direction::Press), keycode, Direction::Release).contains(
            keycode,
        ),
{
    reveal(Seq::filter);
    assert(held.push(keycode).drop_last() =~= held);
    let r = without_keycode(held, keycode);
    if r.contains(keycode) {
        let i = choose|i: int| 0 <= i < r.len() && r[i] == keycode;
        held.lemma_filter_pred(|x: u16| x != keycode, i);
    }
}

} // verus!
