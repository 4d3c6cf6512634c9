//! The decisions of the keymap that the Wayland and libei backends keep:
//! finding a key by its keysym's name, naming a key to map it, cleaning a
//! received keymap and telling when the modifier state changed.

use vstd::prelude::*;

use std::collections::HashSet;

use crate::input::{InputError, InputResult};
use crate::keycodes::{key_to_keysym, spec_key_to_keysym, Key};
use crate::text::{chars_of, push_char, same_text, string_from};

verus! {

broadcast use {vstd::string::group_string_axioms, vstd::std_specs::hash::group_hash_axioms};

/// Name for the name that `xkeysym::Keysym::name` gives a keysym
pub uninterp spec fn keysym_name_of(keysym: u32) -> Option<Seq<char>>;

/// Calls `xkeysym::Keysym::name`, which looks the keysym up in the table
/// of keysym names (`XK_a`, `XF86XK_AudioMute`, ...) and gives `None` for a
/// keysym without a name. The contract claims that the name is a function
/// of the keysym; the table is not stated.
#[verifier::external_body]
pub(crate) fn name_of_keysym(keysym: u32) -> (r: Option<&'static str>)
    ensures
        r matches Some(s) ==> keysym_name_of(keysym) == Some(s@),
        r is None ==> keysym_name_of(keysym) is None,
{
    xkeysym::Keysym::new(keysym).name()
}

/// `name` without a leading `XK_`
pub open spec fn without_xk_prefix(name: Seq<char>) -> Seq<char> {
    if name.len() >= 3 && name.take(3) == "XK_"@ {
        name.skip(3)
    } else {
        name
    }
}

/// The name under which a key is mapped in the keymap: the name of its
/// keysym without the `XK_` prefix. A keysym without a name cannot be
/// mapped.
pub fn key_name(key: Key) -> (r: InputResult<String>)
    ensures
        keysym_name_of(spec_key_to_keysym(key)) matches Some(n) ==> (r matches Ok(s) && s@
            == without_xk_prefix(n)),
        keysym_name_of(spec_key_to_keysym(key)) is None ==> (r matches Err(InputError::Mapping(s))
            && s@ == "the key to map doesn't have a name"@),
{
    let name = match name_of_keysym(key_to_keysym(key)) {
        Some(n) => n,
        None => {
            return Err(InputError::Mapping(string_from("the key to map doesn't have a name")));
        },
    };
    let chars = chars_of(name);
    let start: usize = if chars.len() >= 3 && chars[0] == 'X' && chars[1] == 'K' && chars[2] == '_' {
        proof {
            reveal_strlit("XK_");
            assert(chars@.take(3) =~= "XK_"@);
        }
        3
    } else {
        proof {
            reveal_strlit("XK_");
            if chars@.len() >= 3 {
                assert(chars@.take(3)[0] == chars@[0]);
                assert(chars@.take(3)[1] == chars@[1]);
                assert(chars@.take(3)[2] == chars@[2]);
            }
        }
        0
    };
    let mut out = String::new();
    let mut i: usize = start;
    while i < chars.len()
        invariant
            start <= i <= chars@.len(),
            out@ == chars@.subrange(start as int, i as int),
        decreases chars@.len() - i,
    {
        push_char(&mut out, chars[i]);
        assert(chars@.subrange(start as int, i + 1) =~= chars@.subrange(start as int, i as int).push(
            chars@[i as int],
        ));
        i = i + 1;
    }
    assert(chars@.subrange(start as int, chars@.len() as int) =~= chars@.skip(start as int));
    assert(chars@.skip(0) =~= chars@);
    Ok(out)
}

/// `k` is the first of the keycodes, which run from `min` on with one
/// keysym each, whose keysym has the name
pub open spec fn first_named(min: int, syms: Seq<u32>, name: Seq<char>, k: int) -> bool {
    &&& 0 <= k < syms.len()
    &&& keysym_name_of(syms[k]) == Some(name)
    &&& forall|j: int| 0 <= j < k ==> keysym_name_of(syms[j]) != Some(name)
}

/// The keycode of a key in the current state of the keymap: the first
/// keycode whose keysym has the same name as the key's keysym. `syms` holds
/// the keysym of each keycode from `min` on. A key whose keysym has no name
/// is not found, and neither is one whose keycode does not fit in `u16`.
pub fn find_keycode(min: u32, syms: &Vec<u32>, key: Key) -> (r: Option<u16>)
    requires
        min + syms@.len() <= u32::MAX + 1,
    ensures
        ({
            let name = keysym_name_of(spec_key_to_keysym(key));
            &&& name is None ==> r is None
            &&& name matches Some(n) ==> {
                &&& (forall|k: int| 0 <= k < syms@.len() ==> keysym_name_of(syms@[k]) != Some(n))
                    ==> r is None
                &&& forall|k: int|
                    first_named(min as int, syms@, n, k) ==> r == if min + k <= u16::MAX {
                        Some((min + k) as u16)
                    } else {
                        None
                    }
            }
        }),
{
    let name = match name_of_keysym(key_to_keysym(key)) {
        Some(n) => n,
        None => {
            return None;
        },
    };
    let mut i: usize = 0;
    while i < syms.len()
        invariant
            i <= syms@.len(),
            min + syms@.len() <= u32::MAX + 1,
            keysym_name_of(spec_key_to_keysym(key)) == Some(name@),
            forall|j: int| 0 <= j < i ==> keysym_name_of(syms@[j]) != Some(name@),
        decreases syms@.len() - i,
    {
        let found = match name_of_keysym(syms[i]) {
            Some(n) => same_text(n, name),
            None => false,
        };
        if found {
            proof {
                assert forall|k: int| first_named(min as int, syms@, name@, k) implies k == i by {
                    if k < i {
                        assert(keysym_name_of(syms@[k]) != Some(name@));
                    } else if k > i {
                        assert(keysym_name_of(syms@[i as int]) != Some(name@));
                    }
                }
            }
            let kc = min as u64 + i as u64;
            if kc <= 65535 {
                return Some(kc as u16);
            } else {
                return None;
            }
        }
        i = i + 1;
    }
    None
}

/// `s` without the NUL characters at its end, which a keymap sent by the
/// compositor may be padded with
pub open spec fn without_nul_padding(s: Seq<char>) -> Seq<char>
    decreases s.len(),
{
    if s.len() > 0 && s.last() == '\0' {
        without_nul_padding(s.drop_last())
    } else {
        s
    }
}

/// The keymap text without the NUL characters it may be padded with, as
/// the keymap parser cannot read them
pub fn strip_nul_padding(s: &str) -> (r: String)
    ensures
        r@ == without_nul_padding(s@),
{
    let chars = chars_of(s);
    let mut end: usize = chars.len();
    assert(chars@.take(end as int) =~= chars@);
    while end > 0 && chars[end - 1] == '\0'
        invariant
            end <= chars@.len(),
            chars@ == s@,
            without_nul_padding(s@) == without_nul_padding(chars@.take(end as int)),
        decreases end,
    {
        assert(chars@.take(end as int).drop_last() =~= chars@.take(end - 1));
        end = end - 1;
    }
    let mut out = String::new();
    let mut i: usize = 0;
    while i < end
        invariant
            i <= end <= chars@.len(),
            out@ == chars@.take(i as int),
        decreases end - i,
    {
        push_char(&mut out, chars[i]);
        assert(chars@.take(i + 1) =~= chars@.take(i as int).push(chars@[i as int]));
        i = i + 1;
    }
    proof {
        assert(s@.take(s@.len() as int) =~= s@);
        if end > 0 {
            assert(chars@.take(end as int).last() == chars@[end - 1]);
        }
        assert(out@ =~= chars@.take(end as int));
    }
    out
}

/// The depressed, latched and locked modifiers and the effective layout
pub type ModifierState = (u32, u32, u32, u32);

/// The new modifier state if a key event changed it, `None` if it stayed
/// the same: only then does the compositor have to be told
pub fn modifier_change(before: ModifierState, after: ModifierState) -> (r: Option<ModifierState>)
    ensures
        before == after ==> r is None,
        before != after ==> r == Some(after),
{
    if before.0 != after.0 || before.1 != after.1 || before.2 != after.2 || before.3 != after.3 {
        Some(after)
    } else {
        None
    }
}

/// Whether a key goes up or down
#[derive(Debug, Clone, Copy, PartialEq, Eq, Hash, Structural)]
pub enum KeyDirection {
    Up,
    Down,
}

/// The keycodes that are pressed down on the keymap's keyboard
pub struct PressedKeys {
    keys: HashSet<u32>,
}

impl PressedKeys {
    /// The pressed keycodes
    pub closed spec fn keys(&self) -> Set<u32> {
        self.keys@
    }

    /// Nothing pressed
    pub fn new() -> (r: Self)
        ensures
            r.keys() == Set::<u32>::empty(),
    {
        PressedKeys { keys: HashSet::new() }
    }

    /// Whether the keycode is pressed
    pub fn is_pressed(&self, keycode: u32) -> (r: bool)
        ensures
            r == self.keys().contains(keycode),
    {
        self.keys.contains(&keycode)
    }

    /// Take a key event into account: a key going down is pressed, one
    /// going up no longer is. `before` and `after` are the modifier state
    /// before and after the keyboard state took the event; the new state is
    /// returned if it changed, `None` if it stayed the same.
    pub fn update_key(
        &mut self,
        keycode: u32,
        direction: KeyDirection,
        before: ModifierState,
        after: ModifierState,
    ) -> (r: Option<ModifierState>)
        ensures
            final(self).keys() == match direction {
                KeyDirection::Up => old(self).keys().remove(keycode),
                KeyDirection::Down => old(self).keys().insert(keycode),
            },
            r == (if before == after { None } else { Some(after) }),
    {
        match direction {
            KeyDirection::Up => {
                self.keys.remove(&keycode);
            },
            KeyDirection::Down => {
                self.keys.insert(keycode);
            },
        }
        modifier_change(before, after)
    }
}

/// The keycode at which the keysym is on level 0 or 1 of its key, where
/// `levels` holds the keysyms of the two levels of each keycode from `min`
/// on
pub open spec fn on_levels(levels: Seq<(Vec<u32>, Vec<u32>)>, k: int, keysym: u32) -> bool {
    levels[k].0@.contains(keysym) || levels[k].1@.contains(keysym)
}

/// Whether `v` holds `x`
fn holds_keysym(v: &Vec<u32>, x: u32) -> (r: bool)
    ensures
        r == v@.contains(x),
{
    let mut i: usize = 0;
    while i < v.len()
        invariant
            i <= v@.len(),
            forall|k: int| 0 <= k < i ==> v@[k] != x,
        decreases v@.len() - i,
    {
        if v[i] == x {
            assert(v@[i as int] == x);
            return true;
        }
        i = i + 1;
    }
    false
}

/// The keycode with which the libei backend enters a key on a keyboard
/// without text support: the first keycode, from `min` on, that has the
/// key's keysym on its first or second level
pub fn level_keycode(min: u32, levels: &Vec<(Vec<u32>, Vec<u32>)>, key: Key) -> (r: InputResult<u32>)
    requires
        min + levels@.len() <= u32::MAX + 1,
    ensures
        ({
            let keysym = spec_key_to_keysym(key);
            &&& r matches Ok(kc) ==> {
                &&& min <= kc < min + levels@.len()
                &&& on_levels(levels@, kc - min, keysym)
                &&& forall|j: int| 0 <= j < kc - min ==> !on_levels(levels@, j, keysym)
            }
            &&& r is Err ==> {
                &&& r == Err::<u32, InputError>(InputError::InvalidInput("Key is not mapped"))
                &&& forall|j: int| 0 <= j < levels@.len() ==> !on_levels(levels@, j, keysym)
            }
        }),
{
    let keysym = key_to_keysym(key);
    let mut i: usize = 0;
    while i < levels.len()
        invariant
            i <= levels@.len(),
            min + levels@.len() <= u32::MAX + 1,
            keysym == spec_key_to_keysym(key),
            forall|j: int| 0 <= j < i ==> !on_levels(levels@, j, keysym),
        decreases levels@.len() - i,
    {
        if holds_keysym(&levels[i].0, keysym) || holds_keysym(&levels[i].1, keysym) {
            return Ok(min + i as u32);
        }
        i = i + 1;
    }
    Err(InputError::InvalidInput("Key is not mapped"))
}

} // verus!
