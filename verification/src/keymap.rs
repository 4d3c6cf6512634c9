//! Bookkeeping of the keysyms that the X11 and Wayland backends map to
//! spare keycodes.
//!
//! A key whose keysym is not on the keyboard layout gets mapped to an unused
//! keycode. When no keycode is left, the mapped keysyms that are not held
//! down get unmapped again to make room. Keycodes that are held are never
//! unmapped.

use vstd::prelude::*;

use std::collections::{HashMap, VecDeque};
use vstd::std_specs::iter::IteratorSpec;

use crate::input::{Direction, InputError, InputResult};
use crate::keycodes::{key_to_keysym, spec_key_to_keysym, Key};
use crate::keymap2::keysym_name_of;
use crate::keysyms::XK_NoSymbol;
use crate::text::hex_lower;

verus! {

broadcast use vstd::std_specs::hash::group_hash_axioms;

/// Name for the keysym that `xkeysym::keysym` reads from an X keyboard
/// mapping table for `keycode` in `column`
pub uninterp spec fn keysym_in_table(
    keycode: u32,
    column: u8,
    min_keycode: u32,
    keysyms_per_keycode: u8,
    keysyms: Seq<u32>,
) -> Option<u32>;

/// Calls `xkeysym::keysym`, which reads the keysym of `keycode` in `column`
/// from the keyboard mapping table `keysyms` (the table lists
/// `keysyms_per_keycode` keysyms for every keycode from `min_keycode` on),
/// filling in upper or lower case forms of letters as X11 does. It panics
/// unless the keycode's row lies within the table, which `requires` rules
/// out. The contract claims that the result is a function of the arguments;
/// the case conversion table is not stated.
#[verifier::external_body]
fn table_keysym(
    keycode: u32,
    column: u8,
    min_keycode: u32,
    keysyms_per_keycode: u8,
    keysyms: &Vec<u32>,
) -> (r: Option<u32>)
    requires
        min_keycode <= keycode,
        (keycode - min_keycode + 1) * keysyms_per_keycode <= keysyms@.len(),
        (keycode - min_keycode + 1) * keysyms_per_keycode <= usize::MAX,
    ensures
        r == keysym_in_table(keycode, column, min_keycode, keysyms_per_keycode, keysyms@),
{
    xkeysym::keysym(
        xkeysym::KeyCode::new(keycode),
        column,
        xkeysym::KeyCode::new(min_keycode),
        keysyms_per_keycode,
        keysyms.as_slice(),
    ).map(|k| k.raw())
}

/// The text that the `Debug` implementation of `xkeysym::Keysym` writes
/// for a keysym: its name if it has one, otherwise its value in lower case
/// hexadecimal after `0x`
pub open spec fn keysym_debug(keysym: u32) -> Seq<char> {
    match keysym_name_of(keysym) {
        Some(n) => n,
        None => "0x"@ + hex_lower(keysym as nat),
    }
}

/// Formats a keysym with the `Debug` implementation of `xkeysym::Keysym`,
/// which writes the name that `Keysym::name` gives, or `{:#x}` of the value
/// for a keysym without a name.
#[verifier::external_body]
fn keysym_debug_string(keysym: u32) -> (r: String)
    ensures
        r@ == keysym_debug(keysym),
{
    format!("{:?}", xkeysym::Keysym::new(keysym))
}

/// A binding request: the keycode, the keysym it was to be bound to, and
/// what the display server answered
pub type BindRequest = (u32, u32, Result<(), ()>);

/// Maps a keysym to a keycode on the display server
pub trait Bind {
    /// The binding requests made so far, oldest first, each with its answer
    spec fn binds(&self) -> Seq<BindRequest>;

    /// Map the keysym to the given keycode. Only use keycodes that are not
    /// used, otherwise the existing mapping is overwritten. If the keycode
    /// is mapped to the `NoSymbol` keysym, the key is unbound and can get
    /// used again later. The answer comes from the display server; the
    /// request is recorded with it.
    fn bind_key(&mut self, keycode: u32, keysym: u32) -> (r: Result<(), ()>)
        ensures
            final(self).binds() == old(self).binds().push((keycode, keysym, r)),
    ;
}

/// `after` is `before` with one more request, binding `keycode` to
/// `keysym`, which the display server accepted exactly when `accepted`
pub open spec fn bound_once(
    before: Seq<BindRequest>,
    after: Seq<BindRequest>,
    keycode: u32,
    keysym: u32,
    accepted: bool,
) -> bool {
    &&& after.len() == before.len() + 1
    &&& after.drop_last() == before
    &&& after.last().0 == keycode
    &&& after.last().1 == keysym
    &&& (after.last().2 is Ok) == accepted
}

struct KeyMapMapping {
    additionally_mapped: HashMap<u32, u32>,
    keycode_min: u32,
    keycode_max: u32,
    keysyms_per_keycode: u8,
    keysyms: Vec<u32>,
    unused_keycodes: VecDeque<u32>,
}

struct KeyMapState {
    held_keycodes: Vec<u32>,
    needs_regeneration: bool,
}

/// The keysyms mapped to spare keycodes, the keycodes still spare and the
/// keycodes held down
pub struct KeyMap {
    keymap_mapping: KeyMapMapping,
    keymap_state: KeyMapState,
}

/// The keysym is in the first column of the keycode's row of a keyboard
/// mapping table whose rows run from `min` to `max`, `per` keysyms each
pub open spec fn in_table(min: u32, max: u32, per: u8, keysyms: Seq<u32>, kc: u32, keysym: u32) -> bool {
    &&& min <= kc <= max
    &&& keysym_in_table(kc, 0, min, per, keysyms) == Some(keysym)
}

/// `kc` is the lowest keycode whose first column holds the keysym
pub open spec fn first_in_table(min: u32, max: u32, per: u8, keysyms: Seq<u32>, kc: u32, keysym: u32) -> bool {
    &&& in_table(min, max, per, keysyms, kc, keysym)
    &&& forall|k2: u32| min <= k2 < kc ==> !#[trigger] in_table(min, max, per, keysyms, k2, keysym)
}

/// The lowest keycode whose first column holds the keysym, if any
pub open spec fn table_keycode(min: u32, max: u32, per: u8, keysyms: Seq<u32>, keysym: u32) -> Option<u32> {
    if exists|kc: u32| #[trigger] first_in_table(min, max, per, keysyms, kc, keysym) {
        Some(choose|kc: u32| #[trigger] first_in_table(min, max, per, keysyms, kc, keysym))
    } else {
        None
    }
}

/// `ks` without any occurrence of `k`
pub open spec fn without(ks: Seq<u32>, k: u32) -> Seq<u32> {
    ks.filter(|x: u32| x != k)
}

/// What mapping `keysym` does: `before` and `after` are the keymap before
/// and after, `r` the result, `b0` and `b1` the binding requests made of
/// the display server before and after. The first spare keycode is bound to
/// the keysym; it is used up, even if the display server refuses.
pub open spec fn mapping(
    before: KeyMap,
    after: KeyMap,
    keysym: u32,
    r: InputResult<u32>,
    b0: Seq<BindRequest>,
    b1: Seq<BindRequest>,
) -> bool {
    &&& after.same_table(&before)
    &&& after.held() == before.held()
    &&& before.unused().len() == 0 ==> {
        &&& b1 == b0
        &&& mapping_failed(r, keysym)
        &&& after.unused() == before.unused()
        &&& after.mapped() == before.mapped()
        &&& after.needs_regeneration() == before.needs_regeneration()
    }
    &&& before.unused().len() > 0 ==> {
        &&& bound_once(b0, b1, before.unused()[0], keysym, r is Ok)
        &&& after.unused() == before.unused().drop_first()
        &&& r is Ok ==> {
            &&& r == Ok::<u32, InputError>(before.unused()[0])
            &&& after.mapped() == before.mapped().insert(keysym, before.unused()[0])
            &&& after.needs_regeneration()
        }
        &&& r is Err ==> {
            &&& mapping_failed(r, keysym)
            &&& after.mapped() == before.mapped()
            &&& after.needs_regeneration() == before.needs_regeneration()
        }
    }
    &&& before.wf() ==> after.wf()
}

/// What unmapping `keysym` from `keycode` does: `before` and `after` are
/// the keymap before and after, `r` the result, `b0` and `b1` the binding
/// requests made of the display server before and after. The keycode is
/// bound to `NoSymbol`.
pub open spec fn unmapping(
    before: KeyMap,
    after: KeyMap,
    keysym: u32,
    keycode: u32,
    r: InputResult<()>,
    b0: Seq<BindRequest>,
    b1: Seq<BindRequest>,
) -> bool {
    &&& bound_once(b0, b1, keycode, XK_NoSymbol, r is Ok)
    &&& after.same_table(&before)
    &&& after.held() == before.held()
    &&& r is Ok ==> {
        &&& after.unused() == before.unused().push(keycode)
        &&& after.mapped() == before.mapped().remove(keysym)
        &&& after.needs_regeneration()
    }
    &&& r is Err ==> {
        &&& unmapping_failed(r, keysym)
        &&& after.unused() == before.unused()
        &&& after.mapped() == before.mapped()
        &&& after.needs_regeneration() == before.needs_regeneration()
    }
    &&& before.wf() && before.mapped().contains_key(keysym) && before.mapped()[keysym] == keycode
        ==> after.wf()
}

/// `e` says that making room failed: either unmapping a keysym whose
/// keycode is not held failed, naming that keysym, or every mapped keysym is
/// held, so none could be unmapped
pub open spec fn room_error(before: KeyMap, e: InputError) -> bool {
    ||| exists|sym: u32| #[trigger]
        before.mapped().contains_key(sym) && !before.held().contains(before.mapped()[sym]) && (e
            matches InputError::Unmapping(s) && s@ == keysym_debug(sym))
    ||| before.held_mappings() == before.mapped() && all_held_error(e)
}

/// `e` says that every mapped keycode is held, so none can be unmapped
pub open spec fn all_held_error(e: InputError) -> bool {
    e matches InputError::Unmapping(s) && s@
        == "all keys that were mapped are also currently held. no way to make room for new mappings"@
}

/// `r` is the error that mapping `keysym` failed, naming the keysym
pub open spec fn mapping_failed<T>(r: InputResult<T>, keysym: u32) -> bool {
    r matches Err(InputError::Mapping(s)) && s@ == keysym_debug(keysym)
}

/// `r` is the error that unmapping `keysym` failed, naming the keysym
pub open spec fn unmapping_failed<T>(r: InputResult<T>, keysym: u32) -> bool {
    r matches Err(InputError::Unmapping(s)) && s@ == keysym_debug(keysym)
}

impl KeyMap {
    /// The keysyms mapped to spare keycodes, each with its keycode
    pub closed spec fn mapped(&self) -> Map<u32, u32> {
        self.keymap_mapping.additionally_mapped@
    }

    /// The spare keycodes, in the order they get used
    pub closed spec fn unused(&self) -> Seq<u32> {
        self.keymap_mapping.unused_keycodes@
    }

    /// The keycodes held down, in the order they were pressed
    pub closed spec fn held(&self) -> Seq<u32> {
        self.keymap_state.held_keycodes@
    }

    /// Whether the keymap changed since it was last sent to the display
    /// server
    pub closed spec fn needs_regeneration(&self) -> bool {
        self.keymap_state.needs_regeneration
    }

    /// The lowest keycode of the keyboard
    pub closed spec fn keycode_min(&self) -> u32 {
        self.keymap_mapping.keycode_min
    }

    /// The highest keycode of the keyboard
    pub closed spec fn keycode_max(&self) -> u32 {
        self.keymap_mapping.keycode_max
    }

    /// The number of keysyms per keycode in the keyboard mapping table
    pub closed spec fn keysyms_per_keycode(&self) -> u8 {
        self.keymap_mapping.keysyms_per_keycode
    }

    /// The keyboard mapping table
    pub closed spec fn keysyms(&self) -> Seq<u32> {
        self.keymap_mapping.keysyms@
    }

    /// The keyboard mapping table holds a row for every keycode
    pub open spec fn table_fits(&self) -> bool {
        &&& self.keycode_min() <= self.keycode_max()
        &&& (self.keycode_max() - self.keycode_min() + 1) * self.keysyms_per_keycode() <= self.keysyms().len()
        &&& (self.keycode_max() - self.keycode_min() + 1) * self.keysyms_per_keycode() <= usize::MAX
    }

    /// A keycode is used for at most one purpose: the spare keycodes are
    /// distinct, no spare keycode is mapped, and no two keysyms are mapped
    /// to the same keycode
    pub open spec fn wf(&self) -> bool {
        &&& self.unused().no_duplicates()
        &&& forall|sym: u32| #[trigger]
            self.mapped().contains_key(sym) ==> !self.unused().contains(self.mapped()[sym])
        &&& forall|s1: u32, s2: u32|
            #![trigger self.mapped()[s1], self.mapped()[s2]]
            self.mapped().contains_key(s1) && self.mapped().contains_key(s2) && s1 != s2
                ==> self.mapped()[s1] != self.mapped()[s2]
    }

    /// The keysym is in the first column of the keycode's row
    pub open spec fn on_layout(&self, kc: u32, keysym: u32) -> bool {
        in_table(self.keycode_min(), self.keycode_max(), self.keysyms_per_keycode(), self.keysyms(), kc, keysym)
    }

    /// `kc` is the lowest keycode whose first column holds the keysym
    pub open spec fn first_on_layout(&self, kc: u32, keysym: u32) -> bool {
        first_in_table(
            self.keycode_min(),
            self.keycode_max(),
            self.keysyms_per_keycode(),
            self.keysyms(),
            kc,
            keysym,
        )
    }

    /// The keycode of the layout that a keysym is on: the lowest keycode
    /// whose first column holds it
    pub open spec fn layout_keycode(&self, keysym: u32) -> Option<u32> {
        table_keycode(self.keycode_min(), self.keycode_max(), self.keysyms_per_keycode(), self.keysyms(), keysym)
    }

    /// The parts of the keymap that mapping and unmapping leave alone
    pub open spec fn same_table(&self, other: &KeyMap) -> bool {
        &&& self.keycode_min() == other.keycode_min()
        &&& self.keycode_max() == other.keycode_max()
        &&& self.keysyms_per_keycode() == other.keysyms_per_keycode()
        &&& self.keysyms() == other.keysyms()
    }

    /// Create a new `KeyMap` with nothing mapped and nothing held
    pub fn new(
        keycode_min: u32,
        keycode_max: u32,
        unused_keycodes: VecDeque<u32>,
        keysyms_per_keycode: u8,
        keysyms: Vec<u32>,
    ) -> (r: Self)
        requires
            keycode_min <= keycode_max,
        ensures
            r.mapped() == Map::<u32, u32>::empty(),
            r.unused() == unused_keycodes@,
            r.held() == Seq::<u32>::empty(),
            r.needs_regeneration(),
            r.keycode_min() == keycode_min,
            r.keycode_max() == keycode_max,
            r.keysyms_per_keycode() == keysyms_per_keycode,
            r.keysyms() == keysyms@,
            r.wf() <==> unused_keycodes@.no_duplicates(),
    {
        let keymap_state = KeyMapState { held_keycodes: Vec::new(), needs_regeneration: true };
        let keymap_mapping = KeyMapMapping {
            additionally_mapped: HashMap::new(),
            keycode_min,
            keycode_max,
            keysyms_per_keycode,
            keysyms,
            unused_keycodes,
        };
        KeyMap { keymap_mapping, keymap_state }
    }

    /// The keycode of the layout that the keysym is on, if any
    fn keysym_to_keycode(&self, keysym: u32) -> (r: Option<u32>)
        requires
            self.table_fits(),
        ensures
            r == self.layout_keycode(keysym),
    {
        let keycode_min = self.keymap_mapping.keycode_min;
        let keycode_max = self.keymap_mapping.keycode_max;
        let mut i: u32 = keycode_min;
        loop
            invariant
                self.table_fits(),
                keycode_min == self.keycode_min(),
                keycode_max == self.keycode_max(),
                keycode_min <= i <= keycode_max,
                forall|k2: u32|
                    keycode_min <= k2 < i ==> !#[trigger] in_table(
                        self.keycode_min(),
                        self.keycode_max(),
                        self.keysyms_per_keycode(),
                        self.keysyms(),
                        k2,
                        keysym,
                    ),
            decreases keycode_max - i,
        {
            proof {
                assert((i - keycode_min + 1) * self.keysyms_per_keycode() <= (keycode_max - keycode_min + 1)
                    * self.keysyms_per_keycode()) by (nonlinear_arith)
                    requires
                        keycode_min <= i <= keycode_max,
                ;
            }
            let found = table_keysym(
                i,
                0,
                keycode_min,
                self.keymap_mapping.keysyms_per_keycode,
                &self.keymap_mapping.keysyms,
            );
            if found == Some(keysym) {
                proof {
                    assert(self.first_on_layout(i, keysym));
                    let c = choose|kc: u32|
                        #[trigger] first_in_table(
                            self.keycode_min(),
                            self.keycode_max(),
                            self.keysyms_per_keycode(),
                            self.keysyms(),
                            kc,
                            keysym,
                        );
                    assert(self.first_on_layout(c, keysym));
                    if c < i {
                        assert(!self.on_layout(c, keysym));
                    } else if c > i {
                        assert(!self.on_layout(i, keysym));
                    }
                }
                return Some(i);
            }
            assert(!self.on_layout(i, keysym));
            if i == keycode_max {
                proof {
                    assert forall|kc: u32|
                        !#[trigger] first_in_table(
                            self.keycode_min(),
                            self.keycode_max(),
                            self.keysyms_per_keycode(),
                            self.keysyms(),
                            kc,
                            keysym,
                        ) by {
                        if self.first_on_layout(kc, keysym) {
                            assert(self.on_layout(kc, keysym));
                        }
                    }
                }
                return None;
            }
            i = i + 1;
        }
    }

    /// Add the keysym to the keymap, on the first spare keycode. This does
    /// not apply the changes.
    ///
    /// The spare keycode is used up even if the display server refuses the
    /// mapping.
    pub fn map<C: Bind>(&mut self, c: &mut C, keysym: u32) -> (r: InputResult<u32>)
        ensures
            mapping(*old(self), *final(self), keysym, r, old(c).binds(), final(c).binds()),
    {
        let ghost old_unused = self.unused();
        let ghost old_mapped = self.mapped();
        match self.keymap_mapping.unused_keycodes.pop_front() {
            Some(unused_keycode) => {
                assert(old_unused[0] == unused_keycode);
                assert(self.unused() =~= old_unused.drop_first());
                let bound = c.bind_key(unused_keycode, keysym);
                assert(c.binds().drop_last() =~= old(c).binds());
                if bound.is_err() {
                    proof {
                        if old(self).wf() {
                            assert(old_mapped == self.mapped());
                            assert(old_unused == old(self).unused());
                            assert(old_mapped == old(self).mapped());
                            lemma_wf_drop_spare(old_unused, old_mapped);
                        }
                    }
                    return Err(InputError::Mapping(keysym_debug_string(keysym)));
                }
                self.keymap_state.needs_regeneration = true;
                let ghost before = self.mapped();
                self.keymap_mapping.additionally_mapped.insert(keysym, unused_keycode);
                proof {
                    if old(self).wf() {
                        assert(old_mapped == before);
                        assert(old_mapped == old(self).mapped());
                        lemma_wf_map_spare(old_unused, before, keysym);
                    }
                }
                Ok(unused_keycode)
            },
            None => {
                assert(self.unused() == old_unused);
                Err(InputError::Mapping(keysym_debug_string(keysym)))
            },
        }
    }
}

/// Dropping the first spare keycode keeps a keymap well formed
proof fn lemma_wf_drop_spare(unused: Seq<u32>, mapped: Map<u32, u32>)
    requires
        unused.len() > 0,
        unused.no_duplicates(),
        forall|sym: u32| #[trigger] mapped.contains_key(sym) ==> !unused.contains(mapped[sym]),
    ensures
        unused.drop_first().no_duplicates(),
        forall|sym: u32| #[trigger]
            mapped.contains_key(sym) ==> !unused.drop_first().contains(mapped[sym]),
{
    assert forall|sym: u32| #[trigger] mapped.contains_key(sym) implies !unused.drop_first().contains(
        mapped[sym],
    ) by {
        if unused.drop_first().contains(mapped[sym]) {
            let k = choose|k: int| 0 <= k < unused.drop_first().len() && unused.drop_first()[k] == mapped[sym];
            assert(unused[k + 1] == mapped[sym]);
        }
    }
}

/// Mapping a keysym to the first spare keycode keeps a keymap well formed
proof fn lemma_wf_map_spare(unused: Seq<u32>, mapped: Map<u32, u32>, keysym: u32)
    requires
        unused.len() > 0,
        unused.no_duplicates(),
        forall|sym: u32| #[trigger] mapped.contains_key(sym) ==> !unused.contains(mapped[sym]),
        forall|s1: u32, s2: u32|
            #![trigger mapped[s1], mapped[s2]]
            mapped.contains_key(s1) && mapped.contains_key(s2) && s1 != s2 ==> mapped[s1] != mapped[s2],
    ensures
        ({
            let m = mapped.insert(keysym, unused[0]);
            let u = unused.drop_first();
            &&& u.no_duplicates()
            &&& forall|sym: u32| #[trigger] m.contains_key(sym) ==> !u.contains(m[sym])
            &&& forall|s1: u32, s2: u32|
                #![trigger m[s1], m[s2]]
                m.contains_key(s1) && m.contains_key(s2) && s1 != s2 ==> m[s1] != m[s2]
        }),
{
    lemma_wf_drop_spare(unused, mapped);
    let m = mapped.insert(keysym, unused[0]);
    let u = unused.drop_first();
    assert forall|sym: u32| #[trigger] m.contains_key(sym) implies !u.contains(m[sym]) by {
        if sym == keysym {
            if u.contains(unused[0]) {
                let k = choose|k: int| 0 <= k < u.len() && u[k] == unused[0];
                assert(unused[k + 1] == unused[0]);
            }
        }
    }
    assert forall|s1: u32, s2: u32|
        #![trigger m[s1], m[s2]]
        m.contains_key(s1) && m.contains_key(s2) && s1 != s2 implies m[s1] != m[s2] by {
        if s1 == keysym {
            assert(mapped.contains_key(s2));
            assert(unused.contains(unused[0]));
        } else if s2 == keysym {
            assert(mapped.contains_key(s1));
            assert(unused.contains(unused[0]));
        }
    }
}

/// Unmapping a keysym from its keycode keeps a keymap well formed
proof fn lemma_wf_unmap(unused: Seq<u32>, mapped: Map<u32, u32>, keysym: u32)
    requires
        mapped.contains_key(keysym),
        unused.no_duplicates(),
        forall|sym: u32| #[trigger] mapped.contains_key(sym) ==> !unused.contains(mapped[sym]),
        forall|s1: u32, s2: u32|
            #![trigger mapped[s1], mapped[s2]]
            mapped.contains_key(s1) && mapped.contains_key(s2) && s1 != s2 ==> mapped[s1] != mapped[s2],
    ensures
        ({
            let m = mapped.remove(keysym);
            let u = unused.push(mapped[keysym]);
            &&& u.no_duplicates()
            &&& forall|sym: u32| #[trigger] m.contains_key(sym) ==> !u.contains(m[sym])
            &&& forall|s1: u32, s2: u32|
                #![trigger m[s1], m[s2]]
                m.contains_key(s1) && m.contains_key(s2) && s1 != s2 ==> m[s1] != m[s2]
        }),
{
    let kc = mapped[keysym];
    let m = mapped.remove(keysym);
    let u = unused.push(kc);
    assert(!unused.contains(kc));
    assert forall|a: int, b: int| 0 <= a < u.len() && 0 <= b < u.len() && a != b implies u[a] != u[b] by {
        if a == unused.len() as int {
            assert(unused.contains(u[b]));
        } else if b == unused.len() as int {
            assert(unused.contains(u[a]));
        }
    }
    assert forall|sym: u32| #[trigger] m.contains_key(sym) implies !u.contains(m[sym]) by {
        assert(mapped.contains_key(sym));
        assert(mapped[sym] != mapped[keysym]);
        if u.contains(m[sym]) {
            let k = choose|k: int| 0 <= k < u.len() && u[k] == m[sym];
            if k < unused.len() {
                assert(unused.contains(m[sym]));
            }
        }
    }
    assert forall|s1: u32, s2: u32|
        #![trigger m[s1], m[s2]]
        m.contains_key(s1) && m.contains_key(s2) && s1 != s2 implies m[s1] != m[s2] by {
        assert(mapped.contains_key(s1) && mapped.contains_key(s2));
        assert(mapped[s1] != mapped[s2]);
    }
}

/// Some keysym is mapped to `kc`
pub open spec fn is_mapped_keycode(mapped: Map<u32, u32>, kc: u32) -> bool {
    exists|sym: u32| #[trigger] mapped.contains_key(sym) && mapped[sym] == kc
}

/// `kc` is the keycode of a keysym that `before` maps and `after` no
/// longer does
pub open spec fn freed(before: Map<u32, u32>, after: Map<u32, u32>, kc: u32) -> bool {
    exists|sym: u32| #[trigger] before.contains_key(sym) && !after.contains_key(sym) && before[sym] == kc
}

/// The request unbinds a keycode that `km` maps a keysym to and that is
/// not held down
pub open spec fn unbinds_free_keycode(km: KeyMap, req: BindRequest) -> bool {
    &&& req.1 == XK_NoSymbol
    &&& is_mapped_keycode(km.mapped(), req.0)
    &&& !km.held().contains(req.0)
}

/// `b1` is `b0` followed by requests that unbind keycodes that `km` maps
/// and that are not held down, all accepted but maybe the last
pub open spec fn unbind_requests(km: KeyMap, b0: Seq<BindRequest>, b1: Seq<BindRequest>) -> bool {
    &&& b1.len() >= b0.len()
    &&& b1.take(b0.len() as int) == b0
    &&& forall|k: int| b0.len() <= k < b1.len() ==> unbinds_free_keycode(km, #[trigger] b1[k])
    &&& forall|k: int| b0.len() <= k < b1.len() - 1 ==> (#[trigger] b1[k]).2 is Ok
}

/// True when `v` holds `x`
fn holds(v: &Vec<u32>, x: u32) -> (r: bool)
    ensures
        r == v@.contains(x),
{
    let mut i: usize = 0;
    while i < v.len()
        invariant
            i <= v@.len(),
            forall|k: int| 0 <= k < i ==> v@[k] != x,
        decreases v@.len() - i,
    {
        if v[i] == x {
            assert(v@[i as int] == x);
            return true;
        }
        i = i + 1;
    }
    false
}

/// The keysyms of a map, each once
fn keys_of(m: &HashMap<u32, u32>) -> (r: Vec<u32>)
    ensures
        r@.no_duplicates(),
        r@.to_set() == m@.dom(),
{
    let mut out: Vec<u32> = Vec::new();
    proof {
        vstd::std_specs::hash::axiom_spec_keys_iter(m);
    }
    for sym in it: m.keys()
        invariant
            it.seq() == vstd::std_specs::hash::spec_keys_iter(m).remaining(),
            out@.len() == it.index(),
            forall|j: int| 0 <= j < out@.len() ==> out@[j] == *it.seq()[j],
    {
        out.push(*sym);
    }
    let ghost all = vstd::std_specs::hash::spec_keys_iter(m).remaining().unref();
    assert(out@ =~= all);
    out
}

impl KeyMap {
    /// Remove the keysym from the keymap and give its keycode back to the
    /// spare ones. This does not apply the changes.
    pub fn unmap<C: Bind>(&mut self, c: &mut C, keysym: u32, keycode: u32) -> (r: InputResult<()>)
        ensures
            unmapping(*old(self), *final(self), keysym, keycode, r, old(c).binds(), final(c).binds()),
    {
        let bound = c.bind_key(keycode, XK_NoSymbol);
        assert(c.binds().drop_last() =~= old(c).binds());
        if bound.is_err() {
            return Err(InputError::Unmapping(keysym_debug_string(keysym)));
        }
        let ghost old_unused = self.unused();
        let ghost old_mapped = self.mapped();
        self.keymap_state.needs_regeneration = true;
        self.keymap_mapping.unused_keycodes.push_back(keycode);
        self.keymap_mapping.additionally_mapped.remove(&keysym);
        proof {
            if old(self).wf() && old_mapped.contains_key(keysym) && old_mapped[keysym] == keycode {
                lemma_wf_unmap(old_unused, old_mapped, keysym);
            }
        }
        Ok(())
    }

    /// If no keycode is spare, unmap every mapped keysym whose keycode is
    /// not held, to make room. Keycodes that are held stay mapped. Stops at
    /// the first keysym that cannot be unmapped; fails as well if every
    /// mapped keycode is held.
    fn make_room<C: Bind>(&mut self, c: &mut C) -> (r: InputResult<()>)
        ensures
            unbind_requests(*old(self), old(c).binds(), final(c).binds()),
            final(c).binds().len() > old(c).binds().len() && r is Ok ==> final(c).binds().last().2 is Ok,
            old(self).unused().len() > 0 ==> final(c).binds() == old(c).binds(),
            r is Err ==> (final(c).binds().len() > old(c).binds().len() && final(c).binds().last().2 is Err)
                || (old(self).held_mappings() == old(self).mapped() && final(self).same_mapping(old(self))),
            final(self).same_table(old(self)),
            final(self).held() == old(self).held(),
            old(self).unused().len() > 0 ==> r is Ok && final(self).unused() == old(self).unused()
                && final(self).mapped() == old(self).mapped() && final(self).needs_regeneration()
                == old(self).needs_regeneration(),
            forall|sym: u32|
                #![trigger old(self).mapped().contains_key(sym)]
                old(self).mapped().contains_key(sym) && old(self).held().contains(old(self).mapped()[sym])
                    ==> final(self).mapped().contains_key(sym) && final(self).mapped()[sym]
                    == old(self).mapped()[sym],
            forall|sym: u32| #[trigger]
                final(self).mapped().contains_key(sym) ==> old(self).mapped().contains_key(sym)
                    && final(self).mapped()[sym] == old(self).mapped()[sym],
            old(self).unused().len() == 0 ==> forall|i: int|
                0 <= i < final(self).unused().len() ==> #[trigger] freed(
                    old(self).mapped(),
                    final(self).mapped(),
                    final(self).unused()[i],
                ),
            old(self).unused().len() == 0 ==> forall|kc: u32|
                #[trigger] final(self).unused().contains(kc) <==> freed(old(self).mapped(), final(self).mapped(), kc),
            old(self).unused().len() == 0 && r is Ok ==> {
                &&& final(self).unused().len() > 0
                &&& forall|sym: u32| #[trigger]
                    final(self).mapped().contains_key(sym) <==> old(self).mapped().contains_key(sym)
                        && old(self).held().contains(old(self).mapped()[sym])
            },
            r matches Err(e) ==> room_error(*old(self), e),
            old(self).unused().len() == 0 && (forall|sym: u32| #[trigger]
                old(self).mapped().contains_key(sym) ==> old(self).held().contains(old(self).mapped()[sym]))
                ==> r is Err,
            old(self).wf() ==> final(self).wf(),
    {
        let ghost b0 = c.binds();
        assert(b0.take(b0.len() as int) =~= b0);
        if self.keymap_mapping.unused_keycodes.len() != 0 {
            return Ok(());
        }
        let ghost m0 = self.mapped();
        let ghost held0 = self.held();
        let mapped_keys = self.keymap_mapping.additionally_mapped.clone();
        let syms = keys_of(&mapped_keys);
        let held_keycodes = self.keymap_state.held_keycodes.clone();
        assert(held_keycodes@ == held0);
        let mut made_room = false;
        let mut i: usize = 0;
        assert(self.unused() =~= Seq::<u32>::empty());
        while i < syms.len()
            invariant
                self.same_table(old(self)),
                self.held() == held0,
                held0 == old(self).held(),
                m0 == old(self).mapped(),
                held_keycodes@ == held0,
                mapped_keys@ == m0,
                syms@.no_duplicates(),
                syms@.to_set() == m0.dom(),
                i <= syms@.len(),
                old(self).unused().len() == 0,
                old(self).wf() ==> self.wf(),
                forall|sym: u32| #[trigger]
                    self.mapped().contains_key(sym) ==> m0.contains_key(sym) && self.mapped()[sym] == m0[sym],
                forall|k: int| #![trigger syms@[k]]
                    0 <= k < syms@.len() ==> (self.mapped().contains_key(syms@[k]) <==> (i <= k
                        || held0.contains(m0[syms@[k]]))),
                forall|j: int|
                    0 <= j < self.unused().len() ==> #[trigger] freed(m0, self.mapped(), self.unused()[j]),
                forall|sym: u32| #[trigger]
                    m0.contains_key(sym) && !self.mapped().contains_key(sym) ==> self.unused().contains(m0[sym]),
                made_room <==> self.unused().len() > 0,
                !made_room ==> self.mapped() == m0 && self.needs_regeneration() == old(self).needs_regeneration(),
                b0 == old(c).binds(),
                c.binds().len() >= b0.len(),
                c.binds().take(b0.len() as int) == b0,
                forall|k: int|
                    b0.len() <= k < c.binds().len() ==> unbinds_free_keycode(*old(self), #[trigger] c.binds()[k])
                        && c.binds()[k].2 is Ok,
            decreases syms@.len() - i,
        {
            let sym = syms[i];
            assert(syms@.to_set().contains(sym));
            assert(m0.contains_key(sym));
            let keycode = *mapped_keys.get(&sym).unwrap();
            if !holds(&held_keycodes, keycode) {
                assert(self.mapped().contains_key(sym));
                let ghost before = *self;
                let ghost cb = c.binds();
                let res = self.unmap(c, sym, keycode);
                proof {
                    assert(c.binds().take(b0.len() as int) =~= cb.take(b0.len() as int));
                    assert(is_mapped_keycode(old(self).mapped(), keycode));
                    assert(unbinds_free_keycode(*old(self), c.binds().last()));
                    assert(c.binds().len() > b0.len());
                    assert((c.binds().last().2 is Ok) == (res is Ok));
                    assert forall|k: int| b0.len() <= k < c.binds().len() - 1 implies #[trigger] c.binds()[k]
                        == cb[k] by {}
                }
                match res {
                    Ok(()) => {},
                    Err(e) => {
                        proof {
                            assert(old(self).mapped().contains_key(sym) && !old(self).held().contains(
                                old(self).mapped()[sym],
                            ));
                            assert(room_error(*old(self), e));
                            assert forall|s: u32| #![trigger old(self).mapped().contains_key(s)]
                                old(self).mapped().contains_key(s) && old(self).held().contains(old(self).mapped()[s])
                                implies self.mapped().contains_key(s) && self.mapped()[s] == old(self).mapped()[s] by {
                                assert(syms@.to_set().contains(s));
                                let k = choose|k: int| 0 <= k < syms@.len() && syms@[k] == s;
                                assert(self.mapped().contains_key(syms@[k]));
                            }
                        }
                        return Err(e);
                    },
                }
                proof {
                    assert forall|k: int| #![trigger syms@[k]]
                        0 <= k < syms@.len() implies (self.mapped().contains_key(syms@[k]) <==> (i + 1 <= k
                            || held0.contains(m0[syms@[k]]))) by {
                        if k == i {
                        } else {
                            assert(syms@[k] != sym);
                            assert(before.mapped().contains_key(syms@[k]) <==> (i <= k || held0.contains(
                                m0[syms@[k]],
                            )));
                        }
                    }
                    assert forall|j: int| 0 <= j < self.unused().len() implies #[trigger] freed(
                        m0,
                        self.mapped(),
                        self.unused()[j],
                    ) by {
                        if j == self.unused().len() - 1 {
                            assert(m0.contains_key(sym) && !self.mapped().contains_key(sym) && m0[sym]
                                == self.unused()[j]);
                        } else {
                            assert(self.unused()[j] == before.unused()[j]);
                            assert(freed(m0, before.mapped(), before.unused()[j]));
                            let s = choose|s: u32|
                                #[trigger] m0.contains_key(s) && !before.mapped().contains_key(s) && m0[s]
                                    == before.unused()[j];
                            assert(m0.contains_key(s) && !self.mapped().contains_key(s) && m0[s]
                                == self.unused()[j]);
                        }
                    }
                    assert forall|s: u32| #[trigger]
                        m0.contains_key(s) && !self.mapped().contains_key(s) implies self.unused().contains(m0[s]) by {
                        if s == sym {
                            assert(self.unused()[self.unused().len() - 1] == m0[s]);
                        } else {
                            assert(!before.mapped().contains_key(s));
                            assert(before.unused().contains(m0[s]));
                            let k = choose|k: int| 0 <= k < before.unused().len() && before.unused()[k] == m0[s];
                            assert(self.unused()[k] == m0[s]);
                        }
                    }
                }
                made_room = true;
            } else {
                proof {
                    assert forall|k: int| #![trigger syms@[k]]
                        0 <= k < syms@.len() implies (self.mapped().contains_key(syms@[k]) <==> (i + 1 <= k
                            || held0.contains(m0[syms@[k]]))) by {
                        if k == i {
                        }
                    }
                }
            }
            i = i + 1;
        }
        proof {
            assert forall|sym: u32| #[trigger]
                self.mapped().contains_key(sym) <==> m0.contains_key(sym) && held0.contains(m0[sym]) by {
                if m0.contains_key(sym) {
                    assert(syms@.to_set().contains(sym));
                    let k = choose|k: int| 0 <= k < syms@.len() && syms@[k] == sym;
                    assert(self.mapped().contains_key(syms@[k]) <==> held0.contains(m0[syms@[k]]));
                }
            }
        }
        if made_room {
            proof {
                assert(freed(m0, self.mapped(), self.unused()[0]));
                let s = choose|s: u32|
                    #[trigger] m0.contains_key(s) && !self.mapped().contains_key(s) && m0[s] == self.unused()[0];
                assert(!held0.contains(m0[s]));
            }
            return Ok(());
        }
        proof {
            assert forall|sym: u32| #[trigger] self.mapped().contains_key(sym) <==> m0.contains_key(sym) by {
                if m0.contains_key(sym) && !self.mapped().contains_key(sym) {
                    assert(!held0.contains(m0[sym]));
                }
            }
            assert(self.mapped() =~= m0);
            assert(old(self).held_mappings() =~= old(self).mapped());
            assert(self.unused() =~= old(self).unused());
        }
        Err(
            InputError::Unmapping(
                crate::text::string_from(
                    "all keys that were mapped are also currently held. no way to make room for new mappings",
                ),
            ),
        )
    }
}

/// `v` without any occurrence of `x`, in the same order
fn without_all(v: &Vec<u32>, x: u32) -> (r: Vec<u32>)
    ensures
        r@ == without(v@, x),
{
    let mut out: Vec<u32> = Vec::new();
    let mut i: usize = 0;
    while i < v.len()
        invariant
            i <= v@.len(),
            out@ == without(v@.take(i as int), x),
        decreases v@.len() - i,
    {
        proof {
            reveal(Seq::filter);
            assert(v@.take(i + 1).drop_last() =~= v@.take(i as int));
            assert(v@.take(i + 1).last() == v@[i as int]);
        }
        if v[i] != x {
            out.push(v[i]);
        }
        i = i + 1;
    }
    assert(v@.take(v@.len() as int) =~= v@);
    out
}

impl KeyMap {
    /// The keycodes that keysyms are mapped to, one for each mapped keysym,
    /// in no particular order: the keycodes to unbind when the connection
    /// is closed
    pub fn mapped_keycodes(&self) -> (r: Vec<u32>)
        ensures
            r@.len() == self.mapped().dom().len(),
            forall|i: int| 0 <= i < r@.len() ==> is_mapped_keycode(self.mapped(), #[trigger] r@[i]),
            forall|sym: u32| #[trigger] self.mapped().contains_key(sym) ==> r@.contains(self.mapped()[sym]),
    {
        let syms = keys_of(&self.keymap_mapping.additionally_mapped);
        let mut out: Vec<u32> = Vec::new();
        let mut i: usize = 0;
        proof {
            syms@.unique_seq_to_set();
        }
        while i < syms.len()
            invariant
                i <= syms@.len(),
                syms@.no_duplicates(),
                syms@.to_set() == self.mapped().dom(),
                out@.len() == i,
                forall|k: int| 0 <= k < i ==> out@[k] == self.mapped()[syms@[k]],
            decreases syms@.len() - i,
        {
            assert(syms@.to_set().contains(syms@[i as int]));
            let kc = *self.keymap_mapping.additionally_mapped.get(&syms[i]).unwrap();
            out.push(kc);
            i = i + 1;
        }
        proof {
            syms@.unique_seq_to_set();
            assert forall|k: int| 0 <= k < out@.len() implies is_mapped_keycode(self.mapped(), #[trigger] out@[k]) by {
                assert(syms@.to_set().contains(syms@[k]));
                assert(self.mapped().contains_key(syms@[k]));
            }
            assert forall|sym: u32| #[trigger] self.mapped().contains_key(sym) implies out@.contains(
                self.mapped()[sym],
            ) by {
                assert(syms@.to_set().contains(sym));
                let k = choose|k: int| 0 <= k < syms@.len() && syms@[k] == sym;
                assert(out@[k] == self.mapped()[sym]);
            }
        }
        out
    }

    /// Whether the keycode is held down
    pub fn is_keycode_held(&self, keycode: u32) -> (r: bool)
        ensures
            r == self.held().contains(keycode),
    {
        holds(&self.keymap_state.held_keycodes, keycode)
    }

    /// Record that a keycode was pressed or released. A held keycode is
    /// never unmapped to make room for another keysym.
    pub fn key(&mut self, keycode: u32, direction: Direction)
        ensures
            final(self).same_table(old(self)),
            final(self).mapped() == old(self).mapped(),
            final(self).unused() == old(self).unused(),
            final(self).needs_regeneration() == old(self).needs_regeneration(),
            final(self).held() == match direction {
                Direction::Press => old(self).held().push(keycode),
                Direction::Release => without(old(self).held(), keycode),
                Direction::Click => old(self).held(),
            },
    {
        match direction {
            Direction::Press => {
                self.keymap_state.held_keycodes.push(keycode);
            },
            Direction::Release => {
                let kept = without_all(&self.keymap_state.held_keycodes, keycode);
                self.keymap_state.held_keycodes = kept;
            },
            Direction::Click => {},
        }
    }
}

/// What looking up the keycode of `key` does: `before` and `after` are the
/// keymap before and after the lookup, `r` its result, `b0` and `b1` the
/// binding requests made of the display server before and after
pub open spec fn keycode_lookup(
    before: KeyMap,
    after: KeyMap,
    key: Key,
    r: InputResult<u32>,
    b0: Seq<BindRequest>,
    b1: Seq<BindRequest>,
) -> bool {
    &&& after.same_table(&before)
    &&& after.held() == before.held()
    &&& ({
        let sym = spec_key_to_keysym(key);
        &&& before.layout_keycode(sym) is Some ==> {
            &&& r == Ok::<u32, InputError>(before.layout_keycode(sym).unwrap())
            &&& after.same_mapping(&before)
            &&& b1 == b0
        }
        &&& before.layout_keycode(sym) is None && before.mapped().contains_key(sym) ==> {
            &&& r == Ok::<u32, InputError>(before.mapped()[sym])
            &&& after.same_mapping(&before)
            &&& b1 == b0
        }
        &&& before.layout_keycode(sym) is None && !before.mapped().contains_key(sym)
            && before.unused().len() > 0 ==> {
            &&& bound_once(b0, b1, before.unused()[0], sym, r is Ok)
            &&& after.unused() == before.unused().drop_first()
            &&& r is Ok ==> {
                &&& r == Ok::<u32, InputError>(before.unused()[0])
                &&& after.mapped() == before.mapped().insert(sym, before.unused()[0])
                &&& after.needs_regeneration()
            }
            &&& r is Err ==> mapping_failed(r, sym) && after.mapped() == before.mapped()
        }
        &&& before.layout_keycode(sym) is None && !before.mapped().contains_key(sym)
            && before.unused().len() == 0 ==> {
            &&& b1.len() >= b0.len()
            &&& b1.take(b0.len() as int) == b0
            &&& forall|k: int|
                b0.len() <= k < b1.len() - 1 ==> unbinds_free_keycode(before, #[trigger] b1[k]) && b1[k].2 is Ok
            &&& b1.len() > b0.len() ==> b1.last().1 == sym || unbinds_free_keycode(before, b1.last())
            &&& r is Ok ==> b1.len() > b0.len() && b1.last() == (r->Ok_0, sym, Ok::<(), ()>(()))
            &&& r is Err ==> (b1.len() > b0.len() && b1.last().2 is Err) || before.held_mappings()
                == before.mapped()
            &&& before.held_mappings() == before.mapped() ==> {
                &&& b1 == b0
                &&& after.same_mapping(&before)
                &&& r matches Err(e) && all_held_error(e)
            }
            &&& r is Ok ==> {
                &&& freed(before.mapped(), before.held_mappings(), r->Ok_0)
                &&& forall|kc: u32| #[trigger]
                    after.unused().contains(kc) ==> freed(before.mapped(), before.held_mappings(), kc)
                &&& forall|kc: u32| #[trigger]
                    freed(before.mapped(), before.held_mappings(), kc) ==> after.unused().contains(kc) || kc
                        == r->Ok_0
                &&& after.mapped() == before.held_mappings().insert(sym, r->Ok_0)
                &&& after.needs_regeneration()
            }
            &&& r matches Err(e) ==> room_error(before, e) || mapping_failed(r, sym)
        }
    })
    &&& forall|s: u32| #[trigger]
        before.held_mappings().contains_key(s) ==> after.mapped().contains_key(s)
            && after.mapped()[s] == before.mapped()[s]
    &&& before.wf() ==> after.wf()
}

impl KeyMap {
    /// The mapped keysyms whose keycodes are held down
    pub open spec fn held_mappings(&self) -> Map<u32, u32> {
        Map::new(
            |sym: u32| self.mapped().contains_key(sym) && self.held().contains(self.mapped()[sym]),
            |sym: u32| self.mapped()[sym],
        )
    }

    /// Nothing but the table is compared: the mapped keysyms, the spare
    /// keycodes and whether the keymap changed are the same
    pub open spec fn same_mapping(&self, other: &KeyMap) -> bool {
        &&& self.mapped() == other.mapped()
        &&& self.unused() == other.unused()
        &&& self.needs_regeneration() == other.needs_regeneration()
    }

    /// The keycode to press for a key. A keysym on the keyboard layout
    /// keeps its keycode; one that was mapped before keeps its mapping;
    /// any other keysym gets mapped to a spare keycode, after spare keycodes
    /// were made by unmapping every keysym whose keycode is not held if none
    /// was left.
    pub fn key_to_keycode<C: Bind>(&mut self, c: &mut C, key: Key) -> (r: InputResult<u32>)
        requires
            old(self).table_fits(),
        ensures
            keycode_lookup(*old(self), *final(self), key, r, old(c).binds(), final(c).binds()),
    {
        let sym = key_to_keysym(key);
        if let Some(keycode) = self.keysym_to_keycode(sym) {
            return Ok(keycode);
        }
        if let Some(keycode) = self.keymap_mapping.additionally_mapped.get(&sym) {
            return Ok(*keycode);
        }
        let ghost before = *self;
        let ghost b0 = c.binds();
        match self.make_room(c) {
            Ok(()) => {},
            Err(e) => {
                proof {
                    if before.held_mappings() == before.mapped() {
                        lemma_all_held_no_unbinds(before, b0, c.binds());
                        lemma_all_held_error(before, e);
                    }
                    assert forall|s: u32| #[trigger]
                        old(self).held_mappings().contains_key(s) implies self.mapped().contains_key(s)
                        && self.mapped()[s] == old(self).mapped()[s] by {
                        assert(before.mapped().contains_key(s));
                    }
                }
                return Err(e);
            },
        }
        let ghost middle = *self;
        let ghost b1 = c.binds();
        proof {
            if before.unused().len() == 0 && before.held_mappings() == before.mapped() {
                assert forall|s: u32| #[trigger] before.mapped().contains_key(s) implies before.held().contains(
                    before.mapped()[s],
                ) by {
                    assert(before.held_mappings().contains_key(s));
                }
            }
        }
        let r = self.map(c, sym);
        proof {
            if r is Ok {
                lemma_accepted(c.binds().last().2);
            }
            if before.held_mappings() == before.mapped() {
                lemma_all_held_no_unbinds(before, b0, b1);
            }
            if before.unused().len() == 0 {
                assert(c.binds().take(b0.len() as int) =~= b1.take(b0.len() as int));
                assert forall|k: int| b0.len() <= k < c.binds().len() - 1 implies #[trigger] c.binds()[k]
                    == b1[k] by {}
            }
            if before.unused().len() == 0 {
                assert forall|s: u32| #[trigger]
                    middle.mapped().contains_key(s) <==> before.held_mappings().contains_key(s) by {}
                assert(middle.mapped() =~= before.held_mappings());
                if r is Ok {
                    assert(freed(before.mapped(), middle.mapped(), middle.unused()[0]));
                    assert forall|kc: u32| #[trigger] self.unused().contains(kc) implies freed(
                        before.mapped(),
                        before.held_mappings(),
                        kc,
                    ) by {
                        let k = choose|k: int| 0 <= k < self.unused().len() && self.unused()[k] == kc;
                        assert(middle.unused()[k + 1] == kc);
                        assert(middle.unused().contains(kc));
                    }
                    assert forall|kc: u32| #[trigger] freed(before.mapped(), before.held_mappings(), kc) implies self.unused().contains(
                        kc,
                    ) || kc == middle.unused()[0] by {
                        assert(middle.unused().contains(kc));
                        let k = choose|k: int| 0 <= k < middle.unused().len() && middle.unused()[k] == kc;
                        if k > 0 {
                            assert(self.unused()[k - 1] == kc);
                        }
                    }
                }
            }
            assert forall|s: u32| #[trigger]
                old(self).held_mappings().contains_key(s) implies self.mapped().contains_key(s)
                && self.mapped()[s] == old(self).mapped()[s] by {
                assert(before.mapped().contains_key(s));
                assert(middle.mapped().contains_key(s));
            }
        }
        r
    }
}

/// An accepted binding request has the one answer there is
proof fn lemma_accepted(answer: Result<(), ()>)
    requires
        answer is Ok,
    ensures
        answer == Ok::<(), ()>(()),
{
    match answer {
        Ok(u) => {
            assert(u == ());
        },
        Err(_) => {},
    }
}

/// When every mapped keysym's keycode is held, making room can only fail
/// for that reason
proof fn lemma_all_held_error(km: KeyMap, e: InputError)
    requires
        room_error(km, e),
        km.held_mappings() == km.mapped(),
    ensures
        all_held_error(e),
{
    if !all_held_error(e) {
        let sym = choose|sym: u32| #[trigger]
            km.mapped().contains_key(sym) && !km.held().contains(km.mapped()[sym]) && (e matches InputError::Unmapping(
                s,
            ) && s@ == keysym_debug(sym));
        assert(km.held_mappings().contains_key(sym));
    }
}

/// When every mapped keysym's keycode is held, no keycode can be unbound
proof fn lemma_all_held_no_unbinds(km: KeyMap, b0: Seq<BindRequest>, b1: Seq<BindRequest>)
    requires
        unbind_requests(km, b0, b1),
        km.held_mappings() == km.mapped(),
    ensures
        b1 == b0,
{
    if b1.len() > b0.len() {
        let req = b1[b0.len() as int];
        assert(unbinds_free_keycode(km, req));
        let sym = choose|sym: u32| #[trigger] km.mapped().contains_key(sym) && km.mapped()[sym] == req.0;
        assert(km.held_mappings().contains_key(sym));
    }
    assert(b1 =~= b0.take(b0.len() as int)) by {
        assert(b1.take(b0.len() as int) == b0);
    }
}

/// Looking up a key again gives the keycode it was given before, changes
/// nothing and asks nothing of the display server: a keysym on the layout
/// keeps its keycode, and a keysym that was mapped to a spare keycode stays
/// mapped to it
pub proof fn lemma_lookup_is_stable(
    k0: KeyMap,
    k1: KeyMap,
    k2: KeyMap,
    key: Key,
    kc: u32,
    r2: InputResult<u32>,
    b0: Seq<BindRequest>,
    b1: Seq<BindRequest>,
    b2: Seq<BindRequest>,
)
    requires
        keycode_lookup(k0, k1, key, Ok(kc), b0, b1),
        keycode_lookup(k1, k2, key, r2, b1, b2),
    ensures
        r2 == Ok::<u32, InputError>(kc),
        b2 == b1,
        k2.same_mapping(&k1),
        k2.held() == k1.held(),
        k2.same_table(&k1),
{
    let sym = spec_key_to_keysym(key);
    assert(k1.layout_keycode(sym) == k0.layout_keycode(sym));
    if k0.layout_keycode(sym) is None {
        assert(k1.mapped().contains_key(sym) && k1.mapped()[sym] == kc);
    }
}

/// A full keymap makes room for a keysym that is neither on the layout nor
/// mapped. If the keycode of some mapped keysym is not held and the display
/// server accepts every request, the lookup succeeds: the keysyms on held
/// keycodes keep their keycodes, the others are unmapped, the keysym gets
/// one of the freed keycodes, and the spare keycodes are exactly the other
/// freed ones. If every mapped keycode is held, the
/// lookup fails with the error that says so, asks nothing of the display
/// server and changes nothing.
pub proof fn lemma_full_keymap_makes_room(
    k0: KeyMap,
    k1: KeyMap,
    key: Key,
    r: InputResult<u32>,
    b0: Seq<BindRequest>,
    b1: Seq<BindRequest>,
)
    requires
        keycode_lookup(k0, k1, key, r, b0, b1),
        k0.unused().len() == 0,
        k0.layout_keycode(spec_key_to_keysym(key)) is None,
        !k0.mapped().contains_key(spec_key_to_keysym(key)),
    ensures
        k0.held_mappings() != k0.mapped() && (forall|k: int| b0.len() <= k < b1.len() ==> (#[trigger] b1[k]).2 is Ok)
            ==> {
            &&& r is Ok
            &&& k1.mapped() == k0.held_mappings().insert(spec_key_to_keysym(key), r->Ok_0)
            &&& freed(k0.mapped(), k0.held_mappings(), r->Ok_0)
            &&& forall|kc: u32| #[trigger]
                k1.unused().contains(kc) ==> freed(k0.mapped(), k0.held_mappings(), kc)
            &&& forall|kc: u32| #[trigger]
                freed(k0.mapped(), k0.held_mappings(), kc) ==> k1.unused().contains(kc) || kc == r->Ok_0
        },
        k0.held_mappings() == k0.mapped() ==> {
            &&& b1 == b0
            &&& k1.same_mapping(&k0)
            &&& r matches Err(e) && all_held_error(e)
        },
{
    if k0.held_mappings() != k0.mapped() && (forall|k: int| b0.len() <= k < b1.len() ==> (#[trigger] b1[k]).2 is Ok) {
        if r is Err {
            assert(b1[b1.len() - 1].2 is Ok);
        }
    }
}

/// A keycode held down keeps the keysym mapped to it through any lookup:
/// only keysyms whose keycodes are not held are unmapped to make room
pub proof fn lemma_held_mapping_survives(
    k0: KeyMap,
    k1: KeyMap,
    key: Key,
    r: InputResult<u32>,
    sym: u32,
    b0: Seq<BindRequest>,
    b1: Seq<BindRequest>,
)
    requires
        keycode_lookup(k0, k1, key, r, b0, b1),
        k0.mapped().contains_key(sym),
        k0.held().contains(k0.mapped()[sym]),
    ensures
        k1.mapped().contains_key(sym),
        k1.mapped()[sym] == k0.mapped()[sym],
{
    assert(k0.held_mappings().contains_key(sym));
}

/// Pressing a keycode and releasing it again leaves the held keycodes as
/// they would be had the keycode only been released
pub proof fn lemma_press_release(held: Seq<u32>, keycode: u32)
    ensures
        without(held.push(keycode), keycode) == without(held, keycode),
{
    reveal(Seq::filter);
    assert(held.push(keycode).drop_last() =~= held);
}

/// Unmapping a keysym that was just mapped undoes the mapping: the mapped
/// keysyms are as before, and the keycode goes back to the spare ones, now
/// last in line. On the display server the keycode was bound to the keysym
/// and then to `NoSymbol`.
pub proof fn lemma_unmap_undoes_map(
    k0: KeyMap,
    k1: KeyMap,
    k2: KeyMap,
    keysym: u32,
    keycode: u32,
    b0: Seq<BindRequest>,
    b1: Seq<BindRequest>,
    b2: Seq<BindRequest>,
)
    requires
        !k0.mapped().contains_key(keysym),
        mapping(k0, k1, keysym, Ok(keycode), b0, b1),
        unmapping(k1, k2, keysym, keycode, Ok(()), b1, b2),
    ensures
        b2 == b0.push((keycode, keysym, Ok::<(), ()>(()))).push((keycode, XK_NoSymbol, Ok::<(), ()>(()))),
        k2.mapped() == k0.mapped(),
        k2.unused() == k0.unused().drop_first().push(k0.unused()[0]),
        k2.same_table(&k0),
        k2.held() == k0.held(),
        k0.wf() ==> k2.wf(),
{
    assert(k0.unused().len() > 0);
    assert(k2.mapped() =~= k0.mapped());
    assert(b1 =~= b1.drop_last().push(b1.last()));
    assert(b2 =~= b2.drop_last().push(b2.last()));
    lemma_accepted(b1.last().2);
    lemma_accepted(b2.last().2);
}

} // verus!
