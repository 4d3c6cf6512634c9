//! What the X11 backend decides before it talks to the X server: which
//! keycodes are spare, which keycodes belong to the eight modifiers, which
//! modifiers select a level of a key and the events that a key, a button, a
//! motion or a scroll turn into.

use vstd::prelude::*;

use std::collections::VecDeque;

use crate::input::{scroll_motion, Axis, Button, Coordinate, Direction, InputError, InputResult, NewConError};
use crate::keymap::KeyMap;
use crate::simulate::{InputCall, InputLog, Mouse};

verus! {

/// Row `j` of a table with `per` entries per row: the entries from
/// `j * per` up to the next row or to the end of the table
pub open spec fn table_row<T>(table: Seq<T>, per: int, j: int) -> Seq<T> {
    let start = j * per;
    let end = if (j + 1) * per <= table.len() {
        (j + 1) * per
    } else {
        table.len() as int
    };
    table.subrange(start, end)
}

/// The number of rows of a table of `len` entries with `per` entries per
/// row, the last row possibly shorter
pub open spec fn row_count(len: int, per: int) -> int {
    (len + per - 1) / per
}

/// Every keysym of the row is `NoSymbol`
pub open spec fn all_no_symbol(row: Seq<u32>) -> bool {
    forall|t: int| 0 <= t < row.len() ==> row[t] == 0
}

/// The keycodes among the first `n` rows of the keyboard mapping whose
/// keysyms are all `NoSymbol`, in order. Keycode 8 is never spare: the X
/// server subtracts 8 to get an evdev keycode, and keycode 0 does nothing.
pub open spec fn spare_keycodes(keycode_min: int, n: int, per: int, keysyms: Seq<u32>) -> Seq<u8>
    decreases n,
{
    if n <= 0 {
        Seq::empty()
    } else {
        let prev = spare_keycodes(keycode_min, n - 1, per, keysyms);
        let kc = keycode_min + n - 1;
        if all_no_symbol(table_row(keysyms, per, n - 1)) && kc != 8 {
            prev.push(kc as u8)
        } else {
            prev
        }
    }
}

/// The number of rows that pair with a keycode: rows past the last keycode
/// and keycodes past the last row are left out
pub open spec fn paired_rows(keycode_min: u8, keycode_max: u8, per: u8, len: int) -> int {
    let count = keycode_max - keycode_min + 1;
    let rows = row_count(len, per as int);
    if count <= rows {
        count
    } else {
        rows
    }
}

/// Where the loop over rows stops, it stopped at the row count
proof fn lemma_row_count(len: int, per: int, j: int)
    requires
        per > 0,
        j >= 0,
        len >= 0,
        j == 0 || (j - 1) * per < len,
    ensures
        j * per >= len ==> row_count(len, per) == j,
        j * per < len ==> row_count(len, per) > j,
{
    if j * per >= len {
        if j == 0 {
            assert(len == 0);
            assert((per - 1) / per == 0) by (nonlinear_arith)
                requires
                    per > 0,
            ;
        } else {
            assert((len + per - 1) / per == j) by (nonlinear_arith)
                requires
                    per > 0,
                    j > 0,
                    (j - 1) * per < len,
                    len <= j * per,
            ;
        }
    } else {
        assert((len + per - 1) / per > j) by (nonlinear_arith)
            requires
                per > 0,
                j >= 0,
                j * per < len,
        ;
    }
}

/// Whether every entry of `v` from `start` to `end` is `NoSymbol`
fn no_symbols_between(v: &Vec<u32>, start: usize, end: usize) -> (r: bool)
    requires
        start <= end <= v@.len(),
    ensures
        r == all_no_symbol(v@.subrange(start as int, end as int)),
{
    let mut t: usize = start;
    while t < end
        invariant
            start <= t <= end <= v@.len(),
            forall|u: int| start <= u < t ==> v@[u] == 0,
        decreases end - t,
    {
        if v[t] != 0 {
            assert(v@.subrange(start as int, end as int)[t - start] != 0);
            return false;
        }
        t = t + 1;
    }
    assert forall|u: int| 0 <= u < end - start implies v@.subrange(start as int, end as int)[u] == 0 by {
        assert(v@[start + u] == 0);
    }
    true
}

/// The keycodes whose keysyms in the keyboard mapping are all `NoSymbol`,
/// in increasing order, except keycode 8. The mapping lists
/// `keysyms_per_keycode` keysyms for each keycode from `keycode_min` on.
pub fn unused_keycodes(
    keycode_min: u8,
    keycode_max: u8,
    keysyms_per_keycode: u8,
    keysyms: &Vec<u32>,
) -> (r: VecDeque<u8>)
    requires
        keycode_min <= keycode_max,
        keysyms_per_keycode > 0,
    ensures
        r@ == spare_keycodes(
            keycode_min as int,
            paired_rows(keycode_min, keycode_max, keysyms_per_keycode, keysyms@.len() as int),
            keysyms_per_keycode as int,
            keysyms@,
        ),
{
    let per = keysyms_per_keycode as usize;
    let count: usize = (keycode_max - keycode_min) as usize + 1;
    let len = keysyms.len();
    let mut out: VecDeque<u8> = VecDeque::new();
    let mut j: usize = 0;
    loop
        invariant
            per == keysyms_per_keycode,
            per > 0,
            count == keycode_max - keycode_min + 1,
            count <= 256,
            len == keysyms@.len(),
            j <= count,
            j == 0 || (j - 1) * per < len,
            out@ == spare_keycodes(keycode_min as int, j as int, per as int, keysyms@),
        ensures
            out@ == spare_keycodes(
                keycode_min as int,
                paired_rows(keycode_min, keycode_max, keysyms_per_keycode, keysyms@.len() as int),
                per as int,
                keysyms@,
            ),
        decreases count - j,
    {
        assert(j * per <= 256 * 255) by (nonlinear_arith)
            requires
                j <= 256,
                per <= 255,
        ;
        let start = j * per;
        proof {
            lemma_row_count(len as int, per as int, j as int);
        }
        if j == count || start >= len {
            break;
        }
        let end = if len - start >= per {
            start + per
        } else {
            len
        };
        assert(end == if (j + 1) * per <= len { (j + 1) * per } else { len as int }) by (nonlinear_arith)
            requires
                start == j * per,
                end == if len - start >= per { start + per } else { len as int },
        ;
        let all = no_symbols_between(keysyms, start, end);
        let kc: u8 = keycode_min + j as u8;
        if all && kc != 8 {
            out.push_back(kc);
        }
        j = j + 1;
    }
    out
}

/// The keymap that the X11 backend starts with: the spare keycodes of the
/// keyboard mapping, nothing mapped and nothing held. Fails when no keycode
/// is spare.
pub fn new_keymap(
    keycode_min: u8,
    keycode_max: u8,
    keysyms_per_keycode: u8,
    keysyms: Vec<u32>,
) -> (r: Result<KeyMap, NewConError>)
    requires
        keycode_min <= keycode_max,
        keysyms_per_keycode > 0,
    ensures
        ({
            let spare = spare_keycodes(
                keycode_min as int,
                paired_rows(keycode_min, keycode_max, keysyms_per_keycode, keysyms@.len() as int),
                keysyms_per_keycode as int,
                keysyms@,
            );
            &&& spare.len() == 0 <==> r == Err::<KeyMap, NewConError>(NewConError::NoEmptyKeycodes)
            &&& r matches Ok(k) ==> {
                &&& k.unused() == spare.map_values(|kc: u8| kc as u32)
                &&& k.mapped() == Map::<u32, u32>::empty()
                &&& k.held() == Seq::<u32>::empty()
                &&& k.keycode_min() == keycode_min
                &&& k.keycode_max() == keycode_max
                &&& k.keysyms_per_keycode() == keysyms_per_keycode
                &&& k.keysyms() == keysyms@
                &&& k.wf()
            }
        }),
{
    let spare = unused_keycodes(keycode_min, keycode_max, keysyms_per_keycode, &keysyms);
    if spare.len() == 0 {
        return Err(NewConError::NoEmptyKeycodes);
    }
    proof {
        lemma_spare_increasing(
            keycode_min as int,
            paired_rows(keycode_min, keycode_max, keysyms_per_keycode, keysyms@.len() as int),
            keysyms_per_keycode as int,
            keysyms@,
        );
    }
    let mut wide: VecDeque<u32> = VecDeque::new();
    let mut i: usize = 0;
    while i < spare.len()
        invariant
            i <= spare@.len(),
            wide@ == spare@.take(i as int).map_values(|kc: u8| kc as u32),
        decreases spare@.len() - i,
    {
        let kc = spare[i];
        wide.push_back(kc as u32);
        assert(spare@.take(i + 1).map_values(|kc: u8| kc as u32) =~= spare@.take(i as int).map_values(
            |kc: u8| kc as u32,
        ).push(kc as u32));
        i = i + 1;
    }
    assert(spare@.take(spare@.len() as int) =~= spare@);
    proof {
        let w = wide@;
        assert forall|a: int, b: int| 0 <= a < w.len() && 0 <= b < w.len() && a != b implies w[a]
            != w[b] by {
            if a < b {
                assert(spare@[a] < spare@[b]);
            } else {
                assert(spare@[b] < spare@[a]);
            }
        }
    }
    Ok(KeyMap::new(keycode_min as u32, keycode_max as u32, wide, keysyms_per_keycode, keysyms))
}

/// The spare keycodes come in increasing order, each at least `keycode_min`
/// and below `keycode_min + n`
proof fn lemma_spare_increasing(keycode_min: int, n: int, per: int, keysyms: Seq<u32>)
    requires
        0 <= keycode_min,
        keycode_min + n <= 256,
    ensures
        ({
            let s = spare_keycodes(keycode_min, n, per, keysyms);
            &&& forall|a: int| 0 <= a < s.len() ==> keycode_min <= #[trigger] s[a] < keycode_min + n
            &&& forall|a: int, b: int| 0 <= a < b < s.len() ==> s[a] < s[b]
        }),
    decreases n,
{
    if n > 0 {
        lemma_spare_increasing(keycode_min, n - 1, per, keysyms);
        let prev = spare_keycodes(keycode_min, n - 1, per, keysyms);
        let kc = keycode_min + n - 1;
        assert((kc as u8) as int == kc);
        let s = spare_keycodes(keycode_min, n, per, keysyms);
        assert forall|a: int| 0 <= a < s.len() implies keycode_min <= #[trigger] s[a] < keycode_min + n by {
            if a < prev.len() {
                assert(s[a] == prev[a]);
            }
        }
        assert forall|a: int, b: int| 0 <= a < b < s.len() implies s[a] < s[b] by {
            assert(s[a] == prev[a]);
            if b < prev.len() {
                assert(s[b] == prev[b]);
            } else {
                assert(prev[a] < keycode_min + n - 1);
            }
        }
    }
}

/// `row` without the zero keycodes, which mark unused slots
pub open spec fn nonzero(row: Seq<u8>) -> Seq<u8> {
    row.filter(|kc: u8| kc != 0)
}

/// The keycodes of modifier `i` in a modifier mapping that lists `per`
/// keycodes for each modifier
pub open spec fn modifier_row(keycodes: Seq<u8>, per: int, i: int) -> Seq<u8> {
    if i * per < keycodes.len() {
        nonzero(table_row(keycodes, per, i))
    } else {
        Seq::empty()
    }
}

/// The entries of `v` from `start` to `end` that are not zero
fn nonzero_between(v: &Vec<u8>, start: usize, end: usize) -> (r: Vec<u8>)
    requires
        start <= end <= v@.len(),
    ensures
        r@ == nonzero(v@.subrange(start as int, end as int)),
{
    let mut out: Vec<u8> = Vec::new();
    let mut t: usize = start;
    while t < end
        invariant
            start <= t <= end <= v@.len(),
            out@ == nonzero(v@.subrange(start as int, t as int)),
        decreases end - t,
    {
        proof {
            reveal(Seq::filter);
            assert(v@.subrange(start as int, t + 1).drop_last() =~= v@.subrange(start as int, t as int));
        }
        if v[t] != 0 {
            out.push(v[t]);
        }
        t = t + 1;
    }
    out
}

/// The keycodes of the eight modifiers (Shift, Lock, Control, Mod1 to
/// Mod5) from the modifier mapping that the X server replies with, which
/// lists `keycodes_per_modifier` keycodes for each modifier, zero for an
/// unused slot. A reply for more than eight modifiers is refused.
pub fn modifier_keycodes(keycodes: &Vec<u8>, keycodes_per_modifier: usize) -> (r: Result<
    [Vec<u8>; 8],
    NewConError,
>)
    requires
        keycodes_per_modifier > 0,
    ensures
        row_count(keycodes@.len() as int, keycodes_per_modifier as int) > 8 <==> r
            == Err::<[Vec<u8>; 8], NewConError>(NewConError::Reply),
        r matches Ok(m) ==> forall|i: int|
            0 <= i < 8 ==> (#[trigger] m[i])@ == modifier_row(keycodes@, keycodes_per_modifier as int, i),
{
    let per = keycodes_per_modifier;
    let len = keycodes.len();
    proof {
        lemma_more_than_eight_rows(len as int, per as int);
    }
    if len / per > 8 || (len / per == 8 && len % per != 0) {
        return Err(NewConError::Reply);
    }
    let mut rows: [Vec<u8>; 8] = [
        Vec::new(),
        Vec::new(),
        Vec::new(),
        Vec::new(),
        Vec::new(),
        Vec::new(),
        Vec::new(),
        Vec::new(),
    ];
    let mut i: usize = 0;
    let mut start: usize = 0;
    while i < 8
        invariant
            per == keycodes_per_modifier,
            per > 0,
            len == keycodes@.len(),
            i <= 8,
            start == (if i * per < len { i * per } else { len as int }),
            forall|k: int| 0 <= k < i ==> (#[trigger] rows[k])@ == modifier_row(keycodes@, per as int, k),
            forall|k: int| i <= k < 8 ==> (#[trigger] rows[k])@ == Seq::<u8>::empty(),
        decreases 8 - i,
    {
        assert((i + 1) * per == i * per + per) by (nonlinear_arith);
        if start < len {
            let end = if len - start >= per {
                start + per
            } else {
                len
            };
            let row = nonzero_between(keycodes, start, end);
            rows[i] = row;
            start = end;
        } else {
            assert(i * per >= len);
        }
        i = i + 1;
    }
    Ok(rows)
}

/// A table has more than eight rows when it holds more than eight full
/// rows, which the quotient and remainder of its length tell
proof fn lemma_more_than_eight_rows(len: int, per: int)
    requires
        per > 0,
        0 <= len,
    ensures
        row_count(len, per) > 8 <==> (len / per > 8 || (len / per == 8 && len % per != 0)),
{
    assert(row_count(len, per) > 8 <==> len > 8 * per) by (nonlinear_arith)
        requires
            per > 0,
            0 <= len,
    ;
    assert(len > 8 * per <==> (len / per > 8 || (len / per == 8 && len % per != 0))) by (nonlinear_arith)
        requires
            per > 0,
            0 <= len,
    ;
}

/// One entry of an XKB key type: the real modifiers that select a level
pub struct KeyTypeEntry {
    /// Whether the entry is in effect
    pub active: bool,
    /// The level the modifiers select
    pub level: u8,
    /// The real modifiers, one bit each (Shift, Lock, Control, Mod1 to Mod5)
    pub mods_mask: u8,
}

/// An XKB key type: which modifiers select which level of a key
pub struct KeyType {
    pub map: Vec<KeyTypeEntry>,
}

/// The first active entry for `level`, if any
pub open spec fn first_level_entry(entries: Seq<KeyTypeEntry>, level: u8) -> Option<u8>
    decreases entries.len(),
{
    if entries.len() == 0 {
        None
    } else if entries[0].active && entries[0].level == level {
        Some(entries[0].mods_mask)
    } else {
        first_level_entry(entries.drop_first(), level)
    }
}

/// Bit `i` of `mask` is set
pub open spec fn bit_set(mask: u16, i: int) -> bool {
    mask & (1u16 << (i as u16)) != 0
}

/// The first keycode of every modifier among the first `n` whose bit is set
/// in `mask`, skipping modifiers without a keycode
pub open spec fn mask_keycodes(mods: Seq<Vec<u8>>, mask: u16, n: int) -> Seq<u8>
    decreases n,
{
    if n <= 0 {
        Seq::empty()
    } else {
        let prev = mask_keycodes(mods, mask, n - 1);
        if bit_set(mask, n - 1) && mods[n - 1]@.len() > 0 {
            prev.push(mods[n - 1]@[0])
        } else {
            prev
        }
    }
}

/// What the X11 backend knows of the keyboard to tell which modifiers to
/// hold for a level of a key: the keycodes of the eight modifiers, the XKB
/// key types and the key type of every keycode in each of the four groups
pub struct LevelModifiers {
    pub modifiers: [Vec<u8>; 8],
    pub min_keycode: u8,
    pub key_types: Vec<KeyType>,
    pub key_type_indices: Vec<[u8; 4]>,
}

impl LevelModifiers {
    /// The real modifier mask that selects `level` for `keycode`, read from
    /// the key type of the keycode's first group
    pub open spec fn spec_level_modifier_mask(&self, keycode: u8, level: u8) -> Option<u16> {
        if keycode < self.min_keycode {
            None
        } else {
            let index = keycode - self.min_keycode;
            if index >= self.key_type_indices@.len() {
                None
            } else {
                let kt = self.key_type_indices@[index]@[0];
                if kt >= self.key_types@.len() {
                    None
                } else {
                    match first_level_entry(self.key_types@[kt as int].map@, level) {
                        Some(m) => Some(m as u16),
                        None => None,
                    }
                }
            }
        }
    }

    /// Look up the real modifier mask that selects `level` for `keycode` in
    /// the XKB key types. The base group is used: a level in a higher group
    /// would also need a group switch.
    #[verifier::loop_isolation(false)]
    pub fn level_modifier_mask(&self, keycode: u8, level: u8) -> (r: Option<u16>)
        ensures
            r == self.spec_level_modifier_mask(keycode, level),
    {
        if keycode < self.min_keycode {
            return None;
        }
        let index = (keycode - self.min_keycode) as usize;
        if index >= self.key_type_indices.len() {
            return None;
        }
        let kt = self.key_type_indices[index][0] as usize;
        if kt >= self.key_types.len() {
            return None;
        }
        let entries = &self.key_types[kt].map;
        let ghost found = first_level_entry(entries@, level);
        assert(entries@.skip(0) =~= entries@);
        let mut i: usize = 0;
        while i < entries.len()
            invariant
                i <= entries@.len(),
                found == first_level_entry(entries@.skip(i as int), level),
            decreases entries@.len() - i,
        {
            assert(entries@.skip(i as int).drop_first() =~= entries@.skip(i + 1));
            assert(entries@.skip(i as int)[0] == entries@[i as int]);
            if entries[i].active && entries[i].level == level {
                return Some(entries[i].mods_mask as u16);
            }
            i = i + 1;
        }
        assert(entries@.skip(i as int).len() == 0);
        None
    }

    /// The keycodes of the modifiers to hold to reach `level` of `keycode`
    pub open spec fn spec_modifier_keycodes_for_level(&self, keycode: u8, level: u8) -> Seq<u8> {
        if level == 0 {
            Seq::empty()
        } else {
            match self.spec_level_modifier_mask(keycode, level) {
                None => Seq::empty(),
                Some(mask) => mask_keycodes(self.modifiers@, mask, 8),
            }
        }
    }

    /// The modifier keycodes needed to reach `level` for `keycode`: for every
    /// modifier whose bit is set in the level's mask, its first keycode. The
    /// base level needs none, and neither does a level that no key type
    /// entry selects.
    pub fn modifier_keycodes_for_level(&self, keycode: u8, level: u8) -> (r: Vec<u8>)
        ensures
            r@ == self.spec_modifier_keycodes_for_level(keycode, level),
    {
        if level == 0 {
            return Vec::new();
        }
        let mask = match self.level_modifier_mask(keycode, level) {
            Some(m) => m,
            None => {
                return Vec::new();
            },
        };
        let mut out: Vec<u8> = Vec::new();
        let mut i: usize = 0;
        while i < 8
            invariant
                i <= 8,
                out@ == mask_keycodes(self.modifiers@, mask, i as int),
            decreases 8 - i,
        {
            let keycodes = &self.modifiers[i];
            if mask & (1u16 << (i as u16)) != 0 && keycodes.len() > 0 {
                out.push(keycodes[0]);
            }
            i = i + 1;
        }
        out
    }
}

/// The keycodes among `mods` that are not held yet
pub open spec fn mods_to_press(held: Seq<u32>, mods: Seq<u8>) -> Seq<u8> {
    mods.filter(|kc: u8| !held.contains(kc as u32))
}

/// Press events for the keycodes, in order
pub open spec fn presses(kcs: Seq<u8>) -> Seq<(u16, Direction)> {
    kcs.map_values(|kc: u8| (kc as u16, Direction::Press))
}

/// Release events for the keycodes, in reverse order
pub open spec fn releases(kcs: Seq<u8>) -> Seq<(u16, Direction)> {
    kcs.reverse().map_values(|kc: u8| (kc as u16, Direction::Release))
}

/// The raw key events for a key with the modifiers of its level: the
/// modifiers that are not held yet are pressed before the key and released
/// after it, in reverse order
pub open spec fn spec_key_events(held: Seq<u32>, keycode: u8, mods: Seq<u8>, direction: Direction) -> Seq<
    (u16, Direction),
> {
    let to_press = mods_to_press(held, mods);
    match direction {
        Direction::Click => presses(to_press) + seq![(keycode as u16, Direction::Click)] + releases(
            to_press,
        ),
        Direction::Press => presses(to_press).push((keycode as u16, Direction::Press)),
        Direction::Release => seq![(keycode as u16, Direction::Release)] + releases(to_press),
    }
}

/// The raw key events, in order, that the X11 backend sends for a key: the
/// keycode of the key and the keycodes of the modifiers its level needs
pub fn key_events(keymap: &KeyMap, keycode: u8, mods: &Vec<u8>, direction: Direction) -> (r: Vec<
    (u16, Direction),
>)
    ensures
        r@ == spec_key_events(keymap.held(), keycode, mods@, direction),
{
    let mut to_press: Vec<u8> = Vec::new();
    let mut i: usize = 0;
    while i < mods.len()
        invariant
            i <= mods@.len(),
            to_press@ == mods_to_press(keymap.held(), mods@.take(i as int)),
        decreases mods@.len() - i,
    {
        proof {
            reveal(Seq::filter);
            assert(mods@.take(i + 1).drop_last() =~= mods@.take(i as int));
        }
        if !keymap.is_keycode_held(mods[i] as u32) {
            to_press.push(mods[i]);
        }
        i = i + 1;
    }
    assert(mods@.take(mods@.len() as int) =~= mods@);
    let ghost tp = to_press@;
    let mut out: Vec<(u16, Direction)> = Vec::new();
    if direction == Direction::Press || direction == Direction::Click {
        let mut k: usize = 0;
        while k < to_press.len()
            invariant
                k <= tp.len(),
                to_press@ == tp,
                out@ == presses(tp.take(k as int)),
            decreases tp.len() - k,
        {
            out.push((to_press[k] as u16, Direction::Press));
            assert(presses(tp.take(k + 1)) =~= presses(tp.take(k as int)).push(
                (tp[k as int] as u16, Direction::Press),
            ));
            k = k + 1;
        }
        assert(tp.take(tp.len() as int) =~= tp);
    }
    let ghost before_key = out@;
    out.push((keycode as u16, direction));
    if direction == Direction::Release || direction == Direction::Click {
        let ghost with_key = out@;
        let mut k: usize = to_press.len();
        while k > 0
            invariant
                k <= tp.len(),
                to_press@ == tp,
                out@ == with_key + releases(tp.skip(k as int)),
            decreases k,
        {
            k = k - 1;
            out.push((to_press[k] as u16, Direction::Release));
            assert(releases(tp.skip(k as int)) =~= releases(tp.skip(k + 1)).push(
                (tp[k as int] as u16, Direction::Release),
            ));
        }
        assert(tp.skip(0) =~= tp);
    }
    proof {
        match direction {
            Direction::Press => {
                assert(out@ =~= presses(tp).push((keycode as u16, Direction::Press)));
            },
            Direction::Release => {
                assert(before_key =~= Seq::<(u16, Direction)>::empty());
                assert(out@ =~= seq![(keycode as u16, Direction::Release)] + releases(tp));
            },
            Direction::Click => {
                assert(out@ =~= presses(tp) + seq![(keycode as u16, Direction::Click)] + releases(tp));
            },
        }
    }
    out
}

/// The keycode of a raw key event on X11, where keycodes are bytes
pub fn raw_keycode(keycode: u16) -> (r: InputResult<u8>)
    ensures
        keycode <= 255 ==> r == Ok::<u8, InputError>(keycode as u8),
        keycode > 255 ==> r == Err::<u8, InputError>(
            InputError::InvalidInput("Keycode was too large. It has to fit in u8 on X11"),
        ),
{
    if keycode > 255 {
        return Err(InputError::InvalidInput("Keycode was too large. It has to fit in u8 on X11"));
    }
    Ok(keycode as u8)
}

/// Whether a direction sends a press event and whether it sends a release
/// event
pub fn press_and_release(direction: Direction) -> (r: (bool, bool))
    ensures
        r.0 <==> (direction == Direction::Press || direction == Direction::Click),
        r.1 <==> (direction == Direction::Release || direction == Direction::Click),
{
    match direction {
        Direction::Press => (true, false),
        Direction::Release => (false, true),
        Direction::Click => (true, true),
    }
}

/// The X button number of a mouse button
pub fn button_detail(button: Button) -> (r: u8)
    ensures
        r == crate::xdo::spec_mousebutton(button),
{
    match button {
        Button::Left => 1,
        Button::Middle => 2,
        Button::Right => 3,
        Button::ScrollUp => 4,
        Button::ScrollDown => 5,
        Button::ScrollLeft => 6,
        Button::ScrollRight => 7,
        Button::Back => 8,
        Button::Forward => 9,
    }
}

/// The detail and the position of a motion event: detail 1 for a relative
/// motion and 0 for an absolute one. The coordinates have to fit in `i16`.
pub fn motion_event(x: i32, y: i32, coordinate: Coordinate) -> (r: InputResult<(u8, i16, i16)>)
    ensures
        (i16::MIN <= x <= i16::MAX && i16::MIN <= y <= i16::MAX) ==> r == Ok::<(u8, i16, i16), InputError>(
            (
                if coordinate == Coordinate::Rel {
                    1u8
                } else {
                    0u8
                },
                x as i16,
                y as i16,
            ),
        ),
        !(i16::MIN <= x <= i16::MAX && i16::MIN <= y <= i16::MAX) ==> r == Err::<(u8, i16, i16), InputError>(
            InputError::InvalidInput("the coordinates cannot be negative and must fit in i16"),
        ),
{
    let detail: u8 = match coordinate {
        Coordinate::Rel => 1,
        Coordinate::Abs => 0,
    };
    if x < -32768 || x > 32767 || y < -32768 || y > 32767 {
        return Err(InputError::InvalidInput("the coordinates cannot be negative and must fit in i16"));
    }
    Ok((detail, x as i16, y as i16))
}

/// The scroll button that the X11 backend clicks: positive lengths scroll
/// down or right, the others up or left
pub open spec fn spec_scroll_button(length: i32, axis: Axis) -> Button {
    if length > 0 {
        match axis {
            Axis::Vertical => Button::ScrollDown,
            Axis::Horizontal => Button::ScrollRight,
        }
    } else {
        match axis {
            Axis::Vertical => Button::ScrollUp,
            Axis::Horizontal => Button::ScrollLeft,
        }
    }
}

/// Scrolling clicks the button that scrolls along the axis in the
/// direction of the length: negative lengths scroll up or left, positive
/// ones down or right, so lengths of opposite signs click opposite buttons
pub proof fn lemma_scroll_direction(length: i32, axis: Axis)
    requires
        length != 0,
    ensures
        scroll_motion(spec_scroll_button(length, axis)) == Some((axis, if length < 0 { -1int } else { 1int })),
        length != i32::MIN ==> spec_scroll_button((-length) as i32, axis) != spec_scroll_button(length, axis),
{
}

/// How the X11 backend scrolls: the button to click and how many times
pub fn scroll_clicks(length: i32, axis: Axis) -> (r: (Button, u32))
    requires
        length != i32::MIN,
    ensures
        r.0 == spec_scroll_button(length, axis),
        r.1 == crate::input::abs_int(length as int),
{
    let button = match (length > 0, axis) {
        (true, Axis::Vertical) => Button::ScrollDown,
        (false, Axis::Vertical) => Button::ScrollUp,
        (true, Axis::Horizontal) => Button::ScrollRight,
        (false, Axis::Horizontal) => Button::ScrollLeft,
    };
    let count: u32 = if length < 0 {
        (-length) as u32
    } else {
        length as u32
    };
    (button, count)
}

/// `calls` are clicks of `button`, `n` of them, made until the first one
/// fails, and `r` is what they result in
pub open spec fn click_calls(button: Button, n: nat, calls: Seq<InputCall>, r: InputResult<()>) -> bool {
    &&& forall|k: int|
        0 <= k < calls.len() - 1 ==> #[trigger] calls[k] == InputCall::Button(button, Direction::Click, Ok(()))
    &&& r is Ok ==> calls.len() == n && (n > 0 ==> calls.last() == InputCall::Button(
        button,
        Direction::Click,
        Ok(()),
    ))
    &&& r matches Err(e) ==> 1 <= calls.len() <= n && calls.last() == InputCall::Button(
        button,
        Direction::Click,
        Err(e),
    )
}

/// Scroll the way the X11 backend does: click the scroll button once for
/// each unit of `length`, stopping at the first click that fails
pub fn scroll_by_clicks<M: Mouse>(m: &mut M, length: i32, axis: Axis) -> (r: InputResult<()>)
    requires
        length != i32::MIN,
    ensures
        final(m).calls().len() >= old(m).calls().len(),
        final(m).calls().take(old(m).calls().len() as int) == old(m).calls(),
        click_calls(
            spec_scroll_button(length, axis),
            crate::input::abs_int(length as int) as nat,
            final(m).calls().skip(old(m).calls().len() as int),
            r,
        ),
{
    let (button, count) = scroll_clicks(length, axis);
    let ghost start = m.calls();
    let mut i: u32 = 0;
    assert(m.calls().take(start.len() as int) =~= start);
    while i < count
        invariant
            i <= count,
            count == crate::input::abs_int(length as int),
            button == spec_scroll_button(length, axis),
            start == old(m).calls(),
            m.calls().len() == start.len() + i,
            m.calls().take(start.len() as int) == start,
            forall|k: int|
                start.len() <= k < m.calls().len() ==> #[trigger] m.calls()[k] == InputCall::Button(
                    button,
                    Direction::Click,
                    Ok(()),
                ),
        decreases count - i,
    {
        let ghost before = m.calls();
        let res = m.button(button, Direction::Click);
        assert(m.calls().take(start.len() as int) =~= before.take(start.len() as int));
        match res {
            Ok(u) => {
                assert(u == ());
                assert(m.calls()[m.calls().len() - 1] == InputCall::Button(button, Direction::Click, Ok(())));
                assert forall|k: int| start.len() <= k < m.calls().len() - 1 implies #[trigger] m.calls()[k]
                    == before[k] by {}
            },
            Err(e) => {
                proof {
                    let done = m.calls().skip(start.len() as int);
                    assert forall|k: int| 0 <= k < done.len() - 1 implies #[trigger] done[k]
                        == InputCall::Button(button, Direction::Click, Ok(())) by {
                        assert(before[start.len() + k] == InputCall::Button(button, Direction::Click, Ok(())));
                    }
                    assert(done.last() == m.calls().last());
                }
                return Err(e);
            },
        }
        i = i + 1;
    }
    proof {
        let done = m.calls().skip(start.len() as int);
        assert forall|k: int| 0 <= k < done.len() implies #[trigger] done[k] == InputCall::Button(
            button,
            Direction::Click,
            Ok(()),
        ) by {
            assert(m.calls()[start.len() + k] == InputCall::Button(button, Direction::Click, Ok(())));
        }
        if count > 0 {
            assert(done.last() == done[done.len() - 1]);
        }
    }
    Ok(())
}

/// The id of the first input device with the use, where `devices` lists
/// each device's use and id as the X server lists them
pub fn device_id(devices: &Vec<(u8, u8)>, usage: u8) -> (r: InputResult<u8>)
    ensures
        r matches Ok(id) ==> exists|k: int|
            0 <= k < devices@.len() && #[trigger] devices@[k] == (usage, id) && forall|j: int|
                0 <= j < k ==> devices@[j].0 != usage,
        r is Err ==> {
            &&& r == Err::<u8, InputError>(
                InputError::Simulate("error with the reply from listing input devices with x11rb"),
            )
            &&& forall|j: int| 0 <= j < devices@.len() ==> devices@[j].0 != usage
        },
{
    let mut k: usize = 0;
    while k < devices.len()
        invariant
            k <= devices@.len(),
            forall|j: int| 0 <= j < k ==> devices@[j].0 != usage,
        decreases devices@.len() - k,
    {
        if devices[k].0 == usage {
            assert(devices@[k as int] == (usage, devices@[k as int].1));
            return Ok(devices[k].1);
        }
        k = k + 1;
    }
    Err(InputError::Simulate("error with the reply from listing input devices with x11rb"))
}

} // verus!
