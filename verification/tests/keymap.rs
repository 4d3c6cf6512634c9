use std::collections::VecDeque;

use enigo::keymap::{Bind, BindRequest, KeyMap};
use enigo::{Direction, InputError, Key};

/// A display server that accepts or refuses every binding, and keeps the
/// requests it was sent
struct Server {
    accept: bool,
    sent: Vec<(u32, u32)>,
}

impl Bind for Server {
    fn binds(&self) -> vstd::seq::Seq<BindRequest> {
        unreachable!("the record of binding requests exists for verification only")
    }

    fn bind_key(&mut self, keycode: u32, keysym: u32) -> Result<(), ()> {
        self.sent.push((keycode, keysym));
        if self.accept {
            Ok(())
        } else {
            Err(())
        }
    }
}

fn accept() -> Server {
    Server { accept: true, sent: Vec::new() }
}

fn refuse() -> Server {
    Server { accept: false, sent: Vec::new() }
}

/// Keycodes 8 to 11 with two keysyms each: 8 is `a` and `A`, 9 and 10 are
/// spare, 11 is not offered as spare
fn small_keymap() -> KeyMap {
    KeyMap::new(
        8,
        11,
        VecDeque::from(vec![9, 10]),
        2,
        vec![0x61, 0x41, 0, 0, 0, 0, 0, 0],
    )
}

#[test]
fn keysym_on_the_layout_keeps_its_keycode() {
    let mut km = small_keymap();
    assert_eq!(km.key_to_keycode(&mut accept(), Key::Unicode('a')), Ok(8));
}

#[test]
fn only_the_first_column_is_searched() {
    // `A` is in the second column of keycode 8, so it gets a spare keycode
    let mut km = small_keymap();
    assert_eq!(km.key_to_keycode(&mut accept(), Key::Unicode('A')), Ok(9));
}

#[test]
fn single_column_layout_reads_the_upper_case_form() {
    // with one keysym per keycode, xkeysym reads the first column as the
    // upper case form of the letter
    let mut km = KeyMap::new(8, 9, VecDeque::from(vec![9]), 1, vec![0x61, 0]);
    assert_eq!(km.key_to_keycode(&mut accept(), Key::Unicode('A')), Ok(8));
    assert_eq!(km.key_to_keycode(&mut accept(), Key::Unicode('a')), Ok(9));
}

#[test]
fn keysym_off_the_layout_gets_a_spare_keycode_once() {
    let mut km = small_keymap();
    assert_eq!(km.key_to_keycode(&mut accept(), Key::Unicode('b')), Ok(9));
    assert_eq!(km.key_to_keycode(&mut accept(), Key::Unicode('b')), Ok(9));
    assert_eq!(km.key_to_keycode(&mut accept(), Key::Unicode('c')), Ok(10));
    assert_eq!(km.key_to_keycode(&mut accept(), Key::Unicode('b')), Ok(9));
}

#[test]
fn full_keymap_unmaps_keys_that_are_not_held() {
    let mut km = small_keymap();
    assert_eq!(km.key_to_keycode(&mut accept(), Key::Unicode('b')), Ok(9));
    assert_eq!(km.key_to_keycode(&mut accept(), Key::Unicode('c')), Ok(10));
    km.key(9, Direction::Press);
    // 'b' is held on 9, so only 10 can be freed for 'd'
    assert_eq!(km.key_to_keycode(&mut accept(), Key::Unicode('d')), Ok(10));
    // 'b' kept its keycode
    assert_eq!(km.key_to_keycode(&mut accept(), Key::Unicode('b')), Ok(9));
}

#[test]
fn full_keymap_with_every_key_held_fails() {
    let mut km = small_keymap();
    assert_eq!(km.key_to_keycode(&mut accept(), Key::Unicode('b')), Ok(9));
    assert_eq!(km.key_to_keycode(&mut accept(), Key::Unicode('c')), Ok(10));
    km.key(9, Direction::Press);
    km.key(10, Direction::Press);
    assert_eq!(
        km.key_to_keycode(&mut accept(), Key::Unicode('d')),
        Err(InputError::Unmapping(
            "all keys that were mapped are also currently held. no way to make room for new mappings"
                .to_string()
        ))
    );
    km.key(10, Direction::Release);
    assert_eq!(km.key_to_keycode(&mut accept(), Key::Unicode('d')), Ok(10));
}

#[test]
fn held_keycodes_are_tracked() {
    let mut km = small_keymap();
    assert!(!km.is_keycode_held(9));
    km.key(9, Direction::Press);
    km.key(9, Direction::Press);
    assert!(km.is_keycode_held(9));
    km.key(9, Direction::Click);
    assert!(km.is_keycode_held(9));
    km.key(9, Direction::Release);
    assert!(!km.is_keycode_held(9));
}

#[test]
fn refused_mapping_names_the_keysym() {
    let mut km = small_keymap();
    assert_eq!(
        km.key_to_keycode(&mut refuse(), Key::Unicode('b')),
        Err(InputError::Mapping("XK_b".to_string()))
    );
    // the spare keycode was used up
    assert_eq!(km.key_to_keycode(&mut accept(), Key::Unicode('b')), Ok(10));
}

#[test]
fn map_without_spare_keycodes_fails() {
    let mut km = KeyMap::new(8, 8, VecDeque::new(), 1, vec![0]);
    assert_eq!(
        km.map(&mut accept(), 0x62),
        Err(InputError::Mapping("XK_b".to_string()))
    );
    // a keysym without a name is written in hexadecimal
    assert_eq!(
        km.map(&mut accept(), 0x12345678),
        Err(InputError::Mapping("0x12345678".to_string()))
    );
    assert_eq!(
        km.map(&mut accept(), 0x1234abcd),
        Err(InputError::Mapping("0x1234abcd".to_string()))
    );
}

#[test]
fn unmap_gives_the_keycode_back() {
    let mut km = KeyMap::new(8, 9, VecDeque::from(vec![9]), 1, vec![0, 0]);
    assert_eq!(km.map(&mut accept(), 0x62), Ok(9));
    assert_eq!(km.unmap(&mut accept(), 0x62, 9), Ok(()));
    assert_eq!(km.map(&mut accept(), 0x63), Ok(9));
    assert_eq!(
        km.unmap(&mut refuse(), 0x63, 9),
        Err(InputError::Unmapping("XK_c".to_string()))
    );
}

#[test]
fn map_binds_the_spare_keycode_and_unmap_unbinds_it() {
    let mut km = KeyMap::new(8, 9, VecDeque::from(vec![9]), 1, vec![0, 0]);
    let mut server = accept();
    assert_eq!(km.map(&mut server, 0x62), Ok(9));
    assert_eq!(km.unmap(&mut server, 0x62, 9), Ok(()));
    assert_eq!(server.sent, vec![(9, 0x62), (9, 0)]);
}

#[test]
fn lookups_bind_only_keysyms_off_the_layout() {
    let mut km = small_keymap();
    let mut server = accept();
    assert_eq!(km.key_to_keycode(&mut server, Key::Unicode('a')), Ok(8));
    assert_eq!(km.key_to_keycode(&mut server, Key::Unicode('b')), Ok(9));
    assert_eq!(km.key_to_keycode(&mut server, Key::Unicode('b')), Ok(9));
    assert_eq!(km.key_to_keycode(&mut server, Key::Unicode('c')), Ok(10));
    // no spare keycode is left: both mappings are unbound before 'd' is bound
    let d = km.key_to_keycode(&mut server, Key::Unicode('d'));
    assert!(d == Ok(9) || d == Ok(10));
    assert_eq!(server.sent.len(), 5);
    assert_eq!(&server.sent[..2], &[(9, 0x62), (10, 0x63)]);
    assert_eq!(server.sent[2].1, 0);
    assert_eq!(server.sent[3].1, 0);
    assert_eq!(server.sent[4], (d.unwrap(), 0x64));
}
