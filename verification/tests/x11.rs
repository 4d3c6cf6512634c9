use std::collections::VecDeque;

use enigo::keymap::{Bind, BindRequest, KeyMap};
use enigo::x11::{
    button_detail, key_events, modifier_keycodes, motion_event, new_keymap, press_and_release,
    raw_keycode, scroll_clicks, unused_keycodes, KeyType, KeyTypeEntry, LevelModifiers,
};
use enigo::{Axis, Button, Coordinate, Direction, InputError, NewConError};

/// A display server that accepts every binding
struct Accept;

impl Bind for Accept {
    fn binds(&self) -> vstd::seq::Seq<BindRequest> {
        unreachable!("the record of binding requests exists for verification only")
    }

    fn bind_key(&mut self, _keycode: u32, _keysym: u32) -> Result<(), ()> {
        Ok(())
    }
}

#[test]
fn spare_keycodes_are_the_empty_rows_but_eight() {
    // keycodes 8 to 12, two keysyms each; 8 and 11 are empty, 12 half used
    let keysyms = vec![0, 0, 0x61, 0x41, 0x62, 0, 0, 0, 0, 0x63];
    assert_eq!(unused_keycodes(8, 12, 2, &keysyms), VecDeque::from(vec![11]));
}

#[test]
fn spare_keycodes_stop_at_the_shorter_of_rows_and_keycodes() {
    // more rows than keycodes
    assert_eq!(unused_keycodes(10, 11, 1, &vec![0, 0, 0, 0]), VecDeque::from(vec![10, 11]));
    // more keycodes than rows; the last row is short
    assert_eq!(unused_keycodes(10, 20, 2, &vec![0, 0, 5, 0, 0]), VecDeque::from(vec![10, 12]));
    assert_eq!(unused_keycodes(10, 20, 2, &vec![]), VecDeque::new());
}

#[test]
fn a_keymap_needs_a_spare_keycode() {
    assert!(matches!(
        new_keymap(8, 9, 1, vec![0x61, 0x62]),
        Err(NewConError::NoEmptyKeycodes)
    ));
    let mut km = match new_keymap(8, 9, 1, vec![0x61, 0]) {
        Ok(km) => km,
        Err(e) => panic!("unexpected error {e:?}"),
    };
    assert_eq!(km.key_to_keycode(&mut Accept, enigo::Key::Unicode('x')), Ok(9));
}

#[test]
fn modifier_mapping_is_split_per_modifier() {
    // two keycodes per modifier, zero marks an unused slot
    let keycodes = vec![50, 62, 66, 0, 37, 105, 0, 0];
    let m = modifier_keycodes(&keycodes, 2).unwrap();
    assert_eq!(m[0], vec![50, 62]);
    assert_eq!(m[1], vec![66]);
    assert_eq!(m[2], vec![37, 105]);
    assert_eq!(m[3], Vec::<u8>::new());
    for row in m.iter().skip(4) {
        assert!(row.is_empty());
    }
}

#[test]
fn more_than_eight_modifiers_are_refused() {
    let keycodes = vec![1; 9];
    assert_eq!(modifier_keycodes(&keycodes, 1).err(), Some(NewConError::Reply));
    assert!(modifier_keycodes(&vec![1; 8], 1).is_ok());
    assert_eq!(modifier_keycodes(&vec![1; 17], 2).err(), Some(NewConError::Reply));
}

fn layout() -> LevelModifiers {
    LevelModifiers {
        modifiers: [
            vec![50],
            vec![66],
            vec![37],
            vec![64],
            vec![],
            vec![],
            vec![133],
            vec![92],
        ],
        min_keycode: 8,
        key_types: vec![
            KeyType { map: vec![] },
            KeyType {
                map: vec![
                    KeyTypeEntry { active: true, level: 1, mods_mask: 0x01 },
                    KeyTypeEntry { active: false, level: 2, mods_mask: 0x80 },
                    KeyTypeEntry { active: true, level: 2, mods_mask: 0x81 },
                ],
            },
        ],
        key_type_indices: vec![[0, 0, 0, 0], [1, 0, 0, 0]],
    }
}

#[test]
fn level_masks_come_from_the_key_type() {
    let l = layout();
    assert_eq!(l.level_modifier_mask(9, 1), Some(0x01));
    assert_eq!(l.level_modifier_mask(9, 2), Some(0x81));
    assert_eq!(l.level_modifier_mask(9, 3), None);
    assert_eq!(l.level_modifier_mask(8, 1), None);
    assert_eq!(l.level_modifier_mask(7, 1), None);
    assert_eq!(l.level_modifier_mask(10, 1), None);
}

#[test]
fn level_modifiers_are_the_first_keycodes_of_the_mask() {
    let l = layout();
    assert_eq!(l.modifier_keycodes_for_level(9, 0), Vec::<u8>::new());
    assert_eq!(l.modifier_keycodes_for_level(9, 1), vec![50]);
    assert_eq!(l.modifier_keycodes_for_level(9, 2), vec![50, 92]);
    assert_eq!(l.modifier_keycodes_for_level(9, 3), Vec::<u8>::new());
}

#[test]
fn modifiers_wrap_the_key() {
    let km = KeyMap::new(8, 255, VecDeque::new(), 1, vec![]);
    assert_eq!(
        key_events(&km, 38, &vec![50, 92], Direction::Click),
        vec![
            (50, Direction::Press),
            (92, Direction::Press),
            (38, Direction::Click),
            (92, Direction::Release),
            (50, Direction::Release),
        ]
    );
    assert_eq!(
        key_events(&km, 38, &vec![50], Direction::Press),
        vec![(50, Direction::Press), (38, Direction::Press)]
    );
    assert_eq!(
        key_events(&km, 38, &vec![50], Direction::Release),
        vec![(38, Direction::Release), (50, Direction::Release)]
    );
    assert_eq!(key_events(&km, 38, &vec![], Direction::Click), vec![(38, Direction::Click)]);
}

#[test]
fn held_modifiers_are_left_alone() {
    let mut km = KeyMap::new(8, 255, VecDeque::new(), 1, vec![]);
    km.key(50, Direction::Press);
    assert_eq!(
        key_events(&km, 38, &vec![50, 92], Direction::Click),
        vec![(92, Direction::Press), (38, Direction::Click), (92, Direction::Release)]
    );
}

#[test]
fn raw_keycodes_fit_in_a_byte() {
    assert_eq!(raw_keycode(255), Ok(255));
    assert_eq!(
        raw_keycode(256),
        Err(InputError::InvalidInput("Keycode was too large. It has to fit in u8 on X11"))
    );
}

#[test]
fn directions_send_press_and_release() {
    assert_eq!(press_and_release(Direction::Press), (true, false));
    assert_eq!(press_and_release(Direction::Release), (false, true));
    assert_eq!(press_and_release(Direction::Click), (true, true));
}

#[test]
fn button_numbers() {
    assert_eq!(button_detail(Button::Left), 1);
    assert_eq!(button_detail(Button::Middle), 2);
    assert_eq!(button_detail(Button::Right), 3);
    assert_eq!(button_detail(Button::ScrollUp), 4);
    assert_eq!(button_detail(Button::ScrollDown), 5);
    assert_eq!(button_detail(Button::ScrollLeft), 6);
    assert_eq!(button_detail(Button::ScrollRight), 7);
    assert_eq!(button_detail(Button::Back), 8);
    assert_eq!(button_detail(Button::Forward), 9);
}

#[test]
fn motion_coordinates_fit_in_i16() {
    assert_eq!(motion_event(10, -20, Coordinate::Rel), Ok((1, 10, -20)));
    assert_eq!(motion_event(32767, 0, Coordinate::Abs), Ok((0, 32767, 0)));
    let err = Err(InputError::InvalidInput(
        "the coordinates cannot be negative and must fit in i16",
    ));
    assert_eq!(motion_event(32768, 0, Coordinate::Abs), err);
    assert_eq!(motion_event(0, -32769, Coordinate::Rel), err);
}

#[test]
fn scrolling_clicks_the_scroll_buttons() {
    assert_eq!(scroll_clicks(3, Axis::Vertical), (Button::ScrollDown, 3));
    assert_eq!(scroll_clicks(-2, Axis::Vertical), (Button::ScrollUp, 2));
    assert_eq!(scroll_clicks(4, Axis::Horizontal), (Button::ScrollRight, 4));
    assert_eq!(scroll_clicks(-1, Axis::Horizontal), (Button::ScrollLeft, 1));
    assert_eq!(scroll_clicks(0, Axis::Vertical), (Button::ScrollUp, 0));
}

#[test]
fn devices_are_found_by_use() {
    let devices = vec![(2, 4), (1, 7), (1, 9), (0, 2)];
    assert_eq!(enigo::x11::device_id(&devices, 1), Ok(7));
    assert_eq!(enigo::x11::device_id(&devices, 0), Ok(2));
    assert_eq!(
        enigo::x11::device_id(&devices, 3),
        Err(InputError::Simulate("error with the reply from listing input devices with x11rb"))
    );
}

#[test]
fn mapped_keycodes_are_listed_for_unbinding() {
    let mut km = KeyMap::new(8, 11, VecDeque::from(vec![9, 10]), 1, vec![0, 0, 0, 0]);
    assert!(km.mapped_keycodes().is_empty());
    assert_eq!(km.map(&mut Accept, 0x62), Ok(9));
    assert_eq!(km.map(&mut Accept, 0x63), Ok(10));
    let mut kcs = km.mapped_keycodes();
    kcs.sort();
    assert_eq!(kcs, vec![9, 10]);
}
