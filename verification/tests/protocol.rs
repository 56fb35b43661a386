use turntouch::protocol::{
    find_button_characteristic, is_turn_touch_name, join_names, ButtonEvent, ButtonState, Direction, Firmware,
    BUTTON_STATUS_V1, BUTTON_STATUS_V2, BATTERY_LEVEL, BUTTON_SERVICE_V1,
};

#[test]
fn empty_report_is_released() {
    let s = ButtonState::from_bytes(&[]);
    assert!(!s.any_pressed());
    assert_eq!(s.pressed_count(), 0);
    assert!(!s.held);
    assert_eq!(s.double_state, 0);
}

#[test]
fn all_bits_set_means_nothing_pressed() {
    let s = ButtonState::from_bytes(&[0xFF, 0x00]);
    assert!(!s.any_pressed());
    assert_eq!(s.pressed_direction(), None);
    assert_eq!(s.double_state, 0);
    assert!(!s.is_double_click());
}

#[test]
fn inverted_mask_decodes_each_button() {
    assert_eq!(ButtonState::from_bytes(&[0xFE]).pressed_direction(), Some(Direction::North));
    assert_eq!(ButtonState::from_bytes(&[0xFD]).pressed_direction(), Some(Direction::East));
    assert_eq!(ButtonState::from_bytes(&[0xFB]).pressed_direction(), Some(Direction::West));
    assert_eq!(ButtonState::from_bytes(&[0xF7]).pressed_direction(), Some(Direction::South));
}

#[test]
fn upper_nibble_is_inverted_double_state() {
    let s = ButtonState::from_bytes(&[0xEE]);
    assert_eq!(s.double_state, 0x01);
    assert!(s.is_double_click());
    let t = ButtonState::from_bytes(&[0x0E]);
    assert_eq!(t.double_state, 0x0F);
    assert!(!t.is_double_click());
}

#[test]
fn second_byte_ff_means_held() {
    assert!(ButtonState::from_bytes(&[0xFE, 0xFF]).held);
    assert!(!ButtonState::from_bytes(&[0xFE, 0xFE]).held);
    assert!(!ButtonState::from_bytes(&[0xFE]).held);
}

#[test]
fn several_buttons_have_no_single_direction() {
    let s = ButtonState::from_bytes(&[0xF0]);
    assert_eq!(s.pressed_count(), 4);
    assert_eq!(s.pressed_direction(), None);
    assert_eq!(
        s.pressed_directions(),
        vec![Direction::North, Direction::East, Direction::West, Direction::South]
    );
    let t = ButtonState::from_bytes(&[0xF6]);
    assert_eq!(t.pressed_directions(), vec![Direction::North, Direction::South]);
}

#[test]
fn direction_names() {
    assert_eq!(Direction::North.to_string(), "north");
    assert_eq!(Direction::East.name(), "east");
    assert_eq!(Direction::West.name(), "west");
    assert_eq!(Direction::South.to_string(), "south");
}

#[test]
fn event_texts() {
    assert_eq!(ButtonEvent::Press(Direction::North).to_string(), "north:press");
    assert_eq!(ButtonEvent::DoubleTap(Direction::East).to_string(), "east:double");
    assert_eq!(ButtonEvent::Hold(Direction::West).to_string(), "west:hold");
    assert_eq!(
        ButtonEvent::Multi(vec![Direction::North, Direction::East, Direction::West, Direction::South]).to_string(),
        "north+east+west+south:multi"
    );
}

#[test]
fn joining_names() {
    assert_eq!(join_names(&vec![]), "");
    assert_eq!(join_names(&vec![Direction::South]), "south");
    assert_eq!(join_names(&vec![Direction::East, Direction::West]), "east+west");
}

#[test]
fn remote_names() {
    assert!(is_turn_touch_name("Turn Touch"));
    assert!(is_turn_touch_name("Turn Touch Remote"));
    assert!(is_turn_touch_name("My Turn Touch"));
    assert!(!is_turn_touch_name("Turn Tou"));
    assert!(!is_turn_touch_name("turn touch"));
    assert!(!is_turn_touch_name(""));
}

#[test]
fn firmware_by_characteristic() {
    assert_eq!(Firmware::of_characteristic(BUTTON_STATUS_V1), Some(Firmware::V1));
    assert_eq!(Firmware::of_characteristic(BUTTON_STATUS_V2), Some(Firmware::V2));
    assert_eq!(Firmware::of_characteristic(BATTERY_LEVEL), None);
    assert_eq!(Firmware::V1.label(), "V1");
    assert_eq!(Firmware::V2.label(), "V2");
    assert_eq!(BUTTON_SERVICE_V1, 0x88c3907a_dc4f_41b1_bb04_4e4deb81fadd);
}

#[test]
fn first_button_characteristic_is_found() {
    assert_eq!(find_button_characteristic(&vec![BATTERY_LEVEL, BUTTON_STATUS_V1, BUTTON_STATUS_V2]), Some(1));
    assert_eq!(find_button_characteristic(&vec![BUTTON_STATUS_V2, BUTTON_STATUS_V1]), Some(0));
    assert_eq!(find_button_characteristic(&vec![BATTERY_LEVEL]), None);
    assert_eq!(find_button_characteristic(&vec![]), None);
}
