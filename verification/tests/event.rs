use std::time::Instant;

use turntouch::event::EventDetector;
use turntouch::protocol::{ButtonEvent, Direction};

const RELEASED: [u8; 2] = [0xFF, 0x00];
const NORTH: [u8; 2] = [0xFE, 0x00];
const NORTH_HELD: [u8; 2] = [0xFE, 0xFF];
const EAST: [u8; 2] = [0xFD, 0x00];
const NORTH_EAST: [u8; 2] = [0xFC, 0x00];
const ALL: [u8; 2] = [0xF0, 0x00];
const NORTH_HW_DOUBLE: [u8; 2] = [0xEE, 0x00];

const SOON: Option<u128> = Some(100);
const LATE: Option<u128> = Some(250);

fn feed(d: &mut EventDetector, data: &[u8], elapsed_ms: Option<u128>) -> Vec<ButtonEvent> {
    d.process_timed(data, elapsed_ms, Instant::now())
}

#[test]
fn tap_reports_press_on_release() {
    let mut d = EventDetector::new();
    assert_eq!(feed(&mut d, &NORTH, None), vec![]);
    assert_eq!(feed(&mut d, &RELEASED, None), vec![ButtonEvent::Press(Direction::North)]);
}

#[test]
fn pressing_is_silent() {
    let mut d = EventDetector::new();
    assert_eq!(feed(&mut d, &EAST, None), vec![]);
    assert_eq!(feed(&mut d, &EAST, None), vec![]);
    assert_eq!(feed(&mut d, &EAST, SOON), vec![]);
}

#[test]
fn second_tap_within_window_is_double() {
    let mut d = EventDetector::new();
    feed(&mut d, &NORTH, None);
    assert_eq!(feed(&mut d, &RELEASED, None), vec![ButtonEvent::Press(Direction::North)]);
    feed(&mut d, &NORTH, SOON);
    assert_eq!(feed(&mut d, &RELEASED, SOON), vec![ButtonEvent::DoubleTap(Direction::North)]);
    // a third tap starts over
    feed(&mut d, &NORTH, None);
    assert_eq!(feed(&mut d, &RELEASED, None), vec![ButtonEvent::Press(Direction::North)]);
}

#[test]
fn second_tap_outside_window_is_press() {
    let mut d = EventDetector::new();
    feed(&mut d, &NORTH, None);
    feed(&mut d, &RELEASED, None);
    feed(&mut d, &NORTH, LATE);
    assert_eq!(feed(&mut d, &RELEASED, LATE), vec![ButtonEvent::Press(Direction::North)]);
    feed(&mut d, &NORTH, Some(249));
    assert_eq!(feed(&mut d, &RELEASED, Some(249)), vec![ButtonEvent::DoubleTap(Direction::North)]);
}

#[test]
fn tap_of_other_button_is_press() {
    let mut d = EventDetector::new();
    feed(&mut d, &NORTH, None);
    feed(&mut d, &RELEASED, None);
    feed(&mut d, &EAST, SOON);
    assert_eq!(feed(&mut d, &RELEASED, SOON), vec![ButtonEvent::Press(Direction::East)]);
}

#[test]
fn quick_taps_with_the_clock_are_double() {
    let mut d = EventDetector::new();
    d.process(&NORTH);
    assert_eq!(d.process(&RELEASED), vec![ButtonEvent::Press(Direction::North)]);
    d.process(&NORTH);
    assert_eq!(d.process(&RELEASED), vec![ButtonEvent::DoubleTap(Direction::North)]);
}

#[test]
fn hardware_double_click_is_double() {
    let mut d = EventDetector::new();
    feed(&mut d, &NORTH_HW_DOUBLE, None);
    assert_eq!(feed(&mut d, &RELEASED, None), vec![ButtonEvent::DoubleTap(Direction::North)]);
}

#[test]
fn hold_reported_once_and_release_is_silent() {
    let mut d = EventDetector::new();
    assert_eq!(feed(&mut d, &NORTH, None), vec![]);
    assert_eq!(feed(&mut d, &NORTH_HELD, None), vec![ButtonEvent::Hold(Direction::North)]);
    assert_eq!(feed(&mut d, &NORTH_HELD, None), vec![]);
    assert_eq!(feed(&mut d, &RELEASED, None), vec![]);
}

#[test]
fn held_first_report_holds_once() {
    // The very first report of a press already carries the hold flag: the
    // press is reported as a hold once, and nothing more until it ends.
    let mut d = EventDetector::new();
    assert_eq!(feed(&mut d, &NORTH_HELD, None), vec![ButtonEvent::Hold(Direction::North)]);
    assert_eq!(feed(&mut d, &NORTH_HELD, None), vec![]);
    assert_eq!(feed(&mut d, &RELEASED, None), vec![]);
    let mut c = EventDetector::new();
    assert_eq!(c.process(&NORTH_HELD), vec![ButtonEvent::Hold(Direction::North)]);
    assert_eq!(c.process(&NORTH_HELD), vec![]);
}

#[test]
fn window_is_250_ms() {
    assert!(EventDetector::is_within_window(Some(0)));
    assert!(EventDetector::is_within_window(Some(249)));
    assert!(!EventDetector::is_within_window(Some(250)));
    assert!(!EventDetector::is_within_window(Some(2500)));
    assert!(!EventDetector::is_within_window(None));
}

#[test]
fn multi_reported_once_per_gesture() {
    let mut d = EventDetector::new();
    assert_eq!(
        feed(&mut d, &NORTH_EAST, None),
        vec![ButtonEvent::Multi(vec![Direction::North, Direction::East])]
    );
    assert_eq!(feed(&mut d, &ALL, None), vec![]);
    assert_eq!(feed(&mut d, &NORTH_EAST, None), vec![]);
    assert_eq!(feed(&mut d, &RELEASED, None), vec![]);
    assert_eq!(
        feed(&mut d, &ALL, None),
        vec![ButtonEvent::Multi(vec![Direction::North, Direction::East, Direction::West, Direction::South])]
    );
}

#[test]
fn multi_then_single_release_reports_press() {
    // Releasing one of two buttons leaves a single press that, released,
    // is reported as a press.
    let mut d = EventDetector::new();
    feed(&mut d, &NORTH_EAST, None);
    assert_eq!(feed(&mut d, &NORTH, None), vec![]);
    assert_eq!(feed(&mut d, &RELEASED, None), vec![ButtonEvent::Press(Direction::North)]);
}

#[test]
fn empty_report_counts_as_release() {
    let mut d = EventDetector::new();
    feed(&mut d, &EAST, None);
    assert_eq!(feed(&mut d, &[], None), vec![ButtonEvent::Press(Direction::East)]);
}
