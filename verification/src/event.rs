use std::time::{Duration, Instant};

use vstd::prelude::*;

use crate::protocol::{decoded_state, ButtonEvent, ButtonState, Direction, EventView};

verus! {

#[verifier::external_type_specification]
#[verifier::external_body]
pub struct ExInstant(Instant);

/// Two taps of the same button whose releases are less than this many
/// milliseconds apart make a double tap.
pub const DOUBLE_CLICK_WINDOW_MS: u128 = 250;

/// Calls `std::time::Instant::now`. The result is the current reading of the
/// monotonic clock; nothing is stated of it.
#[verifier::external_body]
fn instant_now() -> Instant {
    Instant::now()
}

/// Calls `std::time::Instant::elapsed`. The result depends on the clock at
/// the time of the call; nothing is stated of it.
#[verifier::external_body]
fn instant_elapsed(t: &Instant) -> Duration {
    t.elapsed()
}

/// Calls `std::time::Duration::as_millis`: the whole milliseconds in `d`.
/// A `Duration` is opaque here, so the result is not tied to it by a clause.
#[verifier::external_body]
fn duration_as_millis(d: &Duration) -> u128 {
    d.as_millis()
}

/// Tracks button state transitions and emits high-level events.
pub struct EventDetector {
    prev_state: ButtonState,
    /// For software double-click detection: last single-press direction and when it fired.
    last_press: Option<(Direction, Instant)>,
    /// Whether the current press has already been classified as held.
    hold_emitted: bool,
    /// Whether we already emitted a multi-press for the current gesture.
    multi_emitted: bool,
}

/// The state of an [`EventDetector`].
pub struct DetectorView {
    /// The report seen last.
    pub prev_state: ButtonState,
    /// The direction of the last single press that may still become a
    /// double tap, and when it was reported.
    pub last_press: Option<(Direction, Instant)>,
    /// The current press has been reported as a hold.
    pub hold_emitted: bool,
    /// The current gesture has been reported as a multi-button press.
    pub multi_emitted: bool,
}

impl View for EventDetector {
    type V = DetectorView;

    closed spec fn view(&self) -> DetectorView {
        DetectorView {
            prev_state: self.prev_state,
            last_press: self.last_press,
            hold_emitted: self.hold_emitted,
            multi_emitted: self.multi_emitted,
        }
    }
}

/// The values of a sequence of events.
pub open spec fn event_views(es: Seq<ButtonEvent>) -> Seq<EventView> {
    es.map_values(|e: ButtonEvent| e@)
}

/// A pending press whose time lies `elapsed_ms` whole milliseconds back is
/// within the double-click window: less than 250 ms have passed.
pub open spec fn within_window(elapsed_ms: Option<u128>) -> bool {
    match elapsed_ms {
        Some(ms) => ms < DOUBLE_CLICK_WINDOW_MS,
        None => false,
    }
}

/// Some button is pressed in `s`.
pub open spec fn pressed(s: ButtonState) -> bool {
    s.pressed_seq().len() > 0
}

/// The detector's state before any report.
pub open spec fn initial_view() -> DetectorView {
    DetectorView {
        prev_state: crate::protocol::released_state(),
        last_press: None,
        hold_emitted: false,
        multi_emitted: false,
    }
}

/// What the release of the buttons of `v.prev_state` reports, and the last
/// press that it leaves: nothing after a hold or a multi-button press; a
/// double tap when the report carried a hardware double-click, or when the
/// same button was last pressed less than the double-click window before
/// (`elapsed_ms` is the time since that press); a press otherwise.
pub open spec fn release_outcome(v: DetectorView, elapsed_ms: Option<u128>, now: Instant) -> (Option<(Direction, Instant)>, Seq<EventView>) {
    if v.hold_emitted {
        (v.last_press, Seq::empty())
    } else {
        match v.prev_state.single_direction() {
            None => (v.last_press, Seq::empty()),
            Some(dir) => {
                if v.prev_state.spec_is_double_click() || (v.last_press matches Some((d, _)) && d == dir && within_window(elapsed_ms)) {
                    (None, seq![EventView::DoubleTap(dir)])
                } else {
                    (Some((dir, now)), seq![EventView::Press(dir)])
                }
            },
        }
    }
}

/// The next state of a detector in state `v` that sees report `s`, and the
/// events it reports. `elapsed_ms` is the number of whole milliseconds since
/// the pending single press (if there is one), and `now` is the time of this
/// report. A new press clears the hold mark before the hold flag is looked
/// at, so a press is reported as a hold at most once.
pub open spec fn step(v: DetectorView, s: ButtonState, elapsed_ms: Option<u128>, now: Instant) -> (DetectorView, Seq<EventView>) {
    if s.pressed_seq().len() > 1 {
        if !v.multi_emitted {
            (
                DetectorView { prev_state: s, last_press: v.last_press, hold_emitted: v.hold_emitted, multi_emitted: true },
                seq![EventView::Multi(s.pressed_seq())],
            )
        } else {
            (
                DetectorView { prev_state: s, last_press: v.last_press, hold_emitted: v.hold_emitted, multi_emitted: true },
                Seq::empty(),
            )
        }
    } else {
        let released = !pressed(s) && pressed(v.prev_state);
        let new_press = pressed(s) && !pressed(v.prev_state);
        let last1 = if released { release_outcome(v, elapsed_ms, now).0 } else { v.last_press };
        let ev1 = if released { release_outcome(v, elapsed_ms, now).1 } else { Seq::empty() };
        let hold1 = if released || new_press { false } else { v.hold_emitted };
        let multi1 = if released { false } else { v.multi_emitted };
        let hold_fires = pressed(s) && s.held && !hold1 && s.single_direction() is Some;
        let ev2 = if hold_fires { ev1.push(EventView::Hold(s.single_direction().unwrap())) } else { ev1 };
        let hold2 = hold_fires || hold1;
        (DetectorView { prev_state: s, last_press: last1, hold_emitted: hold2, multi_emitted: multi1 }, ev2)
    }
}

impl EventDetector {
    pub fn new() -> (r: Self)
        ensures
            r@ == initial_view(),
    {
        Self {
            prev_state: ButtonState::default(),
            last_press: None,
            hold_emitted: false,
            multi_emitted: false,
        }
    }

    /// Processes one report, given the whole milliseconds since the pending
    /// single press (if there is one) and the time of this report.
    pub fn process_timed(&mut self, data: &[u8], elapsed_ms: Option<u128>, now: Instant) -> (events: Vec<ButtonEvent>)
        ensures
            final(self)@ == step(old(self)@, decoded_state(data@), elapsed_ms, now).0,
            event_views(events@) == step(old(self)@, decoded_state(data@), elapsed_ms, now).1,
    {
        let state = ButtonState::from_bytes(data);
        let mut events: Vec<ButtonEvent> = Vec::new();

        // Multi-touch (2+ buttons): emit once per gesture
        if state.pressed_count() > 1 && !self.multi_emitted {
            events.push(ButtonEvent::Multi(state.pressed_directions()));
            self.multi_emitted = true;
            self.prev_state = state;
            assert(event_views(events@) =~= seq![EventView::Multi(state.pressed_seq())]);
            return events;
        }
        if state.pressed_count() > 1 {
            self.prev_state = state;
            assert(event_views(events@) =~= Seq::<EventView>::empty());
            return events;
        }

        // Button released
        if !state.any_pressed() && self.prev_state.any_pressed() {
            self.multi_emitted = false;
            if !self.hold_emitted {
                if let Some(dir) = self.prev_state.pressed_direction() {
                    let repeated = match &self.last_press {
                        Some((last_dir, _)) => *last_dir == dir && Self::is_within_window(elapsed_ms),
                        None => false,
                    };
                    // Hardware double-click (V3+ firmware) or software double-click
                    if self.prev_state.is_double_click() || repeated {
                        events.push(ButtonEvent::DoubleTap(dir));
                        self.last_press = None;
                    } else {
                        events.push(ButtonEvent::Press(dir));
                        self.last_press = Some((dir, now));
                    }
                }
            }
            self.hold_emitted = false;
        }

        // New button press (transition from not pressed to pressed): it has
        // not been classified as held yet
        if state.any_pressed() && !self.prev_state.any_pressed() {
            self.hold_emitted = false;
        }

        // Button pressed with hold flag
        if state.any_pressed() && state.held && !self.hold_emitted {
            if let Some(dir) = state.pressed_direction() {
                events.push(ButtonEvent::Hold(dir));
                self.hold_emitted = true;
            }
        }

        self.prev_state = state;
        events
    }

    /// Whether a pending press `elapsed_ms` whole milliseconds back lies
    /// within the double-click window.
    pub fn is_within_window(elapsed_ms: Option<u128>) -> (r: bool)
        ensures
            r == within_window(elapsed_ms),
    {
        match elapsed_ms {
            Some(ms) => ms < DOUBLE_CLICK_WINDOW_MS,
            None => false,
        }
    }

    /// Process raw BLE notification bytes and return any resulting event.
    /// The clock gives the whole milliseconds since the pending single press
    /// (there is such a reading exactly when a press is pending) and the time
    /// recorded for a new press.
    pub fn process(&mut self, data: &[u8]) -> (events: Vec<ButtonEvent>)
        ensures
            exists|elapsed_ms: Option<u128>, now: Instant|
                {
                    &&& final(self)@ == #[trigger] step(old(self)@, decoded_state(data@), elapsed_ms, now).0
                    &&& event_views(events@) == step(old(self)@, decoded_state(data@), elapsed_ms, now).1
                    &&& (old(self)@.last_press is None <==> elapsed_ms is None)
                },
    {
        let elapsed_ms = match &self.last_press {
            Some((_, last_time)) => {
                let elapsed = instant_elapsed(last_time);
                Some(duration_as_millis(&elapsed))
            },
            None => None,
        };
        let now = instant_now();
        self.process_timed(data, elapsed_ms, now)
    }
}

/// Every report is remembered as the previous state.
pub proof fn lemma_remembers_report(v: DetectorView, s: ButtonState, elapsed_ms: Option<u128>, now: Instant)
    ensures
        step(v, s, elapsed_ms, now).0.prev_state == s,
{
}

/// A multi-button press is reported once per gesture: the first report with
/// two or more buttons down reports them all (unless the gesture was already
/// reported), and any later report with two or more buttons down reports
/// nothing.
pub proof fn lemma_multi_reported_once(
    v: DetectorView,
    s1: ButtonState,
    s2: ButtonState,
    e1: Option<u128>,
    n1: Instant,
    e2: Option<u128>,
    n2: Instant,
)
    requires
        s1.pressed_seq().len() > 1,
        s2.pressed_seq().len() > 1,
    ensures
        !v.multi_emitted ==> step(v, s1, e1, n1).1 == seq![EventView::Multi(s1.pressed_seq())],
        step(step(v, s1, e1, n1).0, s2, e2, n2).1 == Seq::<EventView>::empty(),
{
}

/// Holding down a single button without the hold flag reports nothing.
pub proof fn lemma_pressing_is_silent(v: DetectorView, s: ButtonState, elapsed_ms: Option<u128>, now: Instant)
    requires
        s.single_direction() is Some,
        !s.held,
    ensures
        step(v, s, elapsed_ms, now).1 == Seq::<EventView>::empty(),
{
}

/// A tap (press, then release) of a button with no hardware double-click is
/// reported as a press on release, unless the same button's earlier press
/// lies less than 250 ms back; the tap is then remembered as the pending
/// press, at the time of the release.
pub proof fn lemma_tap_is_press(
    v: DetectorView,
    d: Direction,
    p: ButtonState,
    r: ButtonState,
    e1: Option<u128>,
    n1: Instant,
    e2: Option<u128>,
    n2: Instant,
)
    requires
        !pressed(v.prev_state),
        p.single_direction() == Some(d),
        !p.held,
        !p.spec_is_double_click(),
        !pressed(r),
        !(v.last_press matches Some((d0, _)) && d0 == d && within_window(e2)),
    ensures
        step(v, p, e1, n1).1 == Seq::<EventView>::empty(),
        step(step(v, p, e1, n1).0, r, e2, n2).1 == seq![EventView::Press(d)],
        step(step(v, p, e1, n1).0, r, e2, n2).0.last_press == Some((d, n2)),
{
}

/// A second tap of the same button is a double tap exactly when its release
/// comes less than 250 ms after the pending press: then nothing stays
/// pending, so a third tap starts over; otherwise it is a press and becomes
/// the pending press.
pub proof fn lemma_second_tap_is_double(
    v: DetectorView,
    d: Direction,
    t: Instant,
    p: ButtonState,
    r: ButtonState,
    e1: Option<u128>,
    n1: Instant,
    ms: u128,
    n2: Instant,
)
    requires
        !pressed(v.prev_state),
        v.last_press == Some((d, t)),
        p.single_direction() == Some(d),
        !p.held,
        !p.spec_is_double_click(),
        !pressed(r),
    ensures
        ms < 250 ==> step(step(v, p, e1, n1).0, r, Some(ms), n2).1 == seq![EventView::DoubleTap(d)],
        ms < 250 ==> step(step(v, p, e1, n1).0, r, Some(ms), n2).0.last_press is None,
        ms >= 250 ==> step(step(v, p, e1, n1).0, r, Some(ms), n2).1 == seq![EventView::Press(d)],
        ms >= 250 ==> step(step(v, p, e1, n1).0, r, Some(ms), n2).0.last_press == Some((d, n2)),
{
}

/// Releasing a single button whose report carried a hardware double-click
/// reports a double tap, whatever the clock says.
pub proof fn lemma_hardware_double_click(
    v: DetectorView,
    d: Direction,
    r: ButtonState,
    elapsed_ms: Option<u128>,
    now: Instant,
)
    requires
        v.prev_state.single_direction() == Some(d),
        v.prev_state.spec_is_double_click(),
        !v.hold_emitted,
        !pressed(r),
    ensures
        step(v, r, elapsed_ms, now).1 == seq![EventView::DoubleTap(d)],
        step(v, r, elapsed_ms, now).0.last_press is None,
{
}

/// A press that gets the hold flag, whether in its first report or later,
/// is reported as a hold once: further held reports of it, and its release,
/// report nothing.
pub proof fn lemma_hold_reported_once(
    v: DetectorView,
    d: Direction,
    h1: ButtonState,
    h2: ButtonState,
    r: ButtonState,
    e1: Option<u128>,
    n1: Instant,
    e2: Option<u128>,
    n2: Instant,
    e3: Option<u128>,
    n3: Instant,
)
    requires
        pressed(v.prev_state) ==> v.prev_state.single_direction() == Some(d) && !v.hold_emitted,
        h1.single_direction() == Some(d),
        h1.held,
        h2.single_direction() == Some(d),
        !pressed(r),
    ensures
        step(v, h1, e1, n1).1 == seq![EventView::Hold(d)],
        step(step(v, h1, e1, n1).0, h2, e2, n2).1 == Seq::<EventView>::empty(),
        step(step(step(v, h1, e1, n1).0, h2, e2, n2).0, r, e3, n3).1 == Seq::<EventView>::empty(),
{
}

} // verus!
