use vstd::prelude::*;
use vstd::string::*;

verus! {

/// Button service of firmware V1 (`88c3907a-dc4f-41b1-bb04-4e4deb81fadd`).
pub const BUTTON_SERVICE_V1: u128 = 0x88c3907a_dc4f_41b1_bb04_4e4deb81fadd;

/// Button service of firmware V2 (`99c31523-dc4f-41b1-bb04-4e4deb81fadd`).
pub const BUTTON_SERVICE_V2: u128 = 0x99c31523_dc4f_41b1_bb04_4e4deb81fadd;

/// Button status characteristic of firmware V1 (`47099164-4d08-4338-bedf-7fc043dbec5c`).
pub const BUTTON_STATUS_V1: u128 = 0x47099164_4d08_4338_bedf_7fc043dbec5c;

/// Button status characteristic of firmware V2 (`99c31525-dc4f-41b1-bb04-4e4deb81fadd`).
pub const BUTTON_STATUS_V2: u128 = 0x99c31525_dc4f_41b1_bb04_4e4deb81fadd;

/// Standard BLE battery service.
pub const BATTERY_SERVICE: u128 = 0x0000180f_0000_1000_8000_00805f9b34fb;

/// Standard BLE battery level characteristic.
pub const BATTERY_LEVEL: u128 = 0x00002a19_0000_1000_8000_00805f9b34fb;

/// One of the four buttons of the remote.
#[derive(Debug, Clone, Copy, PartialEq, Eq, Hash, Structural)]
pub enum Direction {
    North,
    East,
    West,
    South,
}

impl Direction {
    /// The lower-case name of the direction, as shown to users and commands.
    pub open spec fn spec_name(self) -> Seq<char> {
        match self {
            Direction::North => "north"@,
            Direction::East => "east"@,
            Direction::West => "west"@,
            Direction::South => "south"@,
        }
    }

    /// The lower-case name of the direction (`north`, `east`, `west`, `south`).
    pub fn name(&self) -> (r: &'static str)
        ensures
            r@ == self.spec_name(),
    {
        match self {
            Direction::North => "north",
            Direction::East => "east",
            Direction::West => "west",
            Direction::South => "south",
        }
    }

    /// The name of the direction as an owned string.
    pub fn to_string(&self) -> (r: String)
        ensures
            r@ == self.spec_name(),
    {
        String::from_str(self.name())
    }
}

/// A gesture recognised on the remote.
#[derive(Debug, Clone, PartialEq, Eq)]
pub enum ButtonEvent {
    Press(Direction),
    DoubleTap(Direction),
    Hold(Direction),
    /// Multiple buttons pressed simultaneously (e.g. all 4)
    Multi(Vec<Direction>),
}

/// The mathematical value of a [`ButtonEvent`]: the directions of a
/// multi-button press are a sequence.
pub enum EventView {
    Press(Direction),
    DoubleTap(Direction),
    Hold(Direction),
    Multi(Seq<Direction>),
}

impl View for ButtonEvent {
    type V = EventView;

    open spec fn view(&self) -> EventView {
        match self {
            ButtonEvent::Press(d) => EventView::Press(*d),
            ButtonEvent::DoubleTap(d) => EventView::DoubleTap(*d),
            ButtonEvent::Hold(d) => EventView::Hold(*d),
            ButtonEvent::Multi(v) => EventView::Multi(v@),
        }
    }
}

/// The names of `dirs` joined by `+`, e.g. `north+east`.
pub open spec fn joined_names(dirs: Seq<Direction>) -> Seq<char>
    decreases dirs.len(),
{
    if dirs.len() == 0 {
        Seq::empty()
    } else if dirs.len() == 1 {
        dirs[0].spec_name()
    } else {
        joined_names(dirs.drop_last()) + "+"@ + dirs.last().spec_name()
    }
}

/// The text of an event: its direction(s), a colon and the kind of event.
pub open spec fn event_text(e: EventView) -> Seq<char> {
    match e {
        EventView::Press(d) => d.spec_name() + ":press"@,
        EventView::DoubleTap(d) => d.spec_name() + ":double"@,
        EventView::Hold(d) => d.spec_name() + ":hold"@,
        EventView::Multi(ds) => joined_names(ds) + ":multi"@,
    }
}

/// Joins the names of `dirs` with `+`.
pub fn join_names(dirs: &Vec<Direction>) -> (r: String)
    ensures
        r@ == joined_names(dirs@),
{
    let mut res = String::new();
    let n = dirs.len();
    let mut i: usize = 0;
    while i < n
        invariant
            n == dirs@.len(),
            i <= n,
            res@ == joined_names(dirs@.take(i as int)),
        decreases n - i,
    {
        let ghost before = dirs@.take(i as int);
        assert(dirs@.take(i + 1).drop_last() =~= before);
        if i > 0 {
            res.append("+");
        } else {
            assert(dirs@.take(0) =~= Seq::<Direction>::empty());
        }
        res.append(dirs[i].name());
        i = i + 1;
    }
    assert(dirs@.take(n as int) =~= dirs@);
    res
}

impl ButtonEvent {
    /// The text of the event, e.g. `north:press` or `north+east:multi`.
    pub fn to_string(&self) -> (r: String)
        ensures
            r@ == event_text(self@),
    {
        match self {
            ButtonEvent::Press(d) => String::from_str(d.name()).concat(":press"),
            ButtonEvent::DoubleTap(d) => String::from_str(d.name()).concat(":double"),
            ButtonEvent::Hold(d) => String::from_str(d.name()).concat(":hold"),
            ButtonEvent::Multi(ds) => join_names(ds).concat(":multi"),
        }
    }
}

/// The decoded content of one button-status report.
#[derive(Debug, Clone, Copy)]
pub struct ButtonState {
    pub north: bool,
    pub east: bool,
    pub west: bool,
    pub south: bool,
    pub held: bool,
    pub double_state: u8,
}

/// The state in which no button is pressed.
pub open spec fn released_state() -> ButtonState {
    ButtonState { north: false, east: false, west: false, south: false, held: false, double_state: 0 }
}

impl Default for ButtonState {
    fn default() -> (r: Self)
        ensures
            r == released_state(),
    {
        ButtonState { north: false, east: false, west: false, south: false, held: false, double_state: 0 }
    }
}

/// The state a report decodes to. Byte 0 is an inverted button mask
/// (a cleared bit means pressed: N = 0x01, E = 0x02, W = 0x04, S = 0x08) whose
/// upper nibble, inverted, is the hardware double-click state; byte 1 is
/// `0xFF` while the button is held. An empty report decodes to no button.
pub open spec fn decoded_state(data: Seq<u8>) -> ButtonState {
    if data.len() == 0 {
        released_state()
    } else {
        ButtonState {
            north: data[0] & 0x01 == 0,
            east: data[0] & 0x02 == 0,
            west: data[0] & 0x04 == 0,
            south: data[0] & 0x08 == 0,
            held: data.len() > 1 && data[1] == 0xFF,
            double_state: (15 - data[0] / 16) as u8,
        }
    }
}

impl ButtonState {
    /// The pressed directions, in the order north, east, west, south.
    pub open spec fn pressed_seq(self) -> Seq<Direction> {
        (if self.north { seq![Direction::North] } else { Seq::empty() })
            + (if self.east { seq![Direction::East] } else { Seq::empty() })
            + (if self.west { seq![Direction::West] } else { Seq::empty() })
            + (if self.south { seq![Direction::South] } else { Seq::empty() })
    }

    /// The one pressed direction, when exactly one button is pressed.
    pub open spec fn single_direction(self) -> Option<Direction> {
        if self.pressed_seq().len() == 1 {
            Some(self.pressed_seq()[0])
        } else {
            None
        }
    }

    /// Whether the report carries a hardware double-click.
    pub open spec fn spec_is_double_click(self) -> bool {
        self.double_state != 0x0F && self.double_state != 0x00
    }

    /// Decodes a raw button-status report.
    pub fn from_bytes(data: &[u8]) -> (r: Self)
        ensures
            r == decoded_state(data@),
    {
        if data.len() == 0 {
            return Self::default();
        }
        let raw: u8 = data[0];
        let inverted: u8 = !raw;
        let button_bits: u8 = inverted & 0x0F;
        let double_state: u8 = inverted >> 4;
        let held = data.len() > 1 && data[1] == 0xFF;
        assert(((!raw) & 0x0F) & 0x01 != 0 <==> raw & 0x01 == 0) by (bit_vector);
        assert(((!raw) & 0x0F) & 0x02 != 0 <==> raw & 0x02 == 0) by (bit_vector);
        assert(((!raw) & 0x0F) & 0x04 != 0 <==> raw & 0x04 == 0) by (bit_vector);
        assert(((!raw) & 0x0F) & 0x08 != 0 <==> raw & 0x08 == 0) by (bit_vector);
        assert((!raw) >> 4 == 15 - raw / 16) by (bit_vector);
        ButtonState {
            north: button_bits & 0x01 != 0,
            east: button_bits & 0x02 != 0,
            west: button_bits & 0x04 != 0,
            south: button_bits & 0x08 != 0,
            held,
            double_state,
        }
    }

    /// Whether any button is pressed.
    pub fn any_pressed(&self) -> (r: bool)
        ensures
            r == (self.pressed_seq().len() > 0),
    {
        self.north || self.east || self.west || self.south
    }

    /// How many buttons are pressed.
    pub fn pressed_count(&self) -> (r: u8)
        ensures
            r == self.pressed_seq().len(),
    {
        let n: u8 = if self.north { 1 } else { 0 };
        let e: u8 = if self.east { 1 } else { 0 };
        let w: u8 = if self.west { 1 } else { 0 };
        let s: u8 = if self.south { 1 } else { 0 };
        n + e + w + s
    }

    /// The pressed direction when exactly one button is pressed.
    pub fn pressed_direction(&self) -> (r: Option<Direction>)
        ensures
            r == self.single_direction(),
    {
        if self.pressed_count() != 1 {
            return None;
        }
        if self.north {
            Some(Direction::North)
        } else if self.east {
            Some(Direction::East)
        } else if self.west {
            Some(Direction::West)
        } else if self.south {
            Some(Direction::South)
        } else {
            None
        }
    }

    /// All pressed directions, in the order north, east, west, south.
    pub fn pressed_directions(&self) -> (r: Vec<Direction>)
        ensures
            r@ == self.pressed_seq(),
    {
        let mut dirs = Vec::new();
        if self.north {
            dirs.push(Direction::North);
        }
        if self.east {
            dirs.push(Direction::East);
        }
        if self.west {
            dirs.push(Direction::West);
        }
        if self.south {
            dirs.push(Direction::South);
        }
        dirs
    }

    /// Whether the report carries a hardware double-click (firmware V3 and later).
    pub fn is_double_click(&self) -> (r: bool)
        ensures
            r == self.spec_is_double_click(),
            r == (self.double_state != 0x0F && self.double_state != 0x00),
    {
        self.double_state != 0x0F && self.double_state != 0x00
    }
}

/// The name the remote advertises under (a prefix of its local name).
pub const DEVICE_NAME_PREFIX: &'static str = "Turn Touch";

/// `pat` occurs in `s` starting at position `i`.
pub open spec fn occurs_at(s: Seq<char>, pat: Seq<char>, i: int) -> bool {
    0 <= i && i + pat.len() <= s.len() && s.subrange(i, i + pat.len()) == pat
}

/// `pat` occurs somewhere in `s`.
pub open spec fn occurs_in(s: Seq<char>, pat: Seq<char>) -> bool {
    exists|i: int| occurs_at(s, pat, i)
}

/// Whether `pat` occurs in `text` as a run of consecutive characters.
pub fn contains_text(text: &str, pat: &str) -> (r: bool)
    ensures
        r == occurs_in(text@, pat@),
{
    let n = text.unicode_len();
    let m = pat.unicode_len();
    if m > n {
        assert forall|i: int| !occurs_at(text@, pat@, i) by {}
        return false;
    }
    let mut i: usize = 0;
    while i <= n - m
        invariant
            n == text@.len(),
            m == pat@.len(),
            m <= n,
            i <= n - m + 1,
            forall|k: int| 0 <= k < i ==> !occurs_at(text@, pat@, k),
        decreases n - m + 1 - i,
    {
        let mut j: usize = 0;
        let mut same = true;
        while j < m
            invariant
                n == text@.len(),
                m == pat@.len(),
                i + m <= n,
                j <= m,
                same == (forall|k: int| 0 <= k < j ==> text@[i + k] == pat@[k]),
            decreases m - j,
        {
            if text.get_char(i + j) != pat.get_char(j) {
                same = false;
            }
            j = j + 1;
        }
        if same {
            assert(text@.subrange(i as int, i + m) =~= pat@);
            assert(occurs_at(text@, pat@, i as int));
            return true;
        }
        assert(!occurs_at(text@, pat@, i as int)) by {
            let k = choose|k: int| 0 <= k < m && text@[i + k] != pat@[k];
            if text@.subrange(i as int, i + m) == pat@ {
                assert(text@.subrange(i as int, i + m)[k] == text@[i + k]);
            }
        }
        i = i + 1;
    }
    assert forall|k: int| !occurs_at(text@, pat@, k) by {
        if 0 <= k && k + m <= n {
            assert(k < i);
        }
    }
    false
}

/// Whether an advertised local name belongs to a Turn Touch remote.
pub fn is_turn_touch_name(name: &str) -> (r: bool)
    ensures
        r == occurs_in(name@, DEVICE_NAME_PREFIX@),
{
    contains_text(name, DEVICE_NAME_PREFIX)
}

/// The firmware generations of the remote, told apart by their characteristics.
#[derive(Debug, Clone, Copy, PartialEq, Eq, Structural)]
pub enum Firmware {
    V1,
    V2,
}

/// The firmware whose button-status characteristic has identifier `uuid`.
pub open spec fn spec_firmware_of(uuid: u128) -> Option<Firmware> {
    if uuid == BUTTON_STATUS_V2 {
        Some(Firmware::V2)
    } else if uuid == BUTTON_STATUS_V1 {
        Some(Firmware::V1)
    } else {
        None
    }
}

impl Firmware {
    /// The firmware whose button-status characteristic has identifier `uuid`,
    /// if it is one.
    pub fn of_characteristic(uuid: u128) -> (r: Option<Firmware>)
        ensures
            r == spec_firmware_of(uuid),
    {
        if uuid == BUTTON_STATUS_V2 {
            Some(Firmware::V2)
        } else if uuid == BUTTON_STATUS_V1 {
            Some(Firmware::V1)
        } else {
            None
        }
    }

    /// The label of the firmware, `V1` or `V2`.
    pub fn label(&self) -> (r: &'static str)
        ensures
            r@ == (match self {
                Firmware::V1 => "V1"@,
                Firmware::V2 => "V2"@,
            }),
    {
        match self {
            Firmware::V1 => "V1",
            Firmware::V2 => "V2",
        }
    }
}

/// The position of the first characteristic, in the order given, that is a
/// button-status characteristic of either firmware.
pub fn find_button_characteristic(uuids: &Vec<u128>) -> (r: Option<usize>)
    ensures
        match r {
            Some(i) => i < uuids@.len() && spec_firmware_of(uuids@[i as int]) is Some
                && forall|k: int| 0 <= k < i ==> spec_firmware_of(#[trigger] uuids@[k]) is None,
            None => forall|k: int| 0 <= k < uuids@.len() ==> spec_firmware_of(#[trigger] uuids@[k]) is None,
        },
        match r {
            Some(i) => (uuids@[i as int] == BUTTON_STATUS_V1 || uuids@[i as int] == BUTTON_STATUS_V2)
                && forall|k: int| 0 <= k < i ==> #[trigger] uuids@[k] != BUTTON_STATUS_V1 && uuids@[k] != BUTTON_STATUS_V2,
            None => forall|k: int| 0 <= k < uuids@.len() ==> #[trigger] uuids@[k] != BUTTON_STATUS_V1 && uuids@[k] != BUTTON_STATUS_V2,
        },
{
    let mut i: usize = 0;
    while i < uuids.len()
        invariant
            i <= uuids@.len(),
            forall|k: int| 0 <= k < i ==> spec_firmware_of(#[trigger] uuids@[k]) is None,
        decreases uuids@.len() - i,
    {
        if Firmware::of_characteristic(uuids[i]).is_some() {
            return Some(i);
        }
        i = i + 1;
    }
    None
}

/// The names of the directions are the words `north`, `east`, `west` and
/// `south`, so no two directions share a name.
pub proof fn lemma_direction_names(d1: Direction, d2: Direction)
    ensures
        Direction::North.spec_name() == seq!['n', 'o', 'r', 't', 'h'],
        Direction::East.spec_name() == seq!['e', 'a', 's', 't'],
        Direction::West.spec_name() == seq!['w', 'e', 's', 't'],
        Direction::South.spec_name() == seq!['s', 'o', 'u', 't', 'h'],
        d1 != d2 ==> d1.spec_name() != d2.spec_name(),
{
    reveal_strlit("north");
    reveal_strlit("east");
    reveal_strlit("west");
    reveal_strlit("south");
    assert(Direction::North.spec_name() =~= seq!['n', 'o', 'r', 't', 'h']);
    assert(Direction::East.spec_name() =~= seq!['e', 'a', 's', 't']);
    assert(Direction::West.spec_name() =~= seq!['w', 'e', 's', 't']);
    assert(Direction::South.spec_name() =~= seq!['s', 'o', 'u', 't', 'h']);
    if d1 != d2 {
        let a = d1.spec_name();
        let b = d2.spec_name();
        if a.len() == b.len() {
            assert(a[0] != b[0] || a[1] != b[1]);
        }
    }
}

/// A report carries a hardware double-click exactly when its double-click
/// state is neither 0x0 nor 0xF; for a non-empty report that is when the
/// upper nibble of its first byte is neither 0x0 nor 0xF.
pub proof fn lemma_double_click_flag(s: ButtonState, b: u8, rest: Seq<u8>)
    ensures
        s.spec_is_double_click() <==> (s.double_state != 0 && s.double_state != 15),
        decoded_state(seq![b] + rest).spec_is_double_click() <==> (b / 16 != 0 && b / 16 != 15),
        decoded_state(Seq::empty()).spec_is_double_click() == false,
{
    assert((seq![b] + rest)[0] == b);
    assert((seq![b] + rest).len() > 0);
}

/// A characteristic is a button-status characteristic exactly when its
/// identifier is that of firmware V1 or V2, and it tells which firmware.
pub proof fn lemma_button_characteristics(uuid: u128)
    ensures
        spec_firmware_of(uuid) is Some <==> (uuid == BUTTON_STATUS_V1 || uuid == BUTTON_STATUS_V2),
        spec_firmware_of(uuid) == Some(Firmware::V1) <==> uuid == 0x47099164_4d08_4338_bedf_7fc043dbec5c,
        spec_firmware_of(uuid) == Some(Firmware::V2) <==> uuid == 0x99c31525_dc4f_41b1_bb04_4e4deb81fadd,
        BUTTON_STATUS_V1 != BUTTON_STATUS_V2,
{
}

} // verus!
