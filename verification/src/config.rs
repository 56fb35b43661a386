use vstd::prelude::*;
use vstd::string::*;

use crate::protocol::{join_names, joined_names, ButtonEvent, Direction, EventView};

verus! {

/// The commands of the user, one section per direction and one for
/// multi-button presses. A missing command means the event is only logged.
#[derive(Debug)]
pub struct Config {
    pub north: DirectionConfig,
    pub east: DirectionConfig,
    pub west: DirectionConfig,
    pub south: DirectionConfig,
    pub multi: MultiConfig,
}

#[derive(Debug)]
pub struct MultiConfig {
    /// Command for any multi-button press (all combos)
    pub press: Option<String>,
}

#[derive(Debug)]
pub struct DirectionConfig {
    pub press: Option<String>,
    pub double: Option<String>,
    pub hold: Option<String>,
}

/// The text of an optional owned string.
pub open spec fn text_of(o: Option<String>) -> Option<Seq<char>> {
    match o {
        Some(s) => Some(s@),
        None => None,
    }
}

/// The text of an optional borrowed string.
pub open spec fn str_text_of(o: Option<&str>) -> Option<Seq<char>> {
    match o {
        Some(s) => Some(s@),
        None => None,
    }
}

/// The direction part of the environment of an event: its direction, or
/// for a multi-button press the pressed directions joined by `+`.
pub open spec fn direction_text(e: EventView) -> Seq<char> {
    match e {
        EventView::Press(d) => d.spec_name(),
        EventView::DoubleTap(d) => d.spec_name(),
        EventView::Hold(d) => d.spec_name(),
        EventView::Multi(ds) => joined_names(ds),
    }
}

/// The kind of an event as given to commands.
pub open spec fn kind_text(e: EventView) -> Seq<char> {
    match e {
        EventView::Press(_) => "press"@,
        EventView::DoubleTap(_) => "double"@,
        EventView::Hold(_) => "hold"@,
        EventView::Multi(_) => "multi"@,
    }
}

/// The text of each name and value of a list of environment variables.
pub open spec fn env_text(env: Seq<(String, String)>) -> Seq<(Seq<char>, Seq<char>)> {
    env.map_values(|p: (String, String)| (p.0@, p.1@))
}

/// The environment variables a command for event `e` runs with.
pub open spec fn event_env(e: EventView) -> Seq<(Seq<char>, Seq<char>)> {
    seq![("TT_DIRECTION"@, direction_text(e)), ("TT_EVENT"@, kind_text(e))]
}

impl Default for DirectionConfig {
    fn default() -> (r: Self)
        ensures
            r.press is None && r.double is None && r.hold is None,
    {
        DirectionConfig { press: None, double: None, hold: None }
    }
}

impl Default for MultiConfig {
    fn default() -> (r: Self)
        ensures
            r.press is None,
    {
        MultiConfig { press: None }
    }
}

impl Default for Config {
    fn default() -> (r: Self)
        ensures
            r.is_empty(),
    {
        Config {
            north: DirectionConfig::default(),
            east: DirectionConfig::default(),
            west: DirectionConfig::default(),
            south: DirectionConfig::default(),
            multi: MultiConfig::default(),
        }
    }
}

impl Config {
    /// No command is configured at all.
    pub open spec fn is_empty(self) -> bool {
        &&& self.north.press is None && self.north.double is None && self.north.hold is None
        &&& self.east.press is None && self.east.double is None && self.east.hold is None
        &&& self.west.press is None && self.west.double is None && self.west.hold is None
        &&& self.south.press is None && self.south.double is None && self.south.hold is None
        &&& self.multi.press is None
    }

    /// The section of direction `dir`.
    pub open spec fn section(self, dir: Direction) -> DirectionConfig {
        match dir {
            Direction::North => self.north,
            Direction::East => self.east,
            Direction::West => self.west,
            Direction::South => self.south,
        }
    }

    /// The command configured for event `e`: the `press`, `double` or `hold`
    /// entry of its direction, or the `multi` section's `press` entry for any
    /// multi-button press.
    pub open spec fn spec_command(self, e: EventView) -> Option<Seq<char>> {
        match e {
            EventView::Multi(_) => text_of(self.multi.press),
            EventView::Press(d) => text_of(self.section(d).press),
            EventView::DoubleTap(d) => text_of(self.section(d).double),
            EventView::Hold(d) => text_of(self.section(d).hold),
        }
    }

    fn direction_config(&self, dir: Direction) -> (r: &DirectionConfig)
        ensures
            *r == self.section(dir),
    {
        match dir {
            Direction::North => &self.north,
            Direction::East => &self.east,
            Direction::West => &self.west,
            Direction::South => &self.south,
        }
    }

    /// The configuration to run with: the one that was loaded, or the empty
    /// one (print-only mode) when none could be read or parsed.
    pub fn or_default(loaded: Option<Config>) -> (r: Config)
        ensures
            match loaded {
                Some(c) => r == c,
                None => r.is_empty(),
            },
    {
        match loaded {
            Some(c) => c,
            None => Config::default(),
        }
    }

    /// The command configured for `event`, if any.
    pub fn command_for(&self, event: &ButtonEvent) -> (r: Option<&str>)
        ensures
            str_text_of(r) == self.spec_command(event@),
    {
        let entry = match event {
            ButtonEvent::Multi(_) => &self.multi.press,
            ButtonEvent::Press(d) => &self.direction_config(*d).press,
            ButtonEvent::DoubleTap(d) => &self.direction_config(*d).double,
            ButtonEvent::Hold(d) => &self.direction_config(*d).hold,
        };
        match entry {
            Some(cmd) => Some(cmd.as_str()),
            None => None,
        }
    }

    /// The environment a command for `event` runs with: `TT_DIRECTION`, then
    /// `TT_EVENT`.
    pub fn to_env_map(event: &ButtonEvent) -> (r: Vec<(String, String)>)
        ensures
            env_text(r@) == event_env(event@),
    {
        let (direction, kind) = match event {
            ButtonEvent::Multi(dirs) => (join_names(dirs), String::from_str("multi")),
            ButtonEvent::Press(d) => (d.to_string(), String::from_str("press")),
            ButtonEvent::DoubleTap(d) => (d.to_string(), String::from_str("double")),
            ButtonEvent::Hold(d) => (d.to_string(), String::from_str("hold")),
        };
        let mut env: Vec<(String, String)> = Vec::new();
        env.push((String::from_str("TT_DIRECTION"), direction));
        env.push((String::from_str("TT_EVENT"), kind));
        assert(env_text(env@) =~= event_env(event@));
        env
    }
}

/// Without any configured command (as when no config file exists) no event
/// has a command: events are only logged.
pub proof fn lemma_empty_config_runs_nothing(c: Config, e: EventView)
    requires
        c.is_empty(),
    ensures
        c.spec_command(e) is None,
{
}

/// One command serves every multi-button press, whatever the buttons.
pub proof fn lemma_multi_command_ignores_buttons(c: Config, a: Seq<Direction>, b: Seq<Direction>)
    ensures
        c.spec_command(EventView::Multi(a)) == c.spec_command(EventView::Multi(b)),
{
}

/// Each single-button event runs the entry of the section named after its
/// button: `press` for a press, `double` for a double tap, `hold` for a hold.
pub proof fn lemma_commands_by_section(c: Config)
    ensures
        c.spec_command(EventView::Press(Direction::North)) == text_of(c.north.press),
        c.spec_command(EventView::DoubleTap(Direction::North)) == text_of(c.north.double),
        c.spec_command(EventView::Hold(Direction::North)) == text_of(c.north.hold),
        c.spec_command(EventView::Press(Direction::East)) == text_of(c.east.press),
        c.spec_command(EventView::DoubleTap(Direction::East)) == text_of(c.east.double),
        c.spec_command(EventView::Hold(Direction::East)) == text_of(c.east.hold),
        c.spec_command(EventView::Press(Direction::West)) == text_of(c.west.press),
        c.spec_command(EventView::DoubleTap(Direction::West)) == text_of(c.west.double),
        c.spec_command(EventView::Hold(Direction::West)) == text_of(c.west.hold),
        c.spec_command(EventView::Press(Direction::South)) == text_of(c.south.press),
        c.spec_command(EventView::DoubleTap(Direction::South)) == text_of(c.south.double),
        c.spec_command(EventView::Hold(Direction::South)) == text_of(c.south.hold),
        forall|ds: Seq<Direction>| c.spec_command(EventView::Multi(ds)) == text_of(c.multi.press),
{
}

/// A command for a single-button event runs with `TT_DIRECTION` set to the
/// button's name and `TT_EVENT` to `press`, `double` or `hold`; for a
/// multi-button press, to the pressed buttons' names joined by `+` and
/// `multi`.
pub proof fn lemma_event_environment(d: Direction, ds: Seq<Direction>)
    ensures
        event_env(EventView::Press(d)) == seq![("TT_DIRECTION"@, d.spec_name()), ("TT_EVENT"@, "press"@)],
        event_env(EventView::DoubleTap(d)) == seq![("TT_DIRECTION"@, d.spec_name()), ("TT_EVENT"@, "double"@)],
        event_env(EventView::Hold(d)) == seq![("TT_DIRECTION"@, d.spec_name()), ("TT_EVENT"@, "hold"@)],
        event_env(EventView::Multi(ds)) == seq![("TT_DIRECTION"@, joined_names(ds)), ("TT_EVENT"@, "multi"@)],
        event_env(EventView::Press(Direction::East))[0].1 == seq!['e', 'a', 's', 't'],
        forall|d1: Direction, d2: Direction| d1 != d2 ==>
            #[trigger] event_env(EventView::Press(d1)) != #[trigger] event_env(EventView::Press(d2)),
{
    crate::protocol::lemma_direction_names(Direction::North, Direction::East);
    assert forall|d1: Direction, d2: Direction| d1 != d2 implies
        #[trigger] event_env(EventView::Press(d1)) != #[trigger] event_env(EventView::Press(d2)) by {
        crate::protocol::lemma_direction_names(d1, d2);
        assert(event_env(EventView::Press(d1))[0].1 == d1.spec_name());
        assert(event_env(EventView::Press(d2))[0].1 == d2.spec_name());
    }
}

} // verus!
