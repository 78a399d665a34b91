//! Input classification and dispatch.
//!
//! Raw device events arrive as plain `(type, code, value)` triples and are
//! classified into button and d-pad presses. Each device carries a handler
//! that turns a press into the browser operations to perform; running those
//! operations (and reading the devices) stays with the caller.

use vstd::prelude::*;

use crate::config::{lookup_u16, Config, ConfigError};
use crate::matcher::{konami_code, spec_feed, FeedResult, Konami};

verus! {

/// A d-pad direction.
#[derive(Clone, Copy, Debug, PartialEq, Eq, Structural)]
pub enum Direction {
    Up,
    Down,
    Left,
    Right,
}

/// One classified input event.
#[derive(Clone, Copy, Debug, PartialEq, Eq, Structural)]
pub enum InputAction {
    /// A numbered button went down.
    Button(u16),
    /// The d-pad was pushed in a direction.
    Dpad(Direction),
}

/// An operation for the controller (or an external collaborator) to perform.
#[derive(Debug, PartialEq, Eq)]
pub enum BrowserOp {
    /// Forward a key combination to the browser as a user press.
    UserPress(String),
    GotoPreviousTab,
    GotoNextTab,
    ReloadTab,
    TogglePause,
    /// Navigate to a named tab, optionally letting the browser settle after.
    GotoByName { name: String, sync: bool },
    /// Announce that the named timer was reset.
    ResetTimer(String),
    /// Run a configured shell command.
    RunCommand(String),
}

/// Classification of a raw event triple: key-down events (type 1, value 1)
/// in the two gamepad button ranges become numbered buttons, and absolute-
/// axis events (type 3) on the X and Y axes become d-pad directions, with
/// 127 as the neutral centre value.
pub open spec fn spec_classify(event_type: u16, code: u16, value: i32) -> Option<InputAction> {
    if event_type == 1 {
        if value == 1 {
            if 288 <= code <= 303 {
                Some(InputAction::Button((code - 288) as u16))
            } else if 704 <= code <= 712 {
                Some(InputAction::Button((code - 704 + 16) as u16))
            } else {
                None
            }
        } else {
            None
        }
    } else if event_type == 3 {
        if code == 0 {
            if value < 127 {
                Some(InputAction::Dpad(Direction::Left))
            } else if value > 127 {
                Some(InputAction::Dpad(Direction::Right))
            } else {
                None
            }
        } else if code == 1 {
            if value < 127 {
                Some(InputAction::Dpad(Direction::Up))
            } else if value > 127 {
                Some(InputAction::Dpad(Direction::Down))
            } else {
                None
            }
        } else {
            None
        }
    } else {
        None
    }
}

/// Classify one raw input event (the type and code values are the kernel
/// input-event conventions: type 1 is a key, type 3 an absolute axis).
pub fn classify_event(event_type: u16, code: u16, value: i32) -> (r: Option<InputAction>)
    ensures
        r == spec_classify(event_type, code, value),
{
    if event_type == 1 {
        if value == 1 {
            if 288 <= code && code <= 303 {
                Some(InputAction::Button(code - 288))
            } else if 704 <= code && code <= 712 {
                Some(InputAction::Button(code - 704 + 16))
            } else {
                None
            }
        } else {
            None
        }
    } else if event_type == 3 {
        if code == 0 {
            if value < 127 {
                Some(InputAction::Dpad(Direction::Left))
            } else if value > 127 {
                Some(InputAction::Dpad(Direction::Right))
            } else {
                None
            }
        } else if code == 1 {
            if value < 127 {
                Some(InputAction::Dpad(Direction::Up))
            } else if value > 127 {
                Some(InputAction::Dpad(Direction::Down))
            } else {
                None
            }
        } else {
            None
        }
    } else {
        None
    }
}

/// The code symbol fed to the matcher for a button.
pub open spec fn button_symbol(id: u16) -> char {
    if id == 0 {
        'X'
    } else if id == 1 {
        'A'
    } else if id == 2 {
        'B'
    } else if id == 3 {
        'Y'
    } else if id == 9 {
        'S'
    } else {
        '*'
    }
}

/// The code symbol fed to the matcher for a d-pad direction.
pub open spec fn dpad_symbol(dir: Direction) -> char {
    match dir {
        Direction::Up => 'U',
        Direction::Down => 'D',
        Direction::Left => 'L',
        Direction::Right => 'R',
    }
}

/// The operations a button press produces when no code entry is in
/// progress: the four face buttons forward a key, the bumpers change tabs,
/// select reloads, start toggles the pause, and anything else does nothing.
pub open spec fn nav_button_result(id: u16, ops: Seq<BrowserOp>) -> bool {
    if id == 0 {
        ops.len() == 1 && (ops[0] matches BrowserOp::UserPress(k) && k@ == "x"@)
    } else if id == 1 {
        ops.len() == 1 && (ops[0] matches BrowserOp::UserPress(k) && k@ == "a"@)
    } else if id == 2 {
        ops.len() == 1 && (ops[0] matches BrowserOp::UserPress(k) && k@ == "b"@)
    } else if id == 3 {
        ops.len() == 1 && (ops[0] matches BrowserOp::UserPress(k) && k@ == "y"@)
    } else if id == 4 {
        ops.len() == 1 && ops[0] is GotoPreviousTab
    } else if id == 5 {
        ops.len() == 1 && ops[0] is GotoNextTab
    } else if id == 8 {
        ops.len() == 1 && ops[0] is ReloadTab
    } else if id == 9 {
        ops.len() == 1 && ops[0] is TogglePause
    } else {
        ops.len() == 0
    }
}

/// The operations of a navigation button press, given the matcher's window
/// before the press and the configured code command: nothing while a code
/// entry is in progress, the configured command when the code completes, and
/// the plain button action otherwise.
pub open spec fn nav_press_result(
    window0: Seq<char>,
    konami_cmd: Option<Seq<char>>,
    id: u16,
    ops: Seq<BrowserOp>,
) -> bool {
    match spec_feed(window0, konami_code(), button_symbol(id)).1 {
        FeedResult::Matching => ops.len() == 0,
        FeedResult::Complete => match konami_cmd {
            Some(cmd) => ops.len() == 1 && (ops[0] matches BrowserOp::RunCommand(c) && c@ == cmd),
            None => ops.len() == 0,
        },
        FeedResult::Reset => nav_button_result(id, ops),
    }
}

/// The operation a d-pad press always produces: up and down forward keys,
/// left and right change tabs.
pub open spec fn nav_dpad_result(dir: Direction, ops: Seq<BrowserOp>) -> bool {
    match dir {
        Direction::Up => ops.len() == 1 && (ops[0] matches BrowserOp::UserPress(k) && k@ == "Up"@),
        Direction::Down => ops.len() == 1 && (ops[0] matches BrowserOp::UserPress(k) && k@
            == "Down"@),
        Direction::Left => ops.len() == 1 && ops[0] is GotoPreviousTab,
        Direction::Right => ops.len() == 1 && ops[0] is GotoNextTab,
    }
}

/// The operations a tabs-keyboard button produces: none for an unconfigured
/// button, a shell command for a name with the command prefix, and a
/// navigation by name otherwise.
pub open spec fn tabs_press_result(
    tabs: Option<Seq<(u16, String)>>,
    id: u16,
    ops: Seq<BrowserOp>,
) -> bool {
    match tabs {
        None => ops.len() == 0,
        Some(entries) => match lookup_u16(entries, id) {
            None => ops.len() == 0,
            Some(name) => if name.len() >= 1 && name[0] == '!' {
                ops.len() == 1 && (ops[0] matches BrowserOp::RunCommand(c) && c@ == name.skip(1))
            } else {
                ops.len() == 1 && (ops[0] matches BrowserOp::GotoByName { name: n, sync } && n@
                    == name && sync == false)
            },
        },
    }
}

/// The operations a timers-keyboard button produces: none for an
/// unconfigured button, else a synchronous switch to the timers tab followed
/// by the named timer's reset.
pub open spec fn timers_press_result(
    timers: Option<Seq<(u16, String)>>,
    id: u16,
    ops: Seq<BrowserOp>,
) -> bool {
    match timers {
        None => ops.len() == 0,
        Some(entries) => match lookup_u16(entries, id) {
            None => ops.len() == 0,
            Some(name) => ops.len() == 2 && (ops[0] matches BrowserOp::GotoByName {
                name: n,
                sync,
            } && n@ == "timers"@ && sync == true) && (ops[1] matches BrowserOp::ResetTimer(t) && t@
                == name),
        },
    }
}

/// The main keyboard's handler: navigation buttons plus the code detector.
pub struct Navigation {
    konami: Konami,
}

impl Navigation {
    pub closed spec fn window(&self) -> Seq<char> {
        self.konami.window()
    }

    pub closed spec fn wf(&self) -> bool {
        self.konami.wf()
    }

    pub fn new() -> (r: Navigation)
        ensures
            r.wf(),
            r.window() == Seq::<char>::empty(),
    {
        Navigation { konami: Konami::new() }
    }

    /// Handle a button press: feed its symbol to the code detector and
    /// produce the resulting operations.
    pub fn button_press(&mut self, id: u16, config: &Config) -> (ops: Vec<BrowserOp>)
        requires
            old(self).wf(),
        ensures
            final(self).wf(),
            final(self).window() == spec_feed(
                old(self).window(),
                konami_code(),
                button_symbol(id),
            ).0,
            nav_press_result(old(self).window(), config.state().konami(), id, ops@),
    {
        let symbol: char = if id == 0 {
            'X'
        } else if id == 1 {
            'A'
        } else if id == 2 {
            'B'
        } else if id == 3 {
            'Y'
        } else if id == 9 {
            'S'
        } else {
            '*'
        };
        let mut ops: Vec<BrowserOp> = Vec::new();
        match self.konami.add(symbol) {
            Some(false) => {
                if id == 0 {
                    ops.push(BrowserOp::UserPress("x".to_owned()));
                } else if id == 1 {
                    ops.push(BrowserOp::UserPress("a".to_owned()));
                } else if id == 2 {
                    ops.push(BrowserOp::UserPress("b".to_owned()));
                } else if id == 3 {
                    ops.push(BrowserOp::UserPress("y".to_owned()));
                } else if id == 4 {
                    ops.push(BrowserOp::GotoPreviousTab);
                } else if id == 5 {
                    ops.push(BrowserOp::GotoNextTab);
                } else if id == 8 {
                    ops.push(BrowserOp::ReloadTab);
                } else if id == 9 {
                    ops.push(BrowserOp::TogglePause);
                }
            },
            None => {},
            Some(true) => {
                match config.konami_command() {
                    Ok(cmd) => {
                        ops.push(BrowserOp::RunCommand(cmd));
                    },
                    Err(_) => {},
                }
            },
        }
        ops
    }

    /// Handle a d-pad press: feed its symbol to the code detector, then
    /// always perform the direction's action.
    pub fn dpad_press(&mut self, dir: Direction) -> (ops: Vec<BrowserOp>)
        requires
            old(self).wf(),
        ensures
            final(self).wf(),
            final(self).window() == spec_feed(
                old(self).window(),
                konami_code(),
                dpad_symbol(dir),
            ).0,
            nav_dpad_result(dir, ops@),
    {
        let symbol: char = match dir {
            Direction::Up => 'U',
            Direction::Down => 'D',
            Direction::Left => 'L',
            Direction::Right => 'R',
        };
        let _ = self.konami.add(symbol);
        let mut ops: Vec<BrowserOp> = Vec::new();
        match dir {
            Direction::Up => ops.push(BrowserOp::UserPress("Up".to_owned())),
            Direction::Down => ops.push(BrowserOp::UserPress("Down".to_owned())),
            Direction::Left => ops.push(BrowserOp::GotoPreviousTab),
            Direction::Right => ops.push(BrowserOp::GotoNextTab),
        }
        ops
    }
}

/// The tabs keyboard's handler: each button is bound by name to a tab or,
/// with the `!` prefix, to a shell command.
pub struct Tabs {}

impl Tabs {
    pub fn new() -> (r: Tabs) {
        Tabs {  }
    }

    pub fn button_press(&self, id: u16, config: &Config) -> (ops: Vec<BrowserOp>)
        ensures
            tabs_press_result(config.state().tabs(), id, ops@),
    {
        let mut ops: Vec<BrowserOp> = Vec::new();
        match config.tabs_key(id) {
            Ok(name) => {
                let s = name.as_str();
                let n = s.unicode_len();
                if n >= 1 && s.get_char(0) == '!' {
                    proof {
                        reveal_strlit("!");
                    }
                    let rest = s.substring_char(1, n).to_owned();
                    proof {
                        assert(rest@ =~= name@.skip(1));
                    }
                    ops.push(BrowserOp::RunCommand(rest));
                } else {
                    proof {
                        reveal_strlit("!");
                    }
                    ops.push(BrowserOp::GotoByName { name, sync: false });
                }
            },
            Err(_) => {},
        }
        ops
    }

    pub fn dpad_press(&self, _dir: Direction) -> (ops: Vec<BrowserOp>)
        ensures
            ops@.len() == 0,
    {
        Vec::new()
    }
}

/// The timers keyboard's handler: each button names a timer to reset after
/// switching to the timers tab.
pub struct Timers {}

impl Timers {
    pub fn new() -> (r: Timers) {
        Timers {  }
    }

    pub fn button_press(&self, id: u16, config: &Config) -> (ops: Vec<BrowserOp>)
        ensures
            timers_press_result(config.state().timers(), id, ops@),
    {
        let mut ops: Vec<BrowserOp> = Vec::new();
        match config.timers_key(id) {
            Ok(name) => {
                ops.push(BrowserOp::GotoByName { name: "timers".to_owned(), sync: true });
                ops.push(BrowserOp::ResetTimer(name));
            },
            Err(_) => {},
        }
        ops
    }

    pub fn dpad_press(&self, _dir: Direction) -> (ops: Vec<BrowserOp>)
        ensures
            ops@.len() == 0,
    {
        Vec::new()
    }
}

/// The closed set of per-device handlers.
pub enum Handlers {
    Navigation(Navigation),
    Tabs(Tabs),
    Timers(Timers),
}

/// How a handler answers a button press: the handler after the press and the
/// operations produced, by the handler's kind.
pub open spec fn button_transition(
    h0: Handlers,
    h1: Handlers,
    config: Config,
    id: u16,
    ops: Seq<BrowserOp>,
) -> bool {
    match h0 {
        Handlers::Navigation(nav0) => {
            &&& h1 matches Handlers::Navigation(nav1) && nav1.window() == spec_feed(
                nav0.window(),
                konami_code(),
                button_symbol(id),
            ).0
            &&& nav_press_result(nav0.window(), config.state().konami(), id, ops)
        },
        Handlers::Tabs(_) => h1 == h0 && tabs_press_result(config.state().tabs(), id, ops),
        Handlers::Timers(_) => h1 == h0 && timers_press_result(config.state().timers(), id, ops),
    }
}

/// How a handler answers a d-pad press.
pub open spec fn dpad_transition(
    h0: Handlers,
    h1: Handlers,
    dir: Direction,
    ops: Seq<BrowserOp>,
) -> bool {
    match h0 {
        Handlers::Navigation(nav0) => {
            &&& h1 matches Handlers::Navigation(nav1) && nav1.window() == spec_feed(
                nav0.window(),
                konami_code(),
                dpad_symbol(dir),
            ).0
            &&& nav_dpad_result(dir, ops)
        },
        Handlers::Tabs(_) => h1 == h0 && ops.len() == 0,
        Handlers::Timers(_) => h1 == h0 && ops.len() == 0,
    }
}

impl Handlers {
    pub open spec fn wf(&self) -> bool {
        match self {
            Handlers::Navigation(nav) => nav.wf(),
            Handlers::Tabs(_) => true,
            Handlers::Timers(_) => true,
        }
    }

    /// Dispatch a button press to the handler.
    pub fn button_press(&mut self, id: u16, config: &Config) -> (ops: Vec<BrowserOp>)
        requires
            old(self).wf(),
        ensures
            final(self).wf(),
            button_transition(*old(self), *final(self), *config, id, ops@),
    {
        match self {
            Handlers::Navigation(nav) => nav.button_press(id, config),
            Handlers::Tabs(tabs) => tabs.button_press(id, config),
            Handlers::Timers(timers) => timers.button_press(id, config),
        }
    }

    /// Dispatch a d-pad press to the handler.
    pub fn dpad_press(&mut self, dir: Direction) -> (ops: Vec<BrowserOp>)
        requires
            old(self).wf(),
        ensures
            final(self).wf(),
            dpad_transition(*old(self), *final(self), dir, ops@),
    {
        match self {
            Handlers::Navigation(nav) => nav.dpad_press(dir),
            Handlers::Tabs(tabs) => tabs.dpad_press(dir),
            Handlers::Timers(timers) => timers.dpad_press(dir),
        }
    }
}

/// One input device: where to read it and how to handle its events.
pub struct Device {
    pub name: String,
    pub path: String,
    pub handler: Handlers,
}

impl Device {
    pub open spec fn wf(&self) -> bool {
        self.handler.wf()
    }

    pub fn new(name: &str, path: String, handler: Handlers) -> (r: Device)
        ensures
            r.name@ == name@,
            r.path == path,
            r.handler == handler,
    {
        Device { name: name.to_owned(), path, handler }
    }

    /// Build a device whose configured path may be missing: absent
    /// configuration means no device.
    pub fn new_optional(name: &str, path: Result<String, ConfigError>, handler: Handlers) -> (r:
        Option<Device>)
        ensures
            match path {
                Ok(p) => r matches Some(d) && d.name@ == name@ && d.path == p && d.handler
                    == handler,
                Err(_) => r is None,
            },
    {
        match path {
            Ok(path) => Some(Device::new(name, path, handler)),
            Err(_) => None,
        }
    }

    /// Handle a classified button press on this device.
    pub fn button_press(&mut self, id: u16, config: &Config) -> (ops: Vec<BrowserOp>)
        requires
            old(self).wf(),
        ensures
            final(self).wf(),
            final(self).name == old(self).name,
            final(self).path == old(self).path,
            button_transition(old(self).handler, final(self).handler, *config, id, ops@),
    {
        self.handler.button_press(id, config)
    }

    /// Handle a classified d-pad press on this device.
    pub fn dpad_press(&mut self, dir: Direction) -> (ops: Vec<BrowserOp>)
        requires
            old(self).wf(),
        ensures
            final(self).wf(),
            final(self).name == old(self).name,
            final(self).path == old(self).path,
            dpad_transition(old(self).handler, final(self).handler, dir, ops@),
    {
        self.handler.dpad_press(dir)
    }

    /// Handle one raw event triple: classify it and dispatch the press, if
    /// any.
    pub fn handle_event(&mut self, event_type: u16, code: u16, value: i32, config: &Config) -> (
        ops: Vec<BrowserOp>)
        requires
            old(self).wf(),
        ensures
            final(self).wf(),
            final(self).name == old(self).name,
            final(self).path == old(self).path,
            match spec_classify(event_type, code, value) {
                None => *final(self) == *old(self) && ops@.len() == 0,
                Some(InputAction::Button(id)) => button_transition(
                    old(self).handler,
                    final(self).handler,
                    *config,
                    id,
                    ops@,
                ),
                Some(InputAction::Dpad(dir)) => dpad_transition(
                    old(self).handler,
                    final(self).handler,
                    dir,
                    ops@,
                ),
            },
    {
        match classify_event(event_type, code, value) {
            Some(InputAction::Button(id)) => self.button_press(id, config),
            Some(InputAction::Dpad(dir)) => self.dpad_press(dir),
            None => Vec::new(),
        }
    }
}

/// The set of configured input devices: the main keyboard is required, the
/// tabs and timers keyboards are optional.
pub struct Input {
    pub main: Device,
    pub tabs: Option<Device>,
    pub timers: Option<Device>,
}

impl Input {
    pub open spec fn wf(&self) -> bool {
        &&& self.main.wf()
        &&& self.main.handler is Navigation
        &&& (self.tabs matches Some(d) ==> d.wf() && d.handler is Tabs)
        &&& (self.timers matches Some(d) ==> d.wf() && d.handler is Timers)
    }

    /// Build the devices from the configured keyboard paths. Fails exactly
    /// when the main keyboard is not configured; the tabs and timers
    /// keyboards are omitted when theirs are not.
    pub fn new(config: &Config) -> (r: Result<Input, ConfigError>)
        ensures
            match r {
                Ok(input) => {
                    &&& input.wf()
                    &&& config.state().keyboards() is Some
                    &&& crate::config::lookup_str(config.state().keyboards()->0, "main"@)
                        == Some(input.main.path@)
                    &&& (input.tabs is Some <==> crate::config::lookup_str(
                        config.state().keyboards()->0,
                        "tabs"@,
                    ) is Some)
                    &&& (input.tabs matches Some(d) ==> crate::config::lookup_str(
                        config.state().keyboards()->0,
                        "tabs"@,
                    ) == Some(d.path@))
                    &&& (input.timers is Some <==> crate::config::lookup_str(
                        config.state().keyboards()->0,
                        "timers"@,
                    ) is Some)
                    &&& (input.timers matches Some(d) ==> crate::config::lookup_str(
                        config.state().keyboards()->0,
                        "timers"@,
                    ) == Some(d.path@))
                },
                Err(e) => (config.state().keyboards() is None && e == ConfigError::NoKeyboards)
                    || (config.state().keyboards() is Some && crate::config::lookup_str(
                    config.state().keyboards()->0,
                    "main"@,
                ) is None && e == ConfigError::MissingKeyboard),
            },
    {
        let main_path = match config.keyboard_device("main") {
            Ok(p) => p,
            Err(e) => {
                return Err(e);
            },
        };
        Ok(
            Input {
                main: Device::new("main", main_path, Handlers::Navigation(Navigation::new())),
                tabs: Device::new_optional(
                    "tabs",
                    config.keyboard_device("tabs"),
                    Handlers::Tabs(Tabs::new()),
                ),
                timers: Device::new_optional(
                    "timers",
                    config.keyboard_device("timers"),
                    Handlers::Timers(Timers::new()),
                ),
            },
        )
    }
}

} // verus!
