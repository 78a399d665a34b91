//! Configuration model.
//!
//! The configuration file itself is parsed outside the library; the decoded
//! values arrive here as plain data. `State` is one immutable snapshot of the
//! decoded configuration with the documented defaults applied; `Config` wraps
//! the current snapshot and answers the lookups the rest of the system makes.

use vstd::prelude::*;

verus! {

/// Command-line options, as plain values.
pub struct CommandLineArgs {
    pub config_file: String,
    /// Start the browser in kiosk mode and auto-advance between tabs.
    pub kiosk: bool,
    /// Inject keystrokes through the external tool instead of the library.
    pub xdotool: bool,
    /// Send keys to the current window without searching for the browser.
    pub no_search: bool,
    /// Logging verbosity.
    pub verbose: u8,
}

/// One configured tab: its page address and, optionally, how long its
/// content may stay unchanged before a reload is due.
#[derive(Debug)]
pub struct Page {
    pub url: String,
    pub reload: Option<u64>,
}

/// A configuration entry that an operation needs is absent.
#[derive(Clone, Copy, Debug, PartialEq, Eq, Structural)]
pub enum ConfigError {
    NoUrls,
    NoKeyboards,
    MissingKeyboard,
    NoTabKeys,
    MissingTabKey,
    NoTimerKeys,
    MissingTimerKey,
    NoKonamiCommand,
    NoMqttHostname,
}

impl ConfigError {
    /// A fixed description of the missing entry.
    pub fn message(&self) -> (r: &'static str)
        ensures
            r@ == spec_message(*self),
    {
        match self {
            ConfigError::NoUrls => "no urls in config",
            ConfigError::NoKeyboards => "no keyboards in config",
            ConfigError::MissingKeyboard => "missing keyboard",
            ConfigError::NoTabKeys => "no tab keys in config",
            ConfigError::MissingTabKey => "missing tab key",
            ConfigError::NoTimerKeys => "no timer keys in config",
            ConfigError::MissingTimerKey => "missing timer key",
            ConfigError::NoKonamiCommand => "no konami setting in config",
            ConfigError::NoMqttHostname => "no mqtt hostname in config",
        }
    }
}

pub open spec fn spec_message(e: ConfigError) -> Seq<char> {
    match e {
        ConfigError::NoUrls => "no urls in config"@,
        ConfigError::NoKeyboards => "no keyboards in config"@,
        ConfigError::MissingKeyboard => "missing keyboard"@,
        ConfigError::NoTabKeys => "no tab keys in config"@,
        ConfigError::MissingTabKey => "missing tab key"@,
        ConfigError::NoTimerKeys => "no timer keys in config"@,
        ConfigError::MissingTimerKey => "missing timer key"@,
        ConfigError::NoKonamiCommand => "no konami setting in config"@,
        ConfigError::NoMqttHostname => "no mqtt hostname in config"@,
    }
}

/// Auto-advance delay applied when the configuration gives none, in seconds.
pub const DEFAULT_AUTOSCROLL_DELAY: u64 = 20;

/// Pause duration applied when the configuration gives none, in seconds.
pub const DEFAULT_AUTOSCROLL_PAUSE: u64 = 900;

/// Hold duration applied when the configuration gives none, in seconds.
pub const DEFAULT_AUTOSCROLL_HOLD: u64 = 300;

/// The value stored under the first occurrence of `name`, if any.
pub open spec fn lookup_str(entries: Seq<(String, String)>, name: Seq<char>) -> Option<Seq<char>>
    decreases entries.len(),
{
    if entries.len() == 0 {
        None
    } else if entries[0].0@ == name {
        Some(entries[0].1@)
    } else {
        lookup_str(entries.drop_first(), name)
    }
}

/// The value stored under the first occurrence of `id`, if any.
pub open spec fn lookup_u16(entries: Seq<(u16, String)>, id: u16) -> Option<Seq<char>>
    decreases entries.len(),
{
    if entries.len() == 0 {
        None
    } else if entries[0].0 == id {
        Some(entries[0].1@)
    } else {
        lookup_u16(entries.drop_first(), id)
    }
}

/// One decoded configuration snapshot.
pub struct State {
    urls: Option<Vec<(String, Page)>>,
    keyboards: Option<Vec<(String, String)>>,
    tabs: Option<Vec<(u16, String)>>,
    timers: Option<Vec<(u16, String)>>,
    konami: Option<String>,
    mqtt_hostname: Option<String>,
    autoscroll_delay: u64,
    autoscroll_pause: u64,
    autoscroll_hold: u64,
}

impl State {
    pub closed spec fn urls(&self) -> Option<Seq<(String, Page)>> {
        match self.urls {
            Some(v) => Some(v@),
            None => None,
        }
    }

    pub closed spec fn keyboards(&self) -> Option<Seq<(String, String)>> {
        match self.keyboards {
            Some(v) => Some(v@),
            None => None,
        }
    }

    pub closed spec fn tabs(&self) -> Option<Seq<(u16, String)>> {
        match self.tabs {
            Some(v) => Some(v@),
            None => None,
        }
    }

    pub closed spec fn timers(&self) -> Option<Seq<(u16, String)>> {
        match self.timers {
            Some(v) => Some(v@),
            None => None,
        }
    }

    pub closed spec fn konami(&self) -> Option<Seq<char>> {
        match self.konami {
            Some(s) => Some(s@),
            None => None,
        }
    }

    pub closed spec fn mqtt_hostname(&self) -> Option<Seq<char>> {
        match self.mqtt_hostname {
            Some(s) => Some(s@),
            None => None,
        }
    }

    pub closed spec fn autoscroll_delay(&self) -> u64 {
        self.autoscroll_delay
    }

    pub closed spec fn autoscroll_pause(&self) -> u64 {
        self.autoscroll_pause
    }

    pub closed spec fn autoscroll_hold(&self) -> u64 {
        self.autoscroll_hold
    }

    /// Assemble a snapshot from decoded values, filling in the documented
    /// defaults for the timing durations the configuration leaves out.
    pub fn new(
        urls: Option<Vec<(String, Page)>>,
        keyboards: Option<Vec<(String, String)>>,
        tabs: Option<Vec<(u16, String)>>,
        timers: Option<Vec<(u16, String)>>,
        konami: Option<String>,
        mqtt_hostname: Option<String>,
        autoscroll_delay: Option<u64>,
        autoscroll_pause: Option<u64>,
        autoscroll_hold: Option<u64>,
    ) -> (r: State)
        ensures
            r.urls() == (match urls {
                Some(v) => Some(v@),
                None => None,
            }),
            r.keyboards() == (match keyboards {
                Some(v) => Some(v@),
                None => None,
            }),
            r.tabs() == (match tabs {
                Some(v) => Some(v@),
                None => None,
            }),
            r.timers() == (match timers {
                Some(v) => Some(v@),
                None => None,
            }),
            r.konami() == (match konami {
                Some(s) => Some(s@),
                None => None,
            }),
            r.mqtt_hostname() == (match mqtt_hostname {
                Some(s) => Some(s@),
                None => None,
            }),
            r.autoscroll_delay() == (match autoscroll_delay {
                Some(d) => d,
                None => DEFAULT_AUTOSCROLL_DELAY,
            }),
            r.autoscroll_pause() == (match autoscroll_pause {
                Some(d) => d,
                None => DEFAULT_AUTOSCROLL_PAUSE,
            }),
            r.autoscroll_hold() == (match autoscroll_hold {
                Some(d) => d,
                None => DEFAULT_AUTOSCROLL_HOLD,
            }),
    {
        let delay = match autoscroll_delay {
            Some(d) => d,
            None => DEFAULT_AUTOSCROLL_DELAY,
        };
        let pause = match autoscroll_pause {
            Some(d) => d,
            None => DEFAULT_AUTOSCROLL_PAUSE,
        };
        let hold = match autoscroll_hold {
            Some(d) => d,
            None => DEFAULT_AUTOSCROLL_HOLD,
        };
        State {
            urls,
            keyboards,
            tabs,
            timers,
            konami,
            mqtt_hostname,
            autoscroll_delay: delay,
            autoscroll_pause: pause,
            autoscroll_hold: hold,
        }
    }
}

/// The current configuration snapshot.
pub struct Config {
    state: State,
}

/// Look up `name` among string-keyed entries.
fn find_str(entries: &Vec<(String, String)>, name: &str) -> (r: Option<String>)
    ensures
        r is Some <==> lookup_str(entries@, name@) is Some,
        r is Some ==> r->0@ == lookup_str(entries@, name@)->0,
{
    let name_owned = name.to_owned();
    let n = entries.len();
    let mut i: usize = 0;
    proof {
        assert(entries@.skip(0) =~= entries@);
    }
    while i < n
        invariant
            name_owned@ == name@,
            n == entries@.len(),
            i <= n,
            lookup_str(entries@, name@) == lookup_str(entries@.skip(i as int), name@),
        decreases n - i,
    {
        proof {
            assert(entries@.skip(i as int).drop_first() =~= entries@.skip(i + 1));
        }
        if entries[i].0 == name_owned {
            return Some(entries[i].1.clone());
        }
        i = i + 1;
    }
    None
}

/// Look up `id` among integer-keyed entries.
fn find_u16(entries: &Vec<(u16, String)>, id: u16) -> (r: Option<String>)
    ensures
        r is Some <==> lookup_u16(entries@, id) is Some,
        r is Some ==> r->0@ == lookup_u16(entries@, id)->0,
{
    let n = entries.len();
    let mut i: usize = 0;
    proof {
        assert(entries@.skip(0) =~= entries@);
    }
    while i < n
        invariant
            n == entries@.len(),
            i <= n,
            lookup_u16(entries@, id) == lookup_u16(entries@.skip(i as int), id),
        decreases n - i,
    {
        proof {
            assert(entries@.skip(i as int).drop_first() =~= entries@.skip(i + 1));
        }
        if entries[i].0 == id {
            return Some(entries[i].1.clone());
        }
        i = i + 1;
    }
    None
}

impl Config {
    pub closed spec fn state(&self) -> State {
        self.state
    }

    /// Wrap a decoded snapshot.
    pub fn new(state: State) -> (r: Config)
        ensures
            r.state() == state,
    {
        Config { state }
    }

    /// Replace the snapshot (the configuration file was re-read).
    pub fn reload(&mut self, state: State)
        ensures
            final(self).state() == state,
    {
        self.state = state;
    }

    /// The configured tabs, in order.
    pub fn browser_urls(&self) -> (r: Result<Vec<(String, Page)>, ConfigError>)
        ensures
            match r {
                Ok(v) => self.state().urls() is Some && v@ == self.state().urls()->0,
                Err(e) => self.state().urls() is None && e == ConfigError::NoUrls,
            },
    {
        match &self.state.urls {
            Some(urls) => {
                let n = urls.len();
                let mut out: Vec<(String, Page)> = Vec::new();
                let mut i: usize = 0;
                while i < n
                    invariant
                        n == urls@.len(),
                        i <= n,
                        out@.len() == i,
                        forall|j: int| 0 <= j < i ==> out@[j] == urls@[j],
                    decreases n - i,
                {
                    let name = urls[i].0.clone();
                    let page = Page { url: urls[i].1.url.clone(), reload: urls[i].1.reload };
                    out.push((name, page));
                    i = i + 1;
                }
                proof {
                    assert(out@ =~= urls@);
                }
                Ok(out)
            },
            None => Err(ConfigError::NoUrls),
        }
    }

    pub fn autoscroll_delay(&self) -> (r: u64)
        ensures
            r == self.state().autoscroll_delay(),
    {
        self.state.autoscroll_delay
    }

    pub fn autoscroll_pause(&self) -> (r: u64)
        ensures
            r == self.state().autoscroll_pause(),
    {
        self.state.autoscroll_pause
    }

    pub fn autoscroll_hold(&self) -> (r: u64)
        ensures
            r == self.state().autoscroll_hold(),
    {
        self.state.autoscroll_hold
    }

    /// The input-device path configured for keyboard `name`.
    pub fn keyboard_device(&self, name: &str) -> (r: Result<String, ConfigError>)
        ensures
            match r {
                Ok(s) => self.state().keyboards() is Some && lookup_str(
                    self.state().keyboards()->0,
                    name@,
                ) == Some(s@),
                Err(e) => (self.state().keyboards() is None && e == ConfigError::NoKeyboards) || (
                self.state().keyboards() is Some && lookup_str(self.state().keyboards()->0, name@)
                    is None && e == ConfigError::MissingKeyboard),
            },
    {
        match &self.state.keyboards {
            Some(entries) => match find_str(entries, name) {
                Some(s) => Ok(s),
                None => Err(ConfigError::MissingKeyboard),
            },
            None => Err(ConfigError::NoKeyboards),
        }
    }

    /// The action name bound to button `id` on the tabs keyboard.
    pub fn tabs_key(&self, id: u16) -> (r: Result<String, ConfigError>)
        ensures
            match r {
                Ok(s) => self.state().tabs() is Some && lookup_u16(self.state().tabs()->0, id)
                    == Some(s@),
                Err(e) => (self.state().tabs() is None && e == ConfigError::NoTabKeys) || (
                self.state().tabs() is Some && lookup_u16(self.state().tabs()->0, id) is None && e
                    == ConfigError::MissingTabKey),
            },
    {
        match &self.state.tabs {
            Some(entries) => match find_u16(entries, id) {
                Some(s) => Ok(s),
                None => Err(ConfigError::MissingTabKey),
            },
            None => Err(ConfigError::NoTabKeys),
        }
    }

    /// The timer name bound to button `id` on the timers keyboard.
    pub fn timers_key(&self, id: u16) -> (r: Result<String, ConfigError>)
        ensures
            match r {
                Ok(s) => self.state().timers() is Some && lookup_u16(self.state().timers()->0, id)
                    == Some(s@),
                Err(e) => (self.state().timers() is None && e == ConfigError::NoTimerKeys) || (
                self.state().timers() is Some && lookup_u16(self.state().timers()->0, id) is None
                    && e == ConfigError::MissingTimerKey),
            },
    {
        match &self.state.timers {
            Some(entries) => match find_u16(entries, id) {
                Some(s) => Ok(s),
                None => Err(ConfigError::MissingTimerKey),
            },
            None => Err(ConfigError::NoTimerKeys),
        }
    }

    /// The command to run when the button code is entered.
    pub fn konami_command(&self) -> (r: Result<String, ConfigError>)
        ensures
            match r {
                Ok(s) => self.state().konami() == Some(s@),
                Err(e) => self.state().konami() is None && e == ConfigError::NoKonamiCommand,
            },
    {
        match &self.state.konami {
            Some(s) => Ok(s.clone()),
            None => Err(ConfigError::NoKonamiCommand),
        }
    }

    /// The host used for presence announcements.
    pub fn mqtt_hostname(&self) -> (r: Result<String, ConfigError>)
        ensures
            match r {
                Ok(s) => self.state().mqtt_hostname() == Some(s@),
                Err(e) => self.state().mqtt_hostname() is None && e == ConfigError::NoMqttHostname,
            },
    {
        match &self.state.mqtt_hostname {
            Some(s) => Ok(s.clone()),
            None => Err(ConfigError::NoMqttHostname),
        }
    }
}

} // verus!
