//! The persisted work/break durations, the status of their background
//! load/save, and the TOML form they are stored in.
//!
//! The file I/O itself and the worker threads live outside the library; the
//! library owns the values, the status transitions, the ordering rule that
//! no save may begin while a load is in flight, and the encoding to and
//! from the settings file's text.

use vstd::prelude::*;

verus! {

/// Where the background load/save of the settings file currently stands.
/// `Idle` is the state before any load or save has been requested.
#[derive(Clone, Copy, Debug, PartialEq, Eq, Structural)]
pub enum Status {
    Saving,
    Saved,
    Loading,
    Loaded,
    Idle,
}

/// The two persisted durations, in whole seconds.
#[derive(Clone, Copy, Debug, PartialEq, Eq, Structural)]
pub struct Config {
    pub work_time: u64,
    pub break_time: u64,
}

/// The TOML document text that `toml::to_string` produces for a settings
/// table holding the two durations (each a table of `secs` and zero
/// `nanos`).
pub uninterp spec fn toml_of_durations(work_secs: u64, break_secs: u64) -> Seq<char>;

/// The two durations that parsing a TOML document yields: the `secs` keys
/// of the `work_time` and `break_time` tables, or `None` where the text is
/// not such a document.
pub uninterp spec fn durations_of_toml(s: Seq<char>) -> Option<(u64, u64)>;

/// Relies on toml::to_string: serializing a table of plain values yields a
/// TOML document determined by those values alone.
#[verifier::external_body]
fn toml_encode_durations(work_secs: u64, break_secs: u64) -> (r: String)
    ensures
        r@ == toml_of_durations(work_secs, break_secs),
{
    let mut work = toml::map::Map::new();
    work.insert("secs".to_owned(), toml::Value::Integer(work_secs as i64));
    work.insert("nanos".to_owned(), toml::Value::Integer(0));
    let mut brk = toml::map::Map::new();
    brk.insert("secs".to_owned(), toml::Value::Integer(break_secs as i64));
    brk.insert("nanos".to_owned(), toml::Value::Integer(0));
    let mut root = toml::map::Map::new();
    root.insert("work_time".to_owned(), toml::Value::Table(work));
    root.insert("break_time".to_owned(), toml::Value::Table(brk));
    toml::to_string(&toml::Value::Table(root)).unwrap_or_default()
}

/// Relies on toml::from_str: parsing is a function of the text alone, and
/// `Value::get` / `Value::as_integer` only read the parsed document.
#[verifier::external_body]
fn toml_decode_durations(s: &str) -> (r: Option<(u64, u64)>)
    ensures
        r == durations_of_toml(s@),
{
    let doc: toml::Value = match toml::from_str(s) {
        Ok(v) => v,
        Err(_) => return None,
    };
    let work = doc.get("work_time")?.get("secs")?.as_integer()?;
    let brk = doc.get("break_time")?.get("secs")?.as_integer()?;
    Some((u64::try_from(work).ok()?, u64::try_from(brk).ok()?))
}

impl Config {
    /// The settings used when no file exists: 30 minutes of work, 15 of
    /// break.
    pub open spec fn spec_default() -> Config {
        Config { work_time: 1800, break_time: 900 }
    }

    /// The configuration a loaded settings text leaves in place: the parsed
    /// durations where the text parses, the previous configuration where it
    /// is missing or corrupt.
    pub open spec fn spec_loaded(self, text: Option<Seq<char>>) -> Config {
        match text {
            Some(t) => match durations_of_toml(t) {
                Some((work, brk)) => Config { work_time: work, break_time: brk },
                None => self,
            },
            None => self,
        }
    }

    /// The TOML document text this configuration is saved as.
    pub fn to_toml(&self) -> (r: String)
        ensures
            r@ == toml_of_durations(self.work_time, self.break_time),
    {
        toml_encode_durations(self.work_time, self.break_time)
    }

    /// Parses a settings text; `None` where it is not a settings document.
    pub fn from_toml(s: &str) -> (r: Option<Config>)
        ensures
            r matches Some(c) ==> durations_of_toml(s@) == Some((c.work_time, c.break_time)),
            r is Some <==> durations_of_toml(s@) is Some,
    {
        match toml_decode_durations(s) {
            Some((work, brk)) => Some(Config { work_time: work, break_time: brk }),
            None => None,
        }
    }
}

impl Default for Config {
    /// The default settings: 30 minutes of work, 15 minutes of break.
    fn default() -> (c: Config)
        ensures
            c == Config::spec_default(),
    {
        Config { work_time: 30 * 60, break_time: 15 * 60 }
    }
}

/// The status text the stats bar shows; nothing before the first load or
/// save is requested.
pub open spec fn spec_status_label(status: Status) -> Seq<char> {
    match status {
        Status::Saving => "Saving"@,
        Status::Saved => "Saved"@,
        Status::Loading => "Loading"@,
        Status::Loaded => "Loaded"@,
        Status::Idle => Seq::<char>::empty(),
    }
}

impl Status {
    /// The text the stats bar shows for this status; empty while `Idle`.
    pub fn label(&self) -> (r: String)
        ensures
            r@ == spec_status_label(*self),
    {
        match self {
            Status::Saving => String::from_str("Saving"),
            Status::Saved => String::from_str("Saved"),
            Status::Loading => String::from_str("Loading"),
            Status::Loaded => String::from_str("Loaded"),
            Status::Idle => String::new(),
        }
    }
}

/// The configuration value and the load/save status. The host shares one
/// manager between its UI and its worker threads behind a single lock,
/// which serializes every status/config update pair and so strengthens a
/// design that guards the two behind independent locks; the methods here
/// are the decisions the threads make while holding it.
pub struct ConfigManager {
    pub status: Status,
    pub config: Config,
}

impl ConfigManager {
    /// A manager holding the default configuration, with nothing loaded or
    /// saved yet.
    pub fn new() -> (m: ConfigManager)
        ensures
            m.status == Status::Idle,
            m.config == Config::spec_default(),
    {
        ConfigManager { status: Status::Idle, config: Config::default() }
    }

    /// The break duration, in seconds.
    pub fn get_break_time(&self) -> (r: u64)
        ensures
            r == self.config.break_time,
    {
        self.config.break_time
    }

    /// The work duration, in seconds.
    pub fn get_work_time(&self) -> (r: u64)
        ensures
            r == self.config.work_time,
    {
        self.config.work_time
    }

    /// Replaces the work duration; the break duration and the status keep
    /// their values.
    pub fn set_work_time(&mut self, time: u64)
        ensures
            final(self).config.work_time == time,
            final(self).config.break_time == old(self).config.break_time,
            final(self).status == old(self).status,
    {
        self.config.work_time = time;
    }

    /// Replaces the break duration; the work duration and the status keep
    /// their values.
    pub fn set_break_time(&mut self, time: u64)
        ensures
            final(self).config.break_time == time,
            final(self).config.work_time == old(self).config.work_time,
            final(self).status == old(self).status,
    {
        self.config.break_time = time;
    }

    /// A save may begin only once no load (and no other save) is in
    /// flight: exactly in the `Saved`, `Idle` and `Loaded` states. The save
    /// worker polls this before it calls `begin_save`, which keeps a save
    /// of stale in-memory values from racing a fresh load.
    pub open spec fn spec_can_begin_save(self) -> bool {
        self.status == Status::Saved || self.status == Status::Idle || self.status
            == Status::Loaded
    }

    /// Whether a save may begin now.
    pub fn can_begin_save(&self) -> (r: bool)
        ensures
            r == self.spec_can_begin_save(),
    {
        match self.status {
            Status::Saved => true,
            Status::Idle => true,
            Status::Loaded => true,
            Status::Saving => false,
            Status::Loading => false,
        }
    }

    /// Marks the load as started. The configuration keeps its value until
    /// the load finishes.
    pub fn begin_load(&mut self)
        ensures
            final(self).status == Status::Loading,
            final(self).config == old(self).config,
    {
        self.status = Status::Loading;
    }

    /// Applies what the load read: the parsed durations where the settings
    /// text exists and parses, the previous configuration (the defaults,
    /// on a first run) where the file is missing or corrupt. Either way the
    /// load reaches its terminal status.
    pub fn finish_load(&mut self, text: Option<&str>)
        ensures
            final(self).status == Status::Loaded,
            final(self).config == old(self).config.spec_loaded(
                match text {
                    Some(t) => Some(t@),
                    None => None,
                },
            ),
    {
        match text {
            Some(t) => match Config::from_toml(t) {
                Some(c) => {
                    self.config = c;
                },
                None => {},
            },
            None => {},
        }
        self.status = Status::Loaded;
    }

    /// Marks the save as started. Demands the ordering rule: no save
    /// begins while a load or another save is in flight.
    pub fn begin_save(&mut self)
        requires
            old(self).spec_can_begin_save(),
        ensures
            final(self).status == Status::Saving,
            final(self).config == old(self).config,
    {
        self.status = Status::Saving;
    }

    /// The text the save writes to the settings file.
    pub fn save_payload(&self) -> (r: String)
        ensures
            r@ == toml_of_durations(self.config.work_time, self.config.break_time),
    {
        self.config.to_toml()
    }

    /// Marks the save as finished.
    pub fn finish_save(&mut self)
        ensures
            final(self).status == Status::Saved,
            final(self).config == old(self).config,
    {
        self.status = Status::Saved;
    }
}

} // verus!
