//! The settings that the recorder and its surroundings are started with.

use core::fmt::Write;
use vstd::prelude::*;
use vstd::string::StringExecFns;

verus! {

/// Where log lines go.
#[derive(Debug)]
pub enum LogBackend {
    Console,
    File(String),
    Debug,
    Stdout,
}

/// Credentials and choices for an unattended login.
#[derive(Debug)]
pub struct AutoLoginData {
    pub username: String,
    pub password: String,
    pub world: Option<u32>,
    pub channel: Option<u32>,
    pub char_index: Option<u32>,
}

/// Output file of each direction and whether records carry the payload bytes.
#[derive(Debug)]
pub struct PacketTracingData {
    pub send_file: String,
    pub recv_file: String,
    pub log_data: bool,
}

/// What the window title is made of.
#[derive(Debug)]
pub struct WindowData {
    pub name: String,
    pub pid: bool,
    pub time: bool,
}

/// Resources from archive files of a given version.
#[derive(Debug)]
pub struct WzFileData {
    pub version: String,
    pub path: Option<String>,
}

/// Resources from a directory of images.
#[derive(Debug)]
pub struct WzImageData {
    pub path: String,
    pub retain_delay: usize,
    pub cachte_delay: usize,
}

/// Where resources are loaded from.
#[derive(Debug)]
pub enum WzData {
    Image(WzImageData),
    Wz(WzFileData),
    Default,
}

impl WzData {
    /// Whether the resources come from where the process looks by itself.
    pub fn is_default(&self) -> (b: bool)
        ensures
            b == (self is Default),
    {
        match self {
            WzData::Default => true,
            _ => false,
        }
    }

    /// Whether the resources come from a directory of images.
    pub fn is_image(&self) -> (b: bool)
        ensures
            b == (self is Image),
    {
        match self {
            WzData::Image(_) => true,
            _ => false,
        }
    }

    /// The image settings, where the resources come from images.
    pub fn as_image(&self) -> (image: Option<&WzImageData>)
        ensures
            image == match self {
                WzData::Image(data) => Some(data),
                _ => None,
            },
    {
        match self {
            WzData::Image(image) => Some(image),
            _ => None,
        }
    }

    /// Whether the resources come from archive files.
    pub fn is_wz(&self) -> (b: bool)
        ensures
            b == (self is Wz),
    {
        match self {
            WzData::Wz(_) => true,
            _ => false,
        }
    }

    /// The archive settings, where the resources come from archive files.
    pub fn as_wz(&self) -> (wz: Option<&WzFileData>)
        ensures
            wz == match self {
                WzData::Wz(data) => Some(data),
                _ => None,
            },
    {
        match self {
            WzData::Wz(wz) => Some(wz),
            _ => None,
        }
    }
}

impl AutoLoginData {
    /// World and channel, where both are chosen.
    pub fn get_world_channel(&self) -> (choice: Option<(u32, u32)>)
        ensures
            choice == match (self.world, self.channel) {
                (Some(world), Some(channel)) => Some((world, channel)),
                _ => None,
            },
    {
        match (self.world, self.channel) {
            (Some(world), Some(channel)) => Some((world, channel)),
            _ => None,
        }
    }
}

/// All settings of one run.
#[derive(Debug)]
pub struct Config {
    pub log_backend: LogBackend,
    pub skip_logo: bool,
    pub log_msgbox: bool,
    pub pdb_file: Option<String>,
    pub auto_login_data: Option<AutoLoginData>,
    pub window_data: Option<WindowData>,
    pub packet_tracing: Option<PacketTracingData>,
    pub multi_jump: Option<usize>,
    pub extra_dlls: Vec<String>,
    pub disable_shanda: bool,
    pub handle_exceptions: bool,
    pub wz: WzData,
    pub lazy_tmpl_loading: bool,
}

/// The decimal digits of a number, without sign or leading zero.
pub open spec fn spec_decimal(n: nat) -> Seq<char>
    decreases n,
{
    if n < 10 {
        seq![spec_digit(n)]
    } else {
        spec_decimal(n / 10).push(spec_digit(n % 10))
    }
}

/// The character of one decimal digit.
pub open spec fn spec_digit(d: nat) -> char {
    if d == 0 {
        '0'
    } else if d == 1 {
        '1'
    } else if d == 2 {
        '2'
    } else if d == 3 {
        '3'
    } else if d == 4 {
        '4'
    } else if d == 5 {
        '5'
    } else if d == 6 {
        '6'
    } else if d == 7 {
        '7'
    } else if d == 8 {
        '8'
    } else {
        '9'
    }
}

/// An instant as a clock on the wall shows it: the seconds and nanoseconds
/// since the start of 1970 in universal time, and the number of seconds by
/// which the local time is ahead of universal time.
#[derive(Debug, Clone, Copy, PartialEq, Eq, Structural)]
pub struct LocalTime {
    pub unix_secs: i64,
    pub nanos: u32,
    pub utc_offset_secs: i32,
}

/// The text that `chrono` writes for the local date and time of an instant
/// under the format `%c`, or nothing where `chrono` has no date or no zone
/// for the numbers.
pub uninterp spec fn spec_local_time_text(secs: i64, nanos: u32, offset: i32) -> Option<Seq<char>>;

/// `chrono::DateTime::from_timestamp`, moved to the zone that
/// `chrono::FixedOffset::east_opt` makes and written with
/// `chrono::DateTime::format` under `%c`. The text depends on the three numbers
/// alone: no clock, zone file or locale is read. Nothing is claimed of what the
/// text is or of when there is one.
#[verifier::external_body]
fn format_local_time(unix_secs: i64, nanos: u32, utc_offset_secs: i32) -> (text: Option<String>)
    ensures
        match text {
            Some(t) => spec_local_time_text(unix_secs, nanos, utc_offset_secs) == Some(t@),
            None => spec_local_time_text(unix_secs, nanos, utc_offset_secs) is None,
        },
{
    let zone = chrono::FixedOffset::east_opt(utc_offset_secs)?;
    let instant = chrono::DateTime::from_timestamp(unix_secs, nanos)?;
    let mut text = String::new();
    write!(text, "{}", instant.with_timezone(&zone).format("%c")).ok()?;
    Some(text)
}

/// `ToString` of `u32`: the number in decimal digits.
#[verifier::external_body]
fn decimal(n: u32) -> (text: String)
    ensures
        text@ == spec_decimal(n as nat),
{
    n.to_string()
}

impl WindowData {
    /// The title: the name, then the process id and the time behind their
    /// labels, each where it is asked for.
    pub open spec fn spec_title(&self, pid: u32, local_time: Seq<char>) -> Seq<char> {
        self.name@ + (if self.pid {
            " - PID: "@ + spec_decimal(pid as nat)
        } else {
            Seq::empty()
        }) + (if self.time {
            " - Time: "@ + local_time
        } else {
            Seq::empty()
        })
    }

    /// The title for the process `pid` at the local time that `local_time`
    /// spells out.
    pub fn title(&self, pid: u32, local_time: &str) -> (title: String)
        ensures
            title@ == self.spec_title(pid, local_time@),
    {
        let mut name = String::from_str(self.name.as_str());
        if self.pid {
            name.append(" - PID: ");
            name.append(decimal(pid).as_str());
        }
        if self.time {
            name.append(" - Time: ");
            name.append(local_time);
        }
        proof {
            assert(name@ =~= self.spec_title(pid, local_time@));
        }
        name
    }
}

impl LocalTime {
    /// The local date and time as text, where there is one.
    pub open spec fn spec_text(self) -> Option<Seq<char>> {
        spec_local_time_text(self.unix_secs, self.nanos, self.utc_offset_secs)
    }

    /// The local date and time as text, where there is one.
    pub fn text(&self) -> (text: Option<String>)
        ensures
            match text {
                Some(t) => self.spec_text() == Some(t@),
                None => self.spec_text() is None,
            },
    {
        format_local_time(self.unix_secs, self.nanos, self.utc_offset_secs)
    }
}

impl Config {
    /// The window title for the process `pid` at the instant `now`. There is
    /// none where no window is configured, or where the time is asked for and
    /// `now` has no text.
    pub open spec fn spec_window_title(&self, pid: u32, now: LocalTime) -> Option<Seq<char>> {
        match self.window_data {
            None => None,
            Some(wnd) => if !wnd.time {
                Some(wnd.spec_title(pid, Seq::empty()))
            } else {
                match now.spec_text() {
                    Some(text) => Some(wnd.spec_title(pid, text)),
                    None => None,
                }
            },
        }
    }

    /// The window title for the process `pid` at the instant `now`.
    pub fn window_title(&self, pid: u32, now: LocalTime) -> (title: Option<String>)
        ensures
            match title {
                Some(t) => self.spec_window_title(pid, now) == Some(t@),
                None => self.spec_window_title(pid, now) is None,
            },
    {
        match &self.window_data {
            None => None,
            Some(wnd) => {
                if !wnd.time {
                    Some(wnd.title(pid, ""))
                } else {
                    match now.text() {
                        Some(text) => Some(wnd.title(pid, text.as_str())),
                        None => None,
                    }
                }
            },
        }
    }
}

impl Default for Config {
    /// The settings that are used where no configuration file can be read.
    fn default() -> (cfg: Self)
        ensures
            cfg.log_backend is Stdout,
            cfg.skip_logo,
            !cfg.log_msgbox,
            cfg.pdb_file matches Some(file) && file@ == "MapleStory.pdb"@,
            cfg.auto_login_data matches Some(login) && login.username@ == "admin"@
                && login.password@ == "test1234"@ && login.world == Some(0u32) && login.channel
                == Some(0u32) && login.char_index == Some(0u32),
            cfg.window_data matches Some(wnd) && wnd.name@ == "DinputStory"@ && wnd.pid && wnd.time,
            cfg.packet_tracing is None,
            cfg.multi_jump == Some(2usize),
            cfg.extra_dlls@.len() == 0,
            cfg.disable_shanda,
            cfg.handle_exceptions,
            cfg.wz matches WzData::Wz(wz) && wz.version@ == "95"@ && (wz.path matches Some(path)
                && path@ == "wz95"@),
            cfg.lazy_tmpl_loading,
    {
        Config {
            log_backend: LogBackend::Stdout,
            skip_logo: true,
            log_msgbox: false,
            pdb_file: Some(String::from_str("MapleStory.pdb")),
            auto_login_data: Some(
                AutoLoginData {
                    username: String::from_str("admin"),
                    password: String::from_str("test1234"),
                    world: Some(0),
                    channel: Some(0),
                    char_index: Some(0),
                },
            ),
            window_data: Some(
                WindowData { name: String::from_str("DinputStory"), pid: true, time: true },
            ),
            packet_tracing: None,
            multi_jump: Some(2),
            extra_dlls: Vec::new(),
            disable_shanda: true,
            handle_exceptions: true,
            wz: WzData::Wz(
                WzFileData {
                    version: String::from_str("95"),
                    path: Some(String::from_str("wz95")),
                },
            ),
            lazy_tmpl_loading: true,
        }
    }
}

/// The packet tracing settings of a configuration that has them.
pub fn tracing_data(cfg: &Config) -> (data: &PacketTracingData)
    requires
        cfg.packet_tracing is Some,
    ensures
        cfg.packet_tracing == Some(*data),
{
    match &cfg.packet_tracing {
        Some(data) => data,
        None => vstd::pervasive::unreached(),
    }
}

} // verus!
