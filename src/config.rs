//! The gateway's settings and the categories that choose a save path.
use vstd::prelude::*;
use crate::decimal::{parse_port, parse_port_spec};

verus! {

pub const DEFAULT_PORT: u16 = 3000;

pub const DEFAULT_DAEMON_PORT: u16 = 8080;

/// Where a torrent's content goes: the closed set of categories.
#[derive(Clone, Copy, Debug, PartialEq, Eq, Structural)]
pub enum Directory {
    Movies,
    Series,
}

/// The category that a request names in lower case, if any.
pub open spec fn directory_named(s: Seq<char>) -> Option<Directory> {
    if s == "movies"@ {
        Some(Directory::Movies)
    } else if s == "series"@ {
        Some(Directory::Series)
    } else {
        None
    }
}

/// Whether two texts hold the same characters.
fn same_text(a: &str, b: &str) -> (r: bool)
    ensures
        r == (a@ == b@),
{
    let n = a.unicode_len();
    if n != b.unicode_len() {
        return false;
    }
    let mut i: usize = 0;
    while i < n
        invariant
            n == a@.len(),
            n == b@.len(),
            i <= n,
            forall|j: int| 0 <= j < i ==> a@[j] == b@[j],
        decreases n - i,
    {
        if a.get_char(i) != b.get_char(i) {
            return false;
        }
        i = i + 1;
    }
    assert(a@ =~= b@);
    true
}

impl Directory {
    /// Reads a category from its lower-case name: `movies` or `series`.
    pub fn from_name(s: &str) -> (r: Option<Directory>)
        ensures
            r == directory_named(s@),
    {
        if same_text(s, "movies") {
            Some(Directory::Movies)
        } else if same_text(s, "series") {
            Some(Directory::Series)
        } else {
            None
        }
    }
}

/// The gateway's settings, fixed at start-up.
#[derive(Clone, Debug)]
pub struct AppConfig {
    pub port: u16,
    pub qbittorrent_host: String,
    pub qbittorrent_port: u16,
    pub movies_directory: String,
    pub series_directory: String,
}

/// A port setting: the number it holds, or `default` where it is absent or
/// no port number.
pub open spec fn port_setting(v: Option<String>, default: u16) -> u16 {
    match v {
        Some(s) => match parse_port_spec(s@) {
            Some(p) => p,
            None => default,
        },
        None => default,
    }
}

/// A text setting: the text it holds, or `default` where it is absent.
pub open spec fn text_setting(v: Option<String>, default: Seq<char>) -> Seq<char> {
    match v {
        Some(s) => s@,
        None => default,
    }
}

fn port_or(v: Option<String>, default: u16) -> (r: u16)
    ensures
        r == port_setting(v, default),
{
    match v {
        Some(s) => match parse_port(s.as_str()) {
            Some(p) => p,
            None => default,
        },
        None => default,
    }
}

impl AppConfig {
    /// The save path configured for a category.
    pub open spec fn path_for(&self, directory: Directory) -> Seq<char> {
        match directory {
            Directory::Movies => self.movies_directory@,
            Directory::Series => self.series_directory@,
        }
    }

    /// The save path configured for `directory`.
    pub fn get_directory_path(&self, directory: Directory) -> (r: &String)
        ensures
            r@ == self.path_for(directory),
    {
        match directory {
            Directory::Movies => &self.movies_directory,
            Directory::Series => &self.series_directory,
        }
    }

    /// The settings from the values of the environment's variables `APP_PORT`,
    /// `QBITTORRENT_HOST`, `QBITTORRENT_PORT`, `MOVIES_DIRECTORY` and
    /// `SERIES_DIRECTORY`, each `None` where it is not set. A value that is
    /// absent, or a port that is no port number, leaves the default.
    pub fn from_env_values(
        app_port: Option<String>,
        qbittorrent_host: Option<String>,
        qbittorrent_port: Option<String>,
        movies_directory: Option<String>,
        series_directory: Option<String>,
    ) -> (r: AppConfig)
        ensures
            r.port == port_setting(app_port, DEFAULT_PORT),
            r.qbittorrent_host@ == text_setting(qbittorrent_host, "0.0.0.0"@),
            r.qbittorrent_port == port_setting(qbittorrent_port, DEFAULT_DAEMON_PORT),
            r.movies_directory@ == text_setting(movies_directory, "/media/movies"@),
            r.series_directory@ == text_setting(series_directory, "/media/series"@),
    {
        let mut config = AppConfig::default();
        config.port = port_or(app_port, config.port);
        if let Some(host) = qbittorrent_host {
            config.qbittorrent_host = host;
        }
        config.qbittorrent_port = port_or(qbittorrent_port, config.qbittorrent_port);
        if let Some(dir) = movies_directory {
            config.movies_directory = dir;
        }
        if let Some(dir) = series_directory {
            config.series_directory = dir;
        }
        config
    }
}

impl Default for AppConfig {
    fn default() -> (r: AppConfig)
        ensures
            r.port == DEFAULT_PORT,
            r.qbittorrent_host@ == "0.0.0.0"@,
            r.qbittorrent_port == DEFAULT_DAEMON_PORT,
            r.movies_directory@ == "/media/movies"@,
            r.series_directory@ == "/media/series"@,
    {
        AppConfig {
            port: DEFAULT_PORT,
            qbittorrent_host: String::from_str("0.0.0.0"),
            qbittorrent_port: DEFAULT_DAEMON_PORT,
            movies_directory: String::from_str("/media/movies"),
            series_directory: String::from_str("/media/series"),
        }
    }
}

/// Each category resolves to its own configured path; where the two paths
/// differ, never to the other one's.
pub proof fn lemma_category_resolves_to_own_path(config: AppConfig, directory: Directory)
    ensures
        config.path_for(directory) == match directory {
            Directory::Movies => config.movies_directory@,
            Directory::Series => config.series_directory@,
        },
        config.movies_directory@ != config.series_directory@ ==> config.path_for(directory)
            != config.path_for(
            match directory {
                Directory::Movies => Directory::Series,
                Directory::Series => Directory::Movies,
            },
        ),
{
}

/// A category name outside the closed set is refused.
pub proof fn lemma_unknown_category_refused(s: Seq<char>)
    requires
        s != "movies"@,
        s != "series"@,
    ensures
        directory_named(s) is None,
{
}

} // verus!
