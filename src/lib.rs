//! A gateway that hands torrent links to a qBittorrent daemon: its settings,
//! the categories of saved content, and the translation of one add request
//! into one call of the daemon's web API.
pub mod decimal;
pub mod config;
pub mod torrent;
