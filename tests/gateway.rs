use qbit_gateway::config::{AppConfig, Directory, DEFAULT_DAEMON_PORT, DEFAULT_PORT};
use qbit_gateway::decimal::{parse_port, port_text};
use qbit_gateway::torrent::{
    daemon_endpoint, plan_add_torrent, reply_for, status_is_error, AddTorrentRequest,
    DaemonOutcome,
};

fn some(s: &str) -> Option<String> {
    Some(s.to_string())
}

fn defaults() -> AppConfig {
    AppConfig::from_env_values(None, None, None, None, None)
}

#[test]
fn defaults_when_nothing_is_set() {
    let c = defaults();
    assert_eq!(c.port, 3000);
    assert_eq!(DEFAULT_PORT, 3000);
    assert_eq!(c.qbittorrent_host, "0.0.0.0");
    assert_eq!(c.qbittorrent_port, 8080);
    assert_eq!(DEFAULT_DAEMON_PORT, 8080);
    assert_eq!(c.movies_directory, "/media/movies");
    assert_eq!(c.series_directory, "/media/series");
    let d = AppConfig::default();
    assert_eq!(d.port, c.port);
    assert_eq!(d.qbittorrent_host, c.qbittorrent_host);
}

#[test]
fn environment_values_override_defaults() {
    let c = AppConfig::from_env_values(
        some("8000"),
        some("10.0.0.2"),
        some("9090"),
        some("/tmp/m"),
        some("/tmp/s"),
    );
    assert_eq!(c.port, 8000);
    assert_eq!(c.qbittorrent_host, "10.0.0.2");
    assert_eq!(c.qbittorrent_port, 9090);
    assert_eq!(c.movies_directory, "/tmp/m");
    assert_eq!(c.series_directory, "/tmp/s");
}

#[test]
fn unparsable_app_port_falls_back() {
    for bad in ["", "abc", "30a", "70000", "-1", " 80", "+", "65536"] {
        let c = AppConfig::from_env_values(some(bad), None, some(bad), None, None);
        assert_eq!(c.port, 3000, "{bad:?}");
        assert_eq!(c.qbittorrent_port, 8080, "{bad:?}");
    }
}

#[test]
fn port_parsing_matches_std() {
    for s in ["0", "1", "+42", "0080", "65535", "65536", "", "+", "-0", "1 ", "99999999999"] {
        assert_eq!(parse_port(s), s.parse::<u16>().ok(), "{s:?}");
    }
}

#[test]
fn port_text_matches_display() {
    for n in [0u16, 7, 10, 99, 100, 8080, 65535] {
        assert_eq!(port_text(n), n.to_string());
    }
}

#[test]
fn category_resolves_to_its_own_path() {
    let c = defaults();
    assert_eq!(c.get_directory_path(Directory::Movies), "/media/movies");
    assert_eq!(c.get_directory_path(Directory::Series), "/media/series");
}

#[test]
fn category_names() {
    assert_eq!(Directory::from_name("movies"), Some(Directory::Movies));
    assert_eq!(Directory::from_name("series"), Some(Directory::Series));
    assert_eq!(Directory::from_name("Movies"), None);
    assert_eq!(Directory::from_name("music"), None);
    assert_eq!(Directory::from_name(""), None);
    assert_eq!(Directory::from_name("movie"), None);
    assert_eq!(Directory::from_name("moviess"), None);
}

#[test]
fn movies_override_becomes_save_path() {
    let c = AppConfig::from_env_values(None, None, None, some("/tmp/m"), None);
    let request = AddTorrentRequest {
        url: "magnet:?xt=urn:btih:abc".to_string(),
        directory: Directory::Movies,
    };
    let call = plan_add_torrent(&c, &request);
    assert_eq!(call.savepath, "/tmp/m");
    assert_eq!(call.urls, "magnet:?xt=urn:btih:abc");
    assert_eq!(call.endpoint, "http://0.0.0.0:8080/api/v2/torrents/add");
}

#[test]
fn series_request_goes_to_series_path() {
    let c = AppConfig::from_env_values(None, some("nas"), some("+81"), None, some("/srv/tv"));
    let request = AddTorrentRequest {
        url: "http://example.org/a.torrent".to_string(),
        directory: Directory::Series,
    };
    let call = plan_add_torrent(&c, &request);
    assert_eq!(call.savepath, "/srv/tv");
    assert_eq!(call.endpoint, "http://nas:81/api/v2/torrents/add");
    assert_eq!(daemon_endpoint(&c), call.endpoint);
}

#[test]
fn success_status_gives_ok_reply() {
    for code in [200u16, 201, 204, 302, 399] {
        let r = reply_for(DaemonOutcome::Responded(code));
        assert_eq!(r.status, 200);
        assert_eq!(r.message, "Torrent added successfully");
    }
}

#[test]
fn error_status_or_unreachable_gives_500() {
    for code in [400u16, 403, 404, 415, 500, 503, 599] {
        let r = reply_for(DaemonOutcome::Responded(code));
        assert_eq!(r.status, 500);
        assert_eq!(r.message, "Failed to add torrent");
    }
    let r = reply_for(DaemonOutcome::Unreachable);
    assert_eq!(r.status, 500);
    assert_eq!(r.message, "Failed to add torrent");
}

#[test]
fn error_status_classes() {
    assert!(!status_is_error(399));
    assert!(status_is_error(400));
    assert!(status_is_error(599));
    assert!(!status_is_error(600));
    assert!(!status_is_error(200));
}
