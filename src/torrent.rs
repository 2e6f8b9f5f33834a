//! One add request, translated into one call of the daemon's web API, and the
//! daemon's answer, translated into the reply to the client.
use vstd::prelude::*;
use crate::config::{AppConfig, Directory};
use crate::decimal::{decimal_text, port_text};

verus! {

pub const STATUS_OK: u16 = 200;

pub const STATUS_INTERNAL_ERROR: u16 = 500;

/// What a client asks for: a magnet or HTTP link, and the category to save it under.
#[derive(Clone, Debug)]
pub struct AddTorrentRequest {
    pub url: String,
    pub directory: Directory,
}

/// The one call made to the daemon: a form-encoded POST to `endpoint` with the
/// fields `urls` and `savepath`, in that order.
#[derive(Clone, Debug)]
pub struct DaemonCall {
    pub endpoint: String,
    pub urls: String,
    pub savepath: String,
}

/// How the call to the daemon ended.
#[derive(Clone, Copy, Debug, PartialEq, Eq, Structural)]
pub enum DaemonOutcome {
    /// The daemon answered with this HTTP status.
    Responded(u16),
    /// No answer: the connection failed or timed out.
    Unreachable,
}

/// The reply to the client.
#[derive(Clone, Debug)]
pub struct AddReply {
    pub status: u16,
    pub message: String,
}

/// The address of the daemon's add operation.
pub open spec fn endpoint_for(host: Seq<char>, port: u16) -> Seq<char> {
    "http://"@ + host + ":"@ + decimal_text(port as nat) + "/api/v2/torrents/add"@
}

/// A status in the client-error or server-error class.
pub open spec fn is_error_status(code: u16) -> bool {
    400 <= code && code <= 599
}

pub open spec fn outcome_succeeded(outcome: DaemonOutcome) -> bool {
    match outcome {
        DaemonOutcome::Responded(code) => !is_error_status(code),
        DaemonOutcome::Unreachable => false,
    }
}

/// Whether a status of the daemon's answer counts as a failure.
pub fn status_is_error(code: u16) -> (r: bool)
    ensures
        r == is_error_status(code),
{
    400 <= code && code <= 599
}

/// The address of the daemon's add operation for the configured host and port.
pub fn daemon_endpoint(config: &AppConfig) -> (r: String)
    ensures
        r@ == endpoint_for(config.qbittorrent_host@, config.qbittorrent_port),
{
    let mut s = String::from_str("http://");
    s.append(config.qbittorrent_host.as_str());
    s.append(":");
    let port = port_text(config.qbittorrent_port);
    s.append(port.as_str());
    s.append("/api/v2/torrents/add");
    s
}

/// The call that adds `request`'s link to the daemon, saved under the path
/// that its category is configured with.
pub fn plan_add_torrent(config: &AppConfig, request: &AddTorrentRequest) -> (r: DaemonCall)
    ensures
        r.endpoint@ == endpoint_for(config.qbittorrent_host@, config.qbittorrent_port),
        r.urls@ == request.url@,
        r.savepath@ == config.path_for(request.directory),
{
    DaemonCall {
        endpoint: daemon_endpoint(config),
        urls: request.url.clone(),
        savepath: config.get_directory_path(request.directory).clone(),
    }
}

/// The reply for how the call ended: 200 with a confirmation where the daemon
/// answered with a status that is no error, else 500 with a message that
/// tells nothing of the cause.
pub fn reply_for(outcome: DaemonOutcome) -> (r: AddReply)
    ensures
        outcome_succeeded(outcome) ==> r.status == STATUS_OK && r.message@
            == "Torrent added successfully"@,
        !outcome_succeeded(outcome) ==> r.status == STATUS_INTERNAL_ERROR && r.message@
            == "Failed to add torrent"@,
{
    let ok = match outcome {
        DaemonOutcome::Responded(code) => !status_is_error(code),
        DaemonOutcome::Unreachable => false,
    };
    if ok {
        AddReply { status: STATUS_OK, message: String::from_str("Torrent added successfully") }
    } else {
        AddReply { status: STATUS_INTERNAL_ERROR, message: String::from_str("Failed to add torrent") }
    }
}

} // verus!
