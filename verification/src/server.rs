use vstd::prelude::*;

use crate::config::Config;
use crate::hls::{hls_output_dir, hls_output_dir_text, HLS_BASE_PATH};

verus! {

/// Where the browser player's static files are served from.
pub const STATIC_DIR: &'static str = "static";

/// Where the HLS output of the cameras is served from.
pub const HLS_DIR: &'static str = HLS_BASE_PATH;

/// The `Cache-Control` value of every response: the player must always
/// fetch the live playlist anew.
pub const NO_CACHE: &'static str = "no-cache, no-store";

pub const HLS_ROUTE_PREFIX: &'static str = "/hls/";
pub const ANY_ADDRESS: &'static str = "0.0.0.0:";

/// `/hls/<camera name>`: where a camera's HLS output is mounted.
pub open spec fn hls_mount_path_text(camera_name: Seq<char>) -> Seq<char> {
    HLS_ROUTE_PREFIX@ + camera_name
}

pub fn hls_mount_path(camera_name: &str) -> (path: String)
    ensures
        path@ == hls_mount_path_text(camera_name@),
{
    let mut path = String::from_str(HLS_ROUTE_PREFIX);
    path.append(camera_name);
    path
}

/// The directory a camera's HLS output is served from: the one its writer
/// writes to.
pub fn hls_files_dir(camera_name: &str) -> (dir: String)
    ensures
        dir@ == hls_output_dir_text(camera_name@),
{
    hls_output_dir(camera_name)
}

/// The address the server listens on: every interface, at the configured
/// port.
pub fn listen_address(config: &Config) -> (address: String)
    ensures
        address@ == ANY_ADDRESS@ + config.server_port@,
{
    let mut address = String::from_str(ANY_ADDRESS);
    address.append(config.server_port.as_str());
    address
}

/// How a PTZ request from the browser is answered.
#[derive(Clone, Copy, Debug, PartialEq, Eq, Structural)]
pub enum PtzReply {
    /// The command reached the camera and it accepted it.
    Done,
    /// No camera has that name.
    UnknownCamera,
    /// The camera could not be reached or refused the command.
    Failed,
}

impl PtzReply {
    pub open spec fn spec_status_code(self) -> u16 {
        match self {
            PtzReply::Done => 200,
            PtzReply::UnknownCamera => 404,
            PtzReply::Failed => 500,
        }
    }

    /// The HTTP status code of the reply.
    pub fn status_code(&self) -> (code: u16)
        ensures
            code == self.spec_status_code(),
    {
        match self {
            PtzReply::Done => 200,
            PtzReply::UnknownCamera => 404,
            PtzReply::Failed => 500,
        }
    }
}

/// The reply to a PTZ request: an unknown camera is not found; otherwise
/// the reply says whether the command went through.
pub fn ptz_reply(camera_known: bool, command_ok: bool) -> (reply: PtzReply)
    ensures
        !camera_known ==> reply == PtzReply::UnknownCamera,
        camera_known && command_ok ==> reply == PtzReply::Done,
        camera_known && !command_ok ==> reply == PtzReply::Failed,
{
    if !camera_known {
        PtzReply::UnknownCamera
    } else if command_ok {
        PtzReply::Done
    } else {
        PtzReply::Failed
    }
}

} // verus!
