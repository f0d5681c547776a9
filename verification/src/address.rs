use vstd::prelude::*;

use crate::config::CameraConfig;
use crate::error::OnvifError;
use crate::text::{decimal, push_decimal};

verus! {

pub const RTSP_SCHEME: &'static str = "rtsp://";
pub const RTSP_PORT_PATH: &'static str = ":554/";
pub const HTTP_SCHEME: &'static str = "http://";
pub const DEVICE_SERVICE_PATH: &'static str = "/onvif/device_service";

/// `rtsp://<ip>:554/<vendor path>`: where the camera's main stream is.
pub open spec fn rtsp_url_text(config: CameraConfig) -> Seq<char> {
    RTSP_SCHEME@ + config.ip@ + RTSP_PORT_PATH@ + config.vendor.spec_rtsp_path()
}

/// `http://<ip>:<onvif port>/onvif/device_service`: the ONVIF device
/// (management) service, which the ONVIF core specification places at that
/// path.
pub open spec fn device_service_url_text(config: CameraConfig) -> Seq<char> {
    HTTP_SCHEME@ + config.ip@ + ":"@ + decimal(config.spec_onvif_port() as nat) + DEVICE_SERVICE_PATH@
}

/// What `url::Url::parse` makes of `input`: the serialization of the parsed
/// URL, or `None` where it rejects the input.
pub uninterp spec fn parsed_url(input: Seq<char>) -> Option<Seq<char>>;

#[verifier::external_type_specification]
#[verifier::external_body]
pub struct ExUrlParseError(url::ParseError);

/// Calls `url::Url::parse` and returns the parsed URL's serialization
/// (`String::from(Url)`); the contract names the result as a function of the
/// input.
#[verifier::external_body]
fn parse_url(input: &str) -> (res: Result<String, url::ParseError>)
    ensures
        match res {
            Ok(url) => parsed_url(input@) == Some(url@),
            Err(_) => parsed_url(input@) is None,
        },
{
    url::Url::parse(input).map(String::from)
}

/// Parses `input` as a URL: its serialization, or the parser's message.
pub fn parse_absolute_url(input: &str) -> (res: Result<String, OnvifError>)
    ensures
        match res {
            Ok(url) => parsed_url(input@) == Some(url@),
            Err(e) => parsed_url(input@) is None && e is InvalidUrl,
        },
{
    match parse_url(input) {
        Ok(url) => Ok(url),
        Err(e) => Err(OnvifError::InvalidUrl(e.to_string())),
    }
}

/// The text of the RTSP URL of the camera's main stream.
pub fn rtsp_url_string(config: &CameraConfig) -> (url: String)
    ensures
        url@ == rtsp_url_text(*config),
{
    let mut text = String::from_str(RTSP_SCHEME);
    text.append(config.ip.as_str());
    text.append(RTSP_PORT_PATH);
    text.append(config.vendor.rtsp_path());
    text
}

/// The text of the URL of the camera's device service.
pub fn device_service_url_string(config: &CameraConfig) -> (url: String)
    ensures
        url@ == device_service_url_text(*config),
{
    let mut text = String::from_str(HTTP_SCHEME);
    text.append(config.ip.as_str());
    text.append(":");
    push_decimal(&mut text, config.onvif_port());
    text.append(DEVICE_SERVICE_PATH);
    text
}

/// The parsed RTSP URL of the camera's main stream.
pub fn camera_rtsp_url(config: &CameraConfig) -> (res: Result<String, OnvifError>)
    ensures
        match res {
            Ok(url) => parsed_url(rtsp_url_text(*config)) == Some(url@),
            Err(e) => parsed_url(rtsp_url_text(*config)) is None && e is InvalidUrl,
        },
{
    let text = rtsp_url_string(config);
    parse_absolute_url(text.as_str())
}

/// The parsed URL of the camera's device service.
pub fn device_service_url(config: &CameraConfig) -> (res: Result<String, OnvifError>)
    ensures
        match res {
            Ok(url) => parsed_url(device_service_url_text(*config)) == Some(url@),
            Err(e) => parsed_url(device_service_url_text(*config)) is None && e is InvalidUrl,
        },
{
    let text = device_service_url_string(config);
    parse_absolute_url(text.as_str())
}

} // verus!
