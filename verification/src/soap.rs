use vstd::prelude::*;

verus! {

pub const NS_SOAP: &'static str = "http://www.w3.org/2003/05/soap-envelope";
pub const NS_DEVICE: &'static str = "http://www.onvif.org/ver10/device/wsdl";
pub const NS_SCHEMA: &'static str = "http://www.onvif.org/ver10/schema";
pub const NS_MEDIA: &'static str = "http://www.onvif.org/ver10/media/wsdl";
pub const NS_PTZ: &'static str = "http://www.onvif.org/ver20/ptz/wsdl";

/// The content type of every SOAP request.
pub const SOAP_CONTENT_TYPE: &'static str = "application/soap+xml";

pub const ENVELOPE_OPEN: &'static str = "\n            <s:Envelope xmlns:s=\"";
pub const ENVELOPE_HEADER: &'static str = "\">\n                <s:Header>";
pub const ENVELOPE_BODY: &'static str = "</s:Header>\n                <s:Body>\n                ";
pub const ENVELOPE_CLOSE: &'static str = "\n                </s:Body>\n            </s:Envelope>\n            ";

pub const CAPABILITIES_OPEN: &'static str = "\n            <tds:GetCapabilities xmlns:tds=\"";
pub const CAPABILITIES_CLOSE: &'static str = "\">\n                <tds:Category>All</tds:Category>\n            </tds:GetCapabilities>\n            ";

pub const PROFILES_OPEN: &'static str = "\n        <trt:GetProfiles xmlns:trt=\"";
pub const PROFILES_CLOSE: &'static str = "\"/>\n        ";

pub const STOP_OPEN: &'static str = "\n        <tptz:Stop xmlns:tptz=\"";
pub const STOP_TOKEN: &'static str = "\">\n            <tptz:ProfileToken>";
pub const STOP_CLOSE: &'static str = "</tptz:ProfileToken>\n            <tptz:PanTilt>true</tptz:PanTilt>\n            <tptz:Zoom>true</tptz:Zoom>\n        </tptz:Stop>\n        ";

pub const MOVE_OPEN: &'static str = "\n        <tptz:ContinuousMove \n            xmlns:tptz=\"";
pub const MOVE_SCHEMA: &'static str = "\" \n            xmlns:tt=\"";
pub const MOVE_TOKEN: &'static str = "\">\n            <tptz:ProfileToken>";
pub const MOVE_PAN: &'static str = "</tptz:ProfileToken>\n            <tptz:Velocity>\n                <tt:PanTilt x=\"";
pub const MOVE_TILT: &'static str = "\" y=\"";
pub const MOVE_CLOSE: &'static str = "\"/>\n            </tptz:Velocity>\n        </tptz:ContinuousMove>\n        ";

/// A SOAP 1.2 envelope whose header holds `auth_header` and whose body holds
/// `body`.
pub open spec fn envelope_text(auth_header: Seq<char>, body: Seq<char>) -> Seq<char> {
    ENVELOPE_OPEN@ + NS_SOAP@ + ENVELOPE_HEADER@ + auth_header + ENVELOPE_BODY@ + body
        + ENVELOPE_CLOSE@
}

/// The body of the device service's `GetCapabilities` request for all
/// categories.
pub open spec fn capabilities_body_text() -> Seq<char> {
    CAPABILITIES_OPEN@ + NS_DEVICE@ + CAPABILITIES_CLOSE@
}

/// The body of the media service's `GetProfiles` request.
pub open spec fn profiles_body_text() -> Seq<char> {
    PROFILES_OPEN@ + NS_MEDIA@ + PROFILES_CLOSE@
}

/// The body of the PTZ service's `Stop` request for the profile `token`,
/// stopping both pan/tilt and zoom.
pub open spec fn stop_body_text(token: Seq<char>) -> Seq<char> {
    STOP_OPEN@ + NS_PTZ@ + STOP_TOKEN@ + token + STOP_CLOSE@
}

/// The body of the PTZ service's `ContinuousMove` request for the profile
/// `token`, with the pan and tilt velocities written as `pan` and `tilt`.
pub open spec fn move_body_text(token: Seq<char>, pan: Seq<char>, tilt: Seq<char>) -> Seq<char> {
    MOVE_OPEN@ + NS_PTZ@ + MOVE_SCHEMA@ + NS_SCHEMA@ + MOVE_TOKEN@ + token + MOVE_PAN@ + pan
        + MOVE_TILT@ + tilt + MOVE_CLOSE@
}

/// Wraps `body` in a SOAP envelope whose header is `auth_header`.
pub fn soap_envelope(auth_header: &str, body: &str) -> (envelope: String)
    ensures
        envelope@ == envelope_text(auth_header@, body@),
{
    let mut text = String::from_str(ENVELOPE_OPEN);
    text.append(NS_SOAP);
    text.append(ENVELOPE_HEADER);
    text.append(auth_header);
    text.append(ENVELOPE_BODY);
    text.append(body);
    text.append(ENVELOPE_CLOSE);
    text
}

pub fn capabilities_body() -> (body: String)
    ensures
        body@ == capabilities_body_text(),
{
    let mut text = String::from_str(CAPABILITIES_OPEN);
    text.append(NS_DEVICE);
    text.append(CAPABILITIES_CLOSE);
    text
}

pub fn profiles_body() -> (body: String)
    ensures
        body@ == profiles_body_text(),
{
    let mut text = String::from_str(PROFILES_OPEN);
    text.append(NS_MEDIA);
    text.append(PROFILES_CLOSE);
    text
}

pub fn ptz_stop_body(token: &str) -> (body: String)
    ensures
        body@ == stop_body_text(token@),
{
    let mut text = String::from_str(STOP_OPEN);
    text.append(NS_PTZ);
    text.append(STOP_TOKEN);
    text.append(token);
    text.append(STOP_CLOSE);
    text
}

/// `pan` and `tilt` are the velocities as they are to appear in the request.
pub fn ptz_move_body(token: &str, pan: &str, tilt: &str) -> (body: String)
    ensures
        body@ == move_body_text(token@, pan@, tilt@),
{
    let mut text = String::from_str(MOVE_OPEN);
    text.append(NS_PTZ);
    text.append(MOVE_SCHEMA);
    text.append(NS_SCHEMA);
    text.append(MOVE_TOKEN);
    text.append(token);
    text.append(MOVE_PAN);
    text.append(pan);
    text.append(MOVE_TILT);
    text.append(tilt);
    text.append(MOVE_CLOSE);
    text
}

} // verus!
