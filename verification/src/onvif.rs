use vstd::prelude::*;

use crate::address::{device_service_url, device_service_url_text, parsed_url};
use crate::auth::{
    auth_header_text, build_soap_envelope_with_entropy, entropy_fits, entropy_stamp, is_auth_header_for,
    is_creation_time, is_envelope_for, is_environment_error, RequestEntropy, NONCE_LEN,
};
use crate::config::CameraConfig;
use crate::error::OnvifError;
use crate::soap::{
    envelope_text,
    capabilities_body, capabilities_body_text, move_body_text, profiles_body,
    profiles_body_text, ptz_move_body, ptz_stop_body, stop_body_text, NS_MEDIA, NS_SCHEMA,
};
use crate::xml::{
    attribute_value, child_tagged, first_match, named, named_below, parsed_xml, tagged,
    XmlDocument, XmlNodeView,
};

verus! {

pub const MEDIA_SERVICE: &'static str = "Media";
pub const PTZ_SERVICE: &'static str = "PTZ";
pub const XADDR: &'static str = "XAddr";
pub const PROFILES: &'static str = "Profiles";
pub const TOKEN: &'static str = "token";
pub const FAULT: &'static str = "Fault";
pub const FAULT_TEXT: &'static str = "Text";
pub const UNKNOWN_ERROR: &'static str = "unknown error";

/// The address (`XAddr`) that the capabilities in `nodes` give for
/// `service`: the text of the first `XAddr` child of the first `service`
/// element, both in the ONVIF schema namespace.
pub open spec fn xaddr_of(nodes: Seq<XmlNodeView>, service: Seq<char>) -> Option<Seq<char>> {
    match first_match(0, nodes.len() as int, tagged(nodes, service, NS_SCHEMA@)) {
        None => None,
        Some(s) => match first_match(0, nodes.len() as int, child_tagged(nodes, s, XADDR@, NS_SCHEMA@)) {
            None => None,
            Some(x) => nodes[x].text,
        },
    }
}

/// The `token` attribute of the first `Profiles` element (media namespace).
pub open spec fn profile_token_of(nodes: Seq<XmlNodeView>) -> Option<Seq<char>> {
    match first_match(0, nodes.len() as int, tagged(nodes, PROFILES@, NS_MEDIA@)) {
        None => None,
        Some(p) => attribute_value(nodes[p].attributes, TOKEN@),
    }
}

/// The reason of the SOAP fault in `nodes`, if there is one: the first node
/// named `Fault` (in any namespace) is the fault; its reason is the text of
/// the first node named `Text` within it, or `unknown error` where there is
/// no such node or it has no text.
pub open spec fn fault_reason(nodes: Seq<XmlNodeView>) -> Option<Seq<char>> {
    match first_match(0, nodes.len() as int, named(nodes, FAULT@)) {
        None => None,
        Some(f) => Some(
            match first_match(f, nodes.len() as int, named_below(nodes, f, FAULT_TEXT@)) {
                Some(k) => match nodes[k].text {
                    Some(t) => t,
                    None => UNKNOWN_ERROR@,
                },
                None => UNKNOWN_ERROR@,
            },
        ),
    }
}

/// The address of `service` in the capabilities document `doc`.
pub fn find_xaddr(doc: &XmlDocument, service: &str) -> (res: Result<String, OnvifError>)
    ensures
        match xaddr_of(doc@, service@) {
            Some(url) => res matches Ok(u) && u@ == url,
            None => res matches Err(OnvifError::MissingXAddr(s)) && s@ == service@,
        },
{
    let found = match doc.first_tagged(service, NS_SCHEMA) {
        Some(s) => match doc.first_child_tagged(s, XADDR, NS_SCHEMA) {
            Some(x) => doc.text_of(x),
            None => None,
        },
        None => None,
    };
    match found {
        Some(url) => Ok(url),
        None => Err(OnvifError::MissingXAddr(String::from_str(service))),
    }
}

/// The token of the first media profile in `doc`. All profiles of a camera
/// move the same lens, so any of them serves for PTZ.
pub fn find_profile_token(doc: &XmlDocument) -> (res: Result<String, OnvifError>)
    ensures
        match profile_token_of(doc@) {
            Some(token) => res matches Ok(t) && t@ == token,
            None => res matches Err(OnvifError::MissingProfileToken),
        },
{
    let found = match doc.first_tagged(PROFILES, NS_MEDIA) {
        Some(p) => doc.attribute(p, TOKEN),
        None => None,
    };
    match found {
        Some(token) => Ok(token),
        None => Err(OnvifError::MissingProfileToken),
    }
}

/// Parses a SOAP response.
pub fn parse_response(response: &str) -> (res: Result<XmlDocument, OnvifError>)
    ensures
        match parsed_xml(response@) {
            Some(nodes) => res matches Ok(doc) && doc@ == nodes,
            None => res matches Err(OnvifError::InvalidXml(_)),
        },
{
    match XmlDocument::parse(response) {
        Ok(doc) => Ok(doc),
        Err(e) => Err(OnvifError::InvalidXml(e.to_string())),
    }
}

/// Accepts a SOAP response unless it is not XML or carries a fault.
pub fn check_soap_fault(response: &str) -> (res: Result<(), OnvifError>)
    ensures
        match parsed_xml(response@) {
            None => res matches Err(OnvifError::InvalidXml(_)),
            Some(nodes) => match fault_reason(nodes) {
                None => res is Ok,
                Some(reason) => res matches Err(OnvifError::SoapFault(r)) && r@ == reason,
            },
        },
{
    let doc = parse_response(response)?;
    match doc.first_named(FAULT) {
        Some(f) => {
            let reason = match doc.first_named_below(f, FAULT_TEXT) {
                Some(k) => match doc.text_of(k) {
                    Some(t) => t,
                    None => String::from_str(UNKNOWN_ERROR),
                },
                None => String::from_str(UNKNOWN_ERROR),
            };
            Err(OnvifError::SoapFault(reason))
        },
        None => Ok(()),
    }
}

/// A SOAP request to send: the body is POSTed to the URL with the
/// content type `SOAP_CONTENT_TYPE`.
#[derive(Debug)]
pub struct SoapRequest {
    pub url: String,
    pub body: String,
}

/// An ONVIF PTZ client for one camera: the service addresses that the
/// camera announced and the media profile that PTZ commands name.
#[derive(Debug)]
pub struct OnvifClient {
    camera_config: CameraConfig,
    media_service_url: String,
    ptz_service_url: String,
    profile_token: String,
}

/// Where connecting to a camera stands: which answer it waits for.
#[derive(Debug)]
pub enum OnvifConnect {
    /// The device service was asked for its capabilities.
    AwaitingCapabilities { camera_config: CameraConfig },
    /// The media service was asked for its profiles.
    AwaitingProfiles { camera_config: CameraConfig, media_service_url: String, ptz_service_url: String },
}

/// What follows an answer while connecting.
#[derive(Debug)]
pub enum ConnectStep {
    /// Send this request, and hand its answer to the new state.
    Send(OnvifConnect, SoapRequest),
    /// The client is ready.
    Connected(OnvifClient),
}

impl OnvifClient {
    pub closed spec fn spec_camera_config(&self) -> CameraConfig {
        self.camera_config
    }

    pub closed spec fn spec_media_service_url(&self) -> Seq<char> {
        self.media_service_url@
    }

    pub closed spec fn spec_ptz_service_url(&self) -> Seq<char> {
        self.ptz_service_url@
    }

    pub closed spec fn spec_profile_token(&self) -> Seq<char> {
        self.profile_token@
    }

    pub fn camera_config(&self) -> (config: &CameraConfig)
        ensures
            *config == self.spec_camera_config(),
    {
        &self.camera_config
    }

    pub fn media_service_url(&self) -> (url: &str)
        ensures
            url@ == self.spec_media_service_url(),
    {
        self.media_service_url.as_str()
    }

    pub fn ptz_service_url(&self) -> (url: &str)
        ensures
            url@ == self.spec_ptz_service_url(),
    {
        self.ptz_service_url.as_str()
    }

    pub fn profile_token(&self) -> (token: &str)
        ensures
            token@ == self.spec_profile_token(),
    {
        self.profile_token.as_str()
    }

    /// Starts connecting: the first request asks the device service, at the
    /// path the ONVIF core specification fixes, for all capabilities,
    /// authenticated with what `entropy` supplies.
    pub fn start_connect_with_entropy(camera_config: CameraConfig, entropy: &RequestEntropy) -> (res: Result<(OnvifConnect, SoapRequest), OnvifError>)
        requires
            entropy_fits(*entropy),
        ensures
            start_connect_result(camera_config, *entropy, res),
    {
        let url = device_service_url(&camera_config)?;
        let body = build_soap_envelope_with_entropy(&camera_config, capabilities_body(), entropy)?;
        Ok((OnvifConnect::AwaitingCapabilities { camera_config }, SoapRequest { url, body }))
    }

    /// Starts connecting, with a fresh nonce and the current time.
    pub fn start_connect(camera_config: CameraConfig) -> (res: Result<(OnvifConnect, SoapRequest), OnvifError>)
        ensures
            match res {
                Ok((state, request)) => {
                    &&& parsed_url(device_service_url_text(camera_config)) == Some(request.url@)
                    &&& is_envelope_for(camera_config.user@, camera_config.password@, capabilities_body_text(), request.body@)
                    &&& state == OnvifConnect::AwaitingCapabilities { camera_config }
                },
                Err(e) => {
                    ||| parsed_url(device_service_url_text(camera_config)) is None && e is InvalidUrl
                    ||| parsed_url(device_service_url_text(camera_config)) is Some && is_environment_error(e)
                },
            },
    {
        let entropy = RequestEntropy::draw();
        let ghost config = camera_config;
        let res = Self::start_connect_with_entropy(camera_config, &entropy);
        proof {
            lemma_stamped_envelope_is_envelope(config, capabilities_body_text(), entropy);
        }
        res
    }

    /// The request that starts panning and tilting at the given velocities
    /// (written as they are to appear in the request), authenticated with
    /// what `entropy` supplies.
    pub fn ptz_move_request_with_entropy(&self, pan: &str, tilt: &str, entropy: &RequestEntropy) -> (res: Result<SoapRequest, OnvifError>)
        requires
            entropy_fits(*entropy),
        ensures
            ptz_move_result(*self, pan@, tilt@, *entropy, res),
    {
        let body = ptz_move_body(self.profile_token.as_str(), pan, tilt);
        let envelope = build_soap_envelope_with_entropy(&self.camera_config, body, entropy)?;
        Ok(SoapRequest { url: self.ptz_service_url.clone(), body: envelope })
    }

    /// The request that starts panning and tilting at the given velocities,
    /// with a fresh nonce and the current time.
    pub fn ptz_move_request(&self, pan: &str, tilt: &str) -> (res: Result<SoapRequest, OnvifError>)
        ensures
            match res {
                Ok(request) => request.url@ == self.spec_ptz_service_url() && is_envelope_for(
                    self.spec_camera_config().user@,
                    self.spec_camera_config().password@,
                    move_body_text(self.spec_profile_token(), pan@, tilt@),
                    request.body@,
                ),
                Err(e) => is_environment_error(e),
            },
    {
        let entropy = RequestEntropy::draw();
        let res = self.ptz_move_request_with_entropy(pan, tilt, &entropy);
        proof {
            lemma_stamped_envelope_is_envelope(
                self.spec_camera_config(),
                move_body_text(self.spec_profile_token(), pan@, tilt@),
                entropy,
            );
        }
        res
    }

    /// The request that stops all movement, authenticated with what
    /// `entropy` supplies.
    pub fn ptz_stop_request_with_entropy(&self, entropy: &RequestEntropy) -> (res: Result<SoapRequest, OnvifError>)
        requires
            entropy_fits(*entropy),
        ensures
            ptz_stop_result(*self, *entropy, res),
    {
        let body = ptz_stop_body(self.profile_token.as_str());
        let envelope = build_soap_envelope_with_entropy(&self.camera_config, body, entropy)?;
        Ok(SoapRequest { url: self.ptz_service_url.clone(), body: envelope })
    }

    /// The request that stops all movement, with a fresh nonce and the
    /// current time.
    pub fn ptz_stop_request(&self) -> (res: Result<SoapRequest, OnvifError>)
        ensures
            match res {
                Ok(request) => request.url@ == self.spec_ptz_service_url() && is_envelope_for(
                    self.spec_camera_config().user@,
                    self.spec_camera_config().password@,
                    stop_body_text(self.spec_profile_token()),
                    request.body@,
                ),
                Err(e) => is_environment_error(e),
            },
    {
        let entropy = RequestEntropy::draw();
        let res = self.ptz_stop_request_with_entropy(&entropy);
        proof {
            lemma_stamped_envelope_is_envelope(
                self.spec_camera_config(),
                stop_body_text(self.spec_profile_token()),
                entropy,
            );
        }
        res
    }
}

/// The envelope around `body` for the camera's user, stamped with `nonce`
/// and `created`.
pub open spec fn stamped_envelope(config: CameraConfig, body: Seq<char>, nonce: Seq<u8>, created: Seq<char>) -> Seq<char> {
    envelope_text(auth_header_text(config.user@, config.password@, nonce, created), body)
}

/// `res` is what starting to connect with `entropy` gives: the parsed
/// device-service URL (or its parse error), then the capabilities request
/// stamped from `entropy` (or the error `entropy` gives).
pub open spec fn start_connect_result(
    config: CameraConfig,
    entropy: RequestEntropy,
    res: Result<(OnvifConnect, SoapRequest), OnvifError>,
) -> bool {
    match parsed_url(device_service_url_text(config)) {
        None => res matches Err(e) && e is InvalidUrl,
        Some(url) => match entropy_stamp(entropy) {
            Err(error) => res == Err::<(OnvifConnect, SoapRequest), OnvifError>(error),
            Ok((nonce, created)) => res matches Ok((state, request))
                && state == (OnvifConnect::AwaitingCapabilities { camera_config: config })
                && request.url@ == url
                && request.body@ == stamped_envelope(config, capabilities_body_text(), nonce, created)
                && is_creation_time(created),
        },
    }
}

/// `res` is the `ContinuousMove` request of `client` for `pan` and `tilt`,
/// stamped from `entropy`, or the error `entropy` gives.
pub open spec fn ptz_move_result(
    client: OnvifClient,
    pan: Seq<char>,
    tilt: Seq<char>,
    entropy: RequestEntropy,
    res: Result<SoapRequest, OnvifError>,
) -> bool {
    match entropy_stamp(entropy) {
        Err(error) => res == Err::<SoapRequest, OnvifError>(error),
        Ok((nonce, created)) => res matches Ok(request)
            && request.url@ == client.spec_ptz_service_url()
            && request.body@ == stamped_envelope(
                client.spec_camera_config(),
                move_body_text(client.spec_profile_token(), pan, tilt),
                nonce,
                created,
            )
            && is_creation_time(created),
    }
}

/// `res` is the `Stop` request of `client`, stamped from `entropy`, or the
/// error `entropy` gives.
pub open spec fn ptz_stop_result(client: OnvifClient, entropy: RequestEntropy, res: Result<SoapRequest, OnvifError>) -> bool {
    match entropy_stamp(entropy) {
        Err(error) => res == Err::<SoapRequest, OnvifError>(error),
        Ok((nonce, created)) => res matches Ok(request)
            && request.url@ == client.spec_ptz_service_url()
            && request.body@ == stamped_envelope(
                client.spec_camera_config(),
                stop_body_text(client.spec_profile_token()),
                nonce,
                created,
            )
            && is_creation_time(created),
    }
}

/// `res` is what the answer `response` in state `state` gives, with
/// `entropy` for the next request.
pub open spec fn on_response_result(
    state: OnvifConnect,
    response: Seq<char>,
    entropy: RequestEntropy,
    res: Result<ConnectStep, OnvifError>,
) -> bool {
    match parsed_xml(response) {
        None => res matches Err(OnvifError::InvalidXml(_)),
        Some(nodes) => match state {
            OnvifConnect::AwaitingCapabilities { camera_config } => match (
                xaddr_of(nodes, MEDIA_SERVICE@),
                xaddr_of(nodes, PTZ_SERVICE@),
            ) {
                (None, _) => res matches Err(OnvifError::MissingXAddr(s)) && s@ == MEDIA_SERVICE@,
                (Some(_), None) => res matches Err(OnvifError::MissingXAddr(s)) && s@ == PTZ_SERVICE@,
                (Some(media), Some(ptz)) => match entropy_stamp(entropy) {
                    Err(error) => res == Err::<ConnectStep, OnvifError>(error),
                    Ok((nonce, created)) => res matches Ok(
                        ConnectStep::Send(OnvifConnect::AwaitingProfiles { camera_config: c, media_service_url: m, ptz_service_url: p }, request),
                    ) && c == camera_config && m@ == media && p@ == ptz && request.url@ == media
                        && request.body@ == stamped_envelope(camera_config, profiles_body_text(), nonce, created)
                        && is_creation_time(created),
                },
            },
            OnvifConnect::AwaitingProfiles { camera_config, media_service_url, ptz_service_url } => match profile_token_of(nodes) {
                None => res matches Err(OnvifError::MissingProfileToken),
                Some(token) => res matches Ok(ConnectStep::Connected(client)) && client.spec_camera_config() == camera_config
                    && client.spec_media_service_url() == media_service_url@
                    && client.spec_ptz_service_url() == ptz_service_url@
                    && client.spec_profile_token() == token,
            },
        },
    }
}

/// A stamp from drawn entropy makes an envelope that carries a
/// `UsernameToken` header for the camera's user.
proof fn lemma_stamped_envelope_is_envelope(config: CameraConfig, body: Seq<char>, entropy: RequestEntropy)
    requires
        entropy.nonce matches Some(n) ==> n@.len() == NONCE_LEN,
    ensures
        entropy_stamp(entropy) matches Ok((nonce, created)) ==> (is_creation_time(created)
            ==> is_envelope_for(config.user@, config.password@, body, stamped_envelope(config, body, nonce, created))),
{
    if let Ok((nonce, created)) = entropy_stamp(entropy) {
        if is_creation_time(created) {
            let header = auth_header_text(config.user@, config.password@, nonce, created);
            assert(nonce.len() == NONCE_LEN);
            assert(is_auth_header_for(config.user@, config.password@, header));
        }
    }
}

impl OnvifConnect {
    /// Takes the answer to the last request; the next request, if any, is
    /// authenticated with what `entropy` supplies.
    pub fn on_response_with_entropy(self, response: &str, entropy: &RequestEntropy) -> (res: Result<ConnectStep, OnvifError>)
        requires
            entropy_fits(*entropy),
        ensures
            on_response_result(self, response@, *entropy, res),
    {
        let doc = parse_response(response)?;
        match self {
            OnvifConnect::AwaitingCapabilities { camera_config } => {
                let media_service_url = find_xaddr(&doc, MEDIA_SERVICE)?;
                let ptz_service_url = find_xaddr(&doc, PTZ_SERVICE)?;
                let body = build_soap_envelope_with_entropy(&camera_config, profiles_body(), entropy)?;
                let request = SoapRequest { url: media_service_url.clone(), body };
                Ok(ConnectStep::Send(
                    OnvifConnect::AwaitingProfiles { camera_config, media_service_url, ptz_service_url },
                    request,
                ))
            },
            OnvifConnect::AwaitingProfiles { camera_config, media_service_url, ptz_service_url } => {
                let profile_token = find_profile_token(&doc)?;
                Ok(ConnectStep::Connected(OnvifClient {
                    camera_config,
                    media_service_url,
                    ptz_service_url,
                    profile_token,
                }))
            },
        }
    }

    /// Takes the answer to the last request; the next request, if any, gets
    /// a fresh nonce and the current time.
    pub fn on_response(self, response: &str) -> (res: Result<ConnectStep, OnvifError>)
        ensures
            match parsed_xml(response@) {
                None => res matches Err(OnvifError::InvalidXml(_)),
                Some(nodes) => match self {
                    OnvifConnect::AwaitingCapabilities { camera_config } => match (
                        xaddr_of(nodes, MEDIA_SERVICE@),
                        xaddr_of(nodes, PTZ_SERVICE@),
                    ) {
                        (None, _) => res matches Err(OnvifError::MissingXAddr(s)) && s@ == MEDIA_SERVICE@,
                        (Some(_), None) => res matches Err(OnvifError::MissingXAddr(s)) && s@ == PTZ_SERVICE@,
                        (Some(media), Some(ptz)) => {
                            ||| res matches Ok(
                                ConnectStep::Send(OnvifConnect::AwaitingProfiles { camera_config: c, media_service_url: m, ptz_service_url: p }, request),
                            ) && c == camera_config && m@ == media && p@ == ptz && request.url@ == media
                                && is_envelope_for(camera_config.user@, camera_config.password@, profiles_body_text(), request.body@)
                            ||| res matches Err(e) && is_environment_error(e)
                        },
                    },
                    OnvifConnect::AwaitingProfiles { camera_config, media_service_url, ptz_service_url } => match profile_token_of(nodes) {
                        None => res matches Err(OnvifError::MissingProfileToken),
                        Some(token) => res matches Ok(ConnectStep::Connected(client)) && client.spec_camera_config() == camera_config
                            && client.spec_media_service_url() == media_service_url@
                            && client.spec_ptz_service_url() == ptz_service_url@
                            && client.spec_profile_token() == token,
                    },
                },
            },
    {
        let entropy = RequestEntropy::draw();
        let ghost state = self;
        let res = self.on_response_with_entropy(response, &entropy);
        proof {
            if let OnvifConnect::AwaitingCapabilities { camera_config } = state {
                lemma_stamped_envelope_is_envelope(camera_config, profiles_body_text(), entropy);
            }
        }
        res
    }
}

} // verus!
