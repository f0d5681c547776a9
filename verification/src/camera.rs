use vstd::prelude::*;

use crate::auth::{entropy_fits, is_envelope_for, is_environment_error, RequestEntropy};
use crate::error::OnvifError;
use crate::onvif::{ptz_move_result, ptz_stop_result, OnvifClient, SoapRequest};
use crate::soap::{move_body_text, stop_body_text};

verus! {

/// A camera whose stream is read over RTSP and whose lens is steered over
/// ONVIF.
#[derive(Debug)]
pub struct OnvifCamera {
    rtsp_url: String,
    onvif_client: OnvifClient,
}

impl OnvifCamera {
    pub closed spec fn spec_rtsp_url(&self) -> Seq<char> {
        self.rtsp_url@
    }

    pub closed spec fn spec_onvif_client(&self) -> OnvifClient {
        self.onvif_client
    }

    /// A camera streaming at `rtsp_url` (see `address::camera_rtsp_url`) and
    /// steered through `onvif_client`.
    pub fn new(rtsp_url: String, onvif_client: OnvifClient) -> (camera: OnvifCamera)
        ensures
            camera.spec_rtsp_url() == rtsp_url@,
            camera.spec_onvif_client() == onvif_client,
    {
        OnvifCamera { rtsp_url, onvif_client }
    }

    pub fn rtsp_url(&self) -> (url: &str)
        ensures
            url@ == self.spec_rtsp_url(),
    {
        self.rtsp_url.as_str()
    }

    pub fn onvif_client(&self) -> (client: &OnvifClient)
        ensures
            *client == self.spec_onvif_client(),
    {
        &self.onvif_client
    }

    /// The request that starts panning and tilting the camera, authenticated
    /// with what `entropy` supplies.
    pub fn ptz_move_request_with_entropy(&self, pan: &str, tilt: &str, entropy: &RequestEntropy) -> (res: Result<SoapRequest, OnvifError>)
        requires
            entropy_fits(*entropy),
        ensures
            ptz_move_result(self.spec_onvif_client(), pan@, tilt@, *entropy, res),
    {
        self.onvif_client.ptz_move_request_with_entropy(pan, tilt, entropy)
    }

    /// The request that stops the camera's movement, authenticated with what
    /// `entropy` supplies.
    pub fn ptz_stop_request_with_entropy(&self, entropy: &RequestEntropy) -> (res: Result<SoapRequest, OnvifError>)
        requires
            entropy_fits(*entropy),
        ensures
            ptz_stop_result(self.spec_onvif_client(), *entropy, res),
    {
        self.onvif_client.ptz_stop_request_with_entropy(entropy)
    }

    /// The request that starts panning and tilting the camera.
    pub fn ptz_move_request(&self, pan: &str, tilt: &str) -> (res: Result<SoapRequest, OnvifError>)
        ensures
            match res {
                Ok(request) => request.url@ == self.spec_onvif_client().spec_ptz_service_url() && is_envelope_for(
                    self.spec_onvif_client().spec_camera_config().user@,
                    self.spec_onvif_client().spec_camera_config().password@,
                    move_body_text(self.spec_onvif_client().spec_profile_token(), pan@, tilt@),
                    request.body@,
                ),
                Err(e) => is_environment_error(e),
            },
    {
        self.onvif_client.ptz_move_request(pan, tilt)
    }

    /// The request that stops the camera's movement.
    pub fn ptz_stop_request(&self) -> (res: Result<SoapRequest, OnvifError>)
        ensures
            match res {
                Ok(request) => request.url@ == self.spec_onvif_client().spec_ptz_service_url() && is_envelope_for(
                    self.spec_onvif_client().spec_camera_config().user@,
                    self.spec_onvif_client().spec_camera_config().password@,
                    stop_body_text(self.spec_onvif_client().spec_profile_token()),
                    request.body@,
                ),
                Err(e) => is_environment_error(e),
            },
    {
        self.onvif_client.ptz_stop_request()
    }
}

} // verus!
