use rioting::camera::OnvifCamera;
use rioting::config::{CameraConfig, Vendor};
use rioting::error::OnvifError;
use rioting::onvif::{
    check_soap_fault, find_profile_token, find_xaddr, parse_response, ConnectStep, OnvifClient,
    OnvifConnect,
};
use rioting::xml::XmlDocument;

const CAPABILITIES: &str = r#"<?xml version="1.0" encoding="UTF-8"?>
<env:Envelope xmlns:env="http://www.w3.org/2003/05/soap-envelope" xmlns:tds="http://www.onvif.org/ver10/device/wsdl" xmlns:tt="http://www.onvif.org/ver10/schema">
  <env:Body>
    <tds:GetCapabilitiesResponse>
      <tds:Capabilities>
        <tt:Device><tt:XAddr>http://192.168.1.1:2020/onvif/device_service</tt:XAddr></tt:Device>
        <tt:Media><tt:XAddr>http://192.168.1.1:2020/onvif/service</tt:XAddr></tt:Media>
        <tt:PTZ><tt:XAddr>http://192.168.1.1:2020/onvif/ptz_service</tt:XAddr></tt:PTZ>
      </tds:Capabilities>
    </tds:GetCapabilitiesResponse>
  </env:Body>
</env:Envelope>"#;

const PROFILES: &str = r#"<env:Envelope xmlns:env="http://www.w3.org/2003/05/soap-envelope" xmlns:trt="http://www.onvif.org/ver10/media/wsdl" xmlns:tt="http://www.onvif.org/ver10/schema">
  <env:Body>
    <trt:GetProfilesResponse>
      <trt:Profiles token="profile_1" fixed="true"><tt:Name>mainStream</tt:Name></trt:Profiles>
      <trt:Profiles token="profile_2" fixed="true"><tt:Name>minorStream</tt:Name></trt:Profiles>
    </trt:GetProfilesResponse>
  </env:Body>
</env:Envelope>"#;

const FAULT: &str = r#"<env:Envelope xmlns:env="http://www.w3.org/2003/05/soap-envelope" xmlns:ter="http://www.onvif.org/ver10/error">
  <env:Body>
    <env:Fault>
      <env:Code><env:Value>env:Sender</env:Value></env:Code>
      <env:Reason><env:Text xml:lang="en">Sender not Authorized</env:Text></env:Reason>
    </env:Fault>
  </env:Body>
</env:Envelope>"#;

const OK_RESPONSE: &str = r#"<env:Envelope xmlns:env="http://www.w3.org/2003/05/soap-envelope"><env:Body><tptz:StopResponse xmlns:tptz="http://www.onvif.org/ver20/ptz/wsdl"/></env:Body></env:Envelope>"#;

fn config() -> CameraConfig {
    CameraConfig::new(
        Vendor::Tapo,
        "front-door".to_string(),
        "192.168.1.1".to_string(),
        "admin".to_string(),
        "secret".to_string(),
        None,
    )
}

fn doc(text: &str) -> XmlDocument {
    XmlDocument::parse(text).unwrap()
}

#[test]
fn parsed_document_lists_nodes_in_document_order() {
    let d = doc("<a x='1'><b>hi</b><c/></a>");
    assert_eq!(d.nodes.len(), 5);
    assert_eq!(d.nodes[0].parent, None);
    assert_eq!(d.nodes[1].name, "a");
    assert_eq!(d.nodes[1].parent, Some(0));
    assert_eq!(d.nodes[1].attributes[0].name, "x");
    assert_eq!(d.nodes[1].attributes[0].value, "1");
    assert_eq!(d.nodes[2].name, "b");
    assert_eq!(d.nodes[2].text.as_deref(), Some("hi"));
    assert_eq!(d.nodes[3].name, "");
    assert_eq!(d.nodes[3].parent, Some(2));
    assert_eq!(d.nodes[3].text.as_deref(), Some("hi"));
    assert_eq!(d.nodes[4].name, "c");
    assert_eq!(d.nodes[4].parent, Some(1));
}

#[test]
fn xaddr_of_each_service() {
    let d = doc(CAPABILITIES);
    assert_eq!(find_xaddr(&d, "Media").unwrap(), "http://192.168.1.1:2020/onvif/service");
    assert_eq!(find_xaddr(&d, "PTZ").unwrap(), "http://192.168.1.1:2020/onvif/ptz_service");
    assert_eq!(find_xaddr(&d, "Device").unwrap(), "http://192.168.1.1:2020/onvif/device_service");
}

#[test]
fn xaddr_missing_service() {
    let err = find_xaddr(&doc(CAPABILITIES), "Imaging").unwrap_err();
    assert!(matches!(&err, OnvifError::MissingXAddr(s) if s == "Imaging"));
    assert_eq!(err.message(), "No XAddr found for service: Imaging");
}

#[test]
fn xaddr_needs_schema_namespace_and_direct_child() {
    let wrong_ns = r#"<r xmlns:x="urn:other" xmlns:tt="http://www.onvif.org/ver10/schema"><x:PTZ><tt:XAddr>a</tt:XAddr></x:PTZ></r>"#;
    assert!(find_xaddr(&doc(wrong_ns), "PTZ").is_err());
    let grandchild = r#"<r xmlns:tt="http://www.onvif.org/ver10/schema"><tt:PTZ><tt:Inner><tt:XAddr>a</tt:XAddr></tt:Inner></tt:PTZ></r>"#;
    assert!(find_xaddr(&doc(grandchild), "PTZ").is_err());
    let xaddr_wrong_ns = r#"<r xmlns:tt="http://www.onvif.org/ver10/schema"><tt:PTZ><XAddr>a</XAddr></tt:PTZ></r>"#;
    assert!(find_xaddr(&doc(xaddr_wrong_ns), "PTZ").is_err());
}

#[test]
fn xaddr_uses_first_service_element_only() {
    let two = r#"<r xmlns:tt="http://www.onvif.org/ver10/schema"><tt:PTZ/><tt:PTZ><tt:XAddr>second</tt:XAddr></tt:PTZ></r>"#;
    assert!(find_xaddr(&doc(two), "PTZ").is_err());
    let two_addrs = r#"<r xmlns:tt="http://www.onvif.org/ver10/schema"><tt:PTZ><tt:XAddr>one</tt:XAddr><tt:XAddr>two</tt:XAddr></tt:PTZ></r>"#;
    assert_eq!(find_xaddr(&doc(two_addrs), "PTZ").unwrap(), "one");
}

#[test]
fn empty_xaddr_has_no_address() {
    let empty = r#"<r xmlns:tt="http://www.onvif.org/ver10/schema"><tt:PTZ><tt:XAddr/></tt:PTZ></r>"#;
    assert!(matches!(find_xaddr(&doc(empty), "PTZ"), Err(OnvifError::MissingXAddr(_))));
}

#[test]
fn first_profile_token() {
    assert_eq!(find_profile_token(&doc(PROFILES)).unwrap(), "profile_1");
}

#[test]
fn profile_without_token() {
    let no_token = r#"<r xmlns:trt="http://www.onvif.org/ver10/media/wsdl"><trt:Profiles fixed="true"/><trt:Profiles token="later"/></r>"#;
    let err = find_profile_token(&doc(no_token)).unwrap_err();
    assert!(matches!(err, OnvifError::MissingProfileToken));
    assert_eq!(err.message(), "No profile token found");
    assert!(find_profile_token(&doc("<r/>")).is_err());
}

#[test]
fn fault_reason_is_reported() {
    let err = check_soap_fault(FAULT).unwrap_err();
    assert!(matches!(&err, OnvifError::SoapFault(r) if r == "Sender not Authorized"));
    assert_eq!(err.message(), "SOAP fault: Sender not Authorized");
}

#[test]
fn fault_without_text_is_unknown() {
    let bare = r#"<env:Envelope xmlns:env="http://www.w3.org/2003/05/soap-envelope"><env:Body><env:Fault/></env:Body></env:Envelope>"#;
    assert!(matches!(check_soap_fault(bare), Err(OnvifError::SoapFault(r)) if r == "unknown error"));
    let empty_text = r#"<Fault><Reason><Text/></Reason></Fault>"#;
    assert!(matches!(check_soap_fault(empty_text), Err(OnvifError::SoapFault(r)) if r == "unknown error"));
}

#[test]
fn text_outside_the_fault_is_not_its_reason() {
    let outside = r#"<r><Fault/><Text>elsewhere</Text></r>"#;
    assert!(matches!(check_soap_fault(outside), Err(OnvifError::SoapFault(r)) if r == "unknown error"));
}

#[test]
fn response_without_fault_is_accepted() {
    assert!(check_soap_fault(OK_RESPONSE).is_ok());
    assert!(check_soap_fault(CAPABILITIES).is_ok());
}

#[test]
fn malformed_response_is_rejected() {
    assert!(matches!(check_soap_fault("<a><b></a>"), Err(OnvifError::InvalidXml(_))));
    assert!(matches!(parse_response(""), Err(OnvifError::InvalidXml(_))));
}

fn connect() -> OnvifClient {
    let (state, first) = OnvifClient::start_connect(config()).unwrap();
    assert_eq!(first.url, "http://192.168.1.1:2020/onvif/device_service");
    assert!(first.body.contains("<tds:GetCapabilities xmlns:tds=\"http://www.onvif.org/ver10/device/wsdl\">"));
    assert!(first.body.contains("<wsse:Username>admin</wsse:Username>"));
    assert!(matches!(state, OnvifConnect::AwaitingCapabilities { .. }));
    let second = match state.on_response(CAPABILITIES).unwrap() {
        ConnectStep::Send(state, request) => {
            assert_eq!(request.url, "http://192.168.1.1:2020/onvif/service");
            assert!(request.body.contains("<trt:GetProfiles xmlns:trt=\"http://www.onvif.org/ver10/media/wsdl\"/>"));
            state
        }
        ConnectStep::Connected(_) => panic!("connected too early"),
    };
    match second.on_response(PROFILES).unwrap() {
        ConnectStep::Connected(client) => client,
        ConnectStep::Send(..) => panic!("unexpected request"),
    }
}

#[test]
fn connect_discovers_services_and_token() {
    let client = connect();
    assert_eq!(client.media_service_url(), "http://192.168.1.1:2020/onvif/service");
    assert_eq!(client.ptz_service_url(), "http://192.168.1.1:2020/onvif/ptz_service");
    assert_eq!(client.profile_token(), "profile_1");
    assert_eq!(client.camera_config().name, "front-door");
}

#[test]
fn connect_fails_without_ptz_address() {
    let no_ptz = r#"<r xmlns:tt="http://www.onvif.org/ver10/schema"><tt:Media><tt:XAddr>m</tt:XAddr></tt:Media></r>"#;
    let (state, _) = OnvifClient::start_connect(config()).unwrap();
    assert!(matches!(state.on_response(no_ptz), Err(OnvifError::MissingXAddr(s)) if s == "PTZ"));
    let (state, _) = OnvifClient::start_connect(config()).unwrap();
    assert!(matches!(state.on_response("<r/>"), Err(OnvifError::MissingXAddr(s)) if s == "Media"));
}

#[test]
fn connect_fails_on_bad_device_url() {
    let bad = CameraConfig::new(Vendor::Tapo, "x".to_string(), "a b".to_string(), "u".to_string(), "p".to_string(), None);
    assert!(matches!(OnvifClient::start_connect(bad), Err(OnvifError::InvalidUrl(_))));
}

#[test]
fn ptz_requests_use_discovered_service_and_token() {
    let client = connect();
    let stop = client.ptz_stop_request().unwrap();
    assert_eq!(stop.url, "http://192.168.1.1:2020/onvif/ptz_service");
    assert!(stop.body.contains("<tptz:Stop xmlns:tptz=\"http://www.onvif.org/ver20/ptz/wsdl\">\n            <tptz:ProfileToken>profile_1</tptz:ProfileToken>"));
    let mv = client.ptz_move_request("0.5", "0").unwrap();
    assert_eq!(mv.url, "http://192.168.1.1:2020/onvif/ptz_service");
    assert!(mv.body.contains("<tt:PanTilt x=\"0.5\" y=\"0\"/>"));
    assert!(mv.body.contains("<tptz:ProfileToken>profile_1</tptz:ProfileToken>"));
}

#[test]
fn camera_delegates_to_its_client() {
    let camera = OnvifCamera::new("rtsp://192.168.1.1:554/stream1".to_string(), connect());
    assert_eq!(camera.rtsp_url(), "rtsp://192.168.1.1:554/stream1");
    assert_eq!(camera.onvif_client().profile_token(), "profile_1");
    assert_eq!(camera.ptz_stop_request().unwrap().url, "http://192.168.1.1:2020/onvif/ptz_service");
    assert!(camera.ptz_move_request("1", "1").unwrap().body.contains("x=\"1\" y=\"1\""));
}
