use rioting::address::{
    camera_rtsp_url, device_service_url, device_service_url_string, parse_absolute_url,
    rtsp_url_string,
};
use rioting::auth::{auth_header_with, build_auth_header, build_soap_envelope, creation_time, utc_now_created};
use rioting::config::{CameraConfig, Vendor};
use rioting::error::OnvifError;
use rioting::soap::{
    capabilities_body, profiles_body, ptz_move_body, ptz_stop_body, soap_envelope,
};
use rioting::text::{push_decimal, text_eq};

fn camera(vendor: Vendor, ip: &str, onvif_port: Option<u16>) -> CameraConfig {
    CameraConfig::new(
        vendor,
        "front-door".to_string(),
        ip.to_string(),
        "admin".to_string(),
        "secret".to_string(),
        onvif_port,
    )
}

fn header_text(user: &str, digest: &str, nonce: &str, created: &str) -> String {
    format!(
        r#"
            <wsse:Security
              xmlns:wsse="http://docs.oasis-open.org/wss/2004/01/oasis-200401-wss-wssecurity-secext-1.0.xsd"
              xmlns:wsu="http://docs.oasis-open.org/wss/2004/01/oasis-200401-wss-wssecurity-utility-1.0.xsd">
              <wsse:UsernameToken>
                <wsse:Username>{user}</wsse:Username>
                <wsse:Password Type="http://docs.oasis-open.org/wss/2004/01/oasis-200401-wss-username-token-profile-1.0#PasswordDigest">{digest}</wsse:Password>
                <wsse:Nonce EncodingType="http://docs.oasis-open.org/wss/2004/01/oasis-200401-wss-soap-message-security-1.0#Base64Binary">{nonce}</wsse:Nonce>
                <wsu:Created>{created}</wsu:Created>
              </wsse:UsernameToken>
            </wsse:Security>
            "#
    )
}

#[test]
fn rtsp_url_for_each_vendor() {
    assert_eq!(rtsp_url_string(&camera(Vendor::Tapo, "192.168.1.1", None)), "rtsp://192.168.1.1:554/stream1");
    assert_eq!(
        camera_rtsp_url(&camera(Vendor::Reolink, "10.0.0.7", None)).unwrap(),
        "rtsp://10.0.0.7:554/h264Preview_01_main"
    );
}

#[test]
fn rtsp_url_rejects_a_bad_host() {
    let err = camera_rtsp_url(&camera(Vendor::Tapo, "bad host", None)).unwrap_err();
    assert!(matches!(err, OnvifError::InvalidUrl(_)));
}

#[test]
fn device_service_url_uses_the_onvif_port() {
    assert_eq!(
        device_service_url_string(&camera(Vendor::Tapo, "192.168.1.1", None)),
        "http://192.168.1.1:2020/onvif/device_service"
    );
    assert_eq!(
        device_service_url(&camera(Vendor::Reolink, "192.168.1.2", None)).unwrap(),
        "http://192.168.1.2:8000/onvif/device_service"
    );
    assert_eq!(
        device_service_url(&camera(Vendor::Tapo, "192.168.1.3", Some(65535))).unwrap(),
        "http://192.168.1.3:65535/onvif/device_service"
    );
}

#[test]
fn url_parser_normalises() {
    assert_eq!(parse_absolute_url("HTTP://Example.COM").unwrap(), "http://example.com/");
    assert!(matches!(parse_absolute_url("not a url"), Err(OnvifError::InvalidUrl(_))));
}

#[test]
fn decimal_digits() {
    for n in [0u16, 7, 10, 99, 100, 2020, 8000, 65535] {
        let mut s = "port ".to_string();
        push_decimal(&mut s, n);
        assert_eq!(s, format!("port {n}"));
    }
}

#[test]
fn text_equality() {
    assert!(text_eq("XAddr", "XAddr"));
    assert!(!text_eq("XAddr", "xaddr"));
    assert!(!text_eq("XAddr", "XAdd"));
    assert!(text_eq("", ""));
    assert!(text_eq("grüße", "grüße"));
}

#[test]
fn password_digest_of_known_inputs() {
    let nonce: Vec<u8> = (0u8..16).collect();
    let header = auth_header_with("admin", "secret", &nonce, "2024-05-01T12:30:00Z");
    assert_eq!(
        header,
        header_text(
            "admin",
            "xlNu6vDcm7gKFDuAMn/q+U1wmBs=",
            "AAECAwQFBgcICQoLDA0ODw==",
            "2024-05-01T12:30:00Z"
        )
    );
}

#[test]
fn fresh_header_carries_user_and_a_sixteen_byte_nonce() {
    let header = build_auth_header(&camera(Vendor::Tapo, "192.168.1.1", None)).unwrap();
    assert!(header.contains("<wsse:Username>admin</wsse:Username>"));
    let nonce_start = header.find("#Base64Binary\">").unwrap() + "#Base64Binary\">".len();
    let nonce_end = header[nonce_start..].find('<').unwrap() + nonce_start;
    assert_eq!(nonce_end - nonce_start, 24);
    assert!(header[nonce_end..].starts_with("</wsse:Nonce>"));
    let created_start = header.find("<wsu:Created>").unwrap() + "<wsu:Created>".len();
    let created = &header[created_start..created_start + 20];
    assert!(created.ends_with('Z'));
    assert_eq!(&created[10..11], "T");
}

#[test]
fn envelope_text() {
    assert_eq!(
        soap_envelope("HEADER", "BODY"),
        "\n            <s:Envelope xmlns:s=\"http://www.w3.org/2003/05/soap-envelope\">\n                <s:Header>HEADER</s:Header>\n                <s:Body>\n                BODY\n                </s:Body>\n            </s:Envelope>\n            "
    );
}

#[test]
fn built_envelope_wraps_body_after_header() {
    let envelope = build_soap_envelope(&camera(Vendor::Tapo, "192.168.1.1", None), "BODY".to_string()).unwrap();
    assert!(envelope.starts_with("\n            <s:Envelope xmlns:s=\"http://www.w3.org/2003/05/soap-envelope\">\n                <s:Header>\n            <wsse:Security"));
    assert!(envelope.ends_with("</s:Header>\n                <s:Body>\n                BODY\n                </s:Body>\n            </s:Envelope>\n            "));
}

#[test]
fn request_bodies() {
    assert_eq!(
        capabilities_body(),
        "\n            <tds:GetCapabilities xmlns:tds=\"http://www.onvif.org/ver10/device/wsdl\">\n                <tds:Category>All</tds:Category>\n            </tds:GetCapabilities>\n            "
    );
    assert_eq!(
        profiles_body(),
        "\n        <trt:GetProfiles xmlns:trt=\"http://www.onvif.org/ver10/media/wsdl\"/>\n        "
    );
    assert_eq!(
        ptz_stop_body("profile_1"),
        "\n        <tptz:Stop xmlns:tptz=\"http://www.onvif.org/ver20/ptz/wsdl\">\n            <tptz:ProfileToken>profile_1</tptz:ProfileToken>\n            <tptz:PanTilt>true</tptz:PanTilt>\n            <tptz:Zoom>true</tptz:Zoom>\n        </tptz:Stop>\n        "
    );
    assert_eq!(
        ptz_move_body("profile_1", "0.5", "-0.25"),
        "\n        <tptz:ContinuousMove \n            xmlns:tptz=\"http://www.onvif.org/ver20/ptz/wsdl\" \n            xmlns:tt=\"http://www.onvif.org/ver10/schema\">\n            <tptz:ProfileToken>profile_1</tptz:ProfileToken>\n            <tptz:Velocity>\n                <tt:PanTilt x=\"0.5\" y=\"-0.25\"/>\n            </tptz:Velocity>\n        </tptz:ContinuousMove>\n        "
    );
}

fn has_created_form(t: &str) -> bool {
    let b = t.as_bytes();
    b.len() == 20
        && b.iter().enumerate().all(|(i, c)| match i {
            4 | 7 => *c == b'-',
            10 => *c == b'T',
            13 | 16 => *c == b':',
            19 => *c == b'Z',
            _ => c.is_ascii_digit(),
        })
}

#[test]
fn creation_time_has_utc_form() {
    let created = utc_now_created().unwrap();
    assert!(has_created_form(&created), "{created}");
    assert!(created.as_str() >= "2024-01-01T00:00:00Z");
}

#[test]
fn header_creation_time_has_utc_form() {
    let header = build_auth_header(&camera(Vendor::Reolink, "10.0.0.2", None)).unwrap();
    let start = header.find("<wsu:Created>").unwrap() + "<wsu:Created>".len();
    let end = header.find("</wsu:Created>").unwrap();
    assert!(has_created_form(&header[start..end]));
}

#[test]
fn environment_error_messages() {
    assert_eq!(OnvifError::RandomSourceFailed.message(), "random source failed");
    assert_eq!(OnvifError::ClockUnavailable.message(), "system time before Unix epoch or out of range");
}

#[test]
fn creation_time_of_known_instants() {
    assert_eq!(creation_time(0).unwrap(), "1970-01-01T00:00:00Z");
    assert_eq!(creation_time(1714566600).unwrap(), "2024-05-01T12:30:00Z");
    assert_eq!(creation_time(253402300799).unwrap(), "9999-12-31T23:59:59Z");
    assert!(creation_time(253402300800).unwrap().starts_with('+'));
}

#[test]
fn creation_time_out_of_range() {
    assert!(matches!(creation_time(u64::MAX), Err(OnvifError::ClockUnavailable)));
    assert!(matches!(creation_time(i64::MAX as u64), Err(OnvifError::ClockUnavailable)));
}
