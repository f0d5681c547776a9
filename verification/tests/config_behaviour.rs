use rioting::config::{CameraConfig, Config, Vendor};

fn camera(vendor: Vendor, name: &str, onvif_port: Option<u16>) -> CameraConfig {
    CameraConfig::new(
        vendor,
        name.to_string(),
        "192.168.1.1".to_string(),
        "admin".to_string(),
        "secret".to_string(),
        onvif_port,
    )
}

#[test]
fn tapo_defaults() {
    assert_eq!(Vendor::Tapo.default_onvif_port(), 2020);
    assert_eq!(Vendor::Tapo.rtsp_path(), "stream1");
}

#[test]
fn reolink_defaults() {
    assert_eq!(Vendor::Reolink.default_onvif_port(), 8000);
    assert_eq!(Vendor::Reolink.rtsp_path(), "h264Preview_01_main");
}

#[test]
fn onvif_port_falls_back_to_vendor_default() {
    assert_eq!(camera(Vendor::Tapo, "front-door", None).onvif_port(), 2020);
    assert_eq!(camera(Vendor::Reolink, "garden", None).onvif_port(), 8000);
}

#[test]
fn configured_onvif_port_wins() {
    assert_eq!(camera(Vendor::Tapo, "front-door", Some(8899)).onvif_port(), 8899);
    assert_eq!(camera(Vendor::Reolink, "garden", Some(0)).onvif_port(), 0);
}

#[test]
fn new_keeps_every_field() {
    let c = camera(Vendor::Reolink, "garden", Some(80));
    assert_eq!(c.vendor, Vendor::Reolink);
    assert_eq!(c.name, "garden");
    assert_eq!(c.ip, "192.168.1.1");
    assert_eq!(c.user, "admin");
    assert_eq!(c.password, "secret");
    assert_eq!(c.onvif_port, Some(80));
}

#[test]
fn camera_names_keep_configuration_order() {
    let config = Config {
        cameras: vec![
            camera(Vendor::Tapo, "front-door", None),
            camera(Vendor::Reolink, "garden", None),
            camera(Vendor::Tapo, "dining-area", None),
        ],
        server_port: "3000".to_string(),
    };
    assert_eq!(config.camera_names(), vec!["front-door", "garden", "dining-area"]);
}

#[test]
fn camera_names_of_empty_config() {
    let config = Config { cameras: vec![], server_port: "3000".to_string() };
    assert!(config.camera_names().is_empty());
}
