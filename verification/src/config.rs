use vstd::prelude::*;

verus! {

/// The camera makes that the system knows how to talk to.
#[derive(Clone, Copy, Debug, PartialEq, Eq, Structural)]
pub enum Vendor {
    Tapo,
    Reolink,
}

impl Vendor {
    /// The ONVIF port a camera of this vendor listens on out of the box.
    pub open spec fn spec_default_onvif_port(self) -> u16 {
        match self {
            Vendor::Tapo => 2020,
            Vendor::Reolink => 8000,
        }
    }

    /// The RTSP path of the main stream on a camera of this vendor.
    pub open spec fn spec_rtsp_path(self) -> Seq<char> {
        match self {
            Vendor::Tapo => "stream1"@,
            Vendor::Reolink => "h264Preview_01_main"@,
        }
    }

    pub fn default_onvif_port(&self) -> (port: u16)
        ensures
            port == self.spec_default_onvif_port(),
    {
        match self {
            Vendor::Tapo => 2020,
            Vendor::Reolink => 8000,
        }
    }

    pub fn rtsp_path(&self) -> (path: &str)
        ensures
            path@ == self.spec_rtsp_path(),
    {
        match self {
            Vendor::Tapo => "stream1",
            Vendor::Reolink => "h264Preview_01_main",
        }
    }
}

/// One camera entry of the configuration file.
#[derive(Clone, Debug)]
pub struct CameraConfig {
    pub vendor: Vendor,
    pub name: String,
    pub ip: String,
    pub user: String,
    pub password: String,
    pub onvif_port: Option<u16>,
}

impl CameraConfig {
    /// The ONVIF port that is used for this camera: the configured one, or
    /// else the vendor's default.
    pub open spec fn spec_onvif_port(&self) -> u16 {
        match self.onvif_port {
            Some(port) => port,
            None => self.vendor.spec_default_onvif_port(),
        }
    }

    pub fn new(
        vendor: Vendor,
        name: String,
        ip: String,
        user: String,
        password: String,
        onvif_port: Option<u16>,
    ) -> (config: CameraConfig)
        ensures
            config.vendor == vendor,
            config.name == name,
            config.ip == ip,
            config.user == user,
            config.password == password,
            config.onvif_port == onvif_port,
    {
        CameraConfig { vendor, name, ip, user, password, onvif_port }
    }

    pub fn onvif_port(&self) -> (port: u16)
        ensures
            port == self.spec_onvif_port(),
            self.onvif_port matches Some(p) ==> port == p,
            self.onvif_port is None ==> port == self.vendor.spec_default_onvif_port(),
    {
        match self.onvif_port {
            Some(port) => port,
            None => self.vendor.default_onvif_port(),
        }
    }
}

/// The whole configuration file: the cameras and the port the web server
/// listens on.
#[derive(Clone, Debug)]
pub struct Config {
    pub cameras: Vec<CameraConfig>,
    pub server_port: String,
}

impl Config {
    /// The names of the configured cameras, in the order of the configuration.
    pub fn camera_names(&self) -> (names: Vec<String>)
        ensures
            names@.len() == self.cameras@.len(),
            forall|i: int| 0 <= i < names@.len() ==> #[trigger] names@[i]@ == self.cameras@[i].name@,
    {
        let mut names: Vec<String> = Vec::new();
        let n = self.cameras.len();
        for i in 0..n
            invariant
                n == self.cameras@.len(),
                names@.len() == i,
                forall|j: int| 0 <= j < i ==> #[trigger] names@[j]@ == self.cameras@[j].name@,
        {
            names.push(self.cameras[i].name.clone());
        }
        names
    }
}

} // verus!
