use vstd::prelude::*;

verus! {

/// Why talking to a camera failed.
#[derive(Debug)]
pub enum OnvifError {
    /// A URL could not be parsed; the parser's message.
    InvalidUrl(String),
    /// A response was not well-formed XML; the parser's message.
    InvalidXml(String),
    /// The capabilities named no address for the service.
    MissingXAddr(String),
    /// The media profiles carried no token.
    MissingProfileToken,
    /// The camera answered with a SOAP fault; its reason.
    SoapFault(String),
    /// The operating system's random source failed.
    RandomSourceFailed,
    /// The system clock reads before the Unix epoch or beyond the dates
    /// that can be written.
    ClockUnavailable,
}

pub const MISSING_XADDR_PREFIX: &'static str = "No XAddr found for service: ";
pub const MISSING_PROFILE_TOKEN: &'static str = "No profile token found";
pub const SOAP_FAULT_PREFIX: &'static str = "SOAP fault: ";
pub const RANDOM_SOURCE_FAILED: &'static str = "random source failed";
pub const CLOCK_UNAVAILABLE: &'static str = "system time before Unix epoch or out of range";

impl OnvifError {
    /// The message shown for the error.
    pub open spec fn spec_message(&self) -> Seq<char> {
        match self {
            OnvifError::InvalidUrl(m) => m@,
            OnvifError::InvalidXml(m) => m@,
            OnvifError::MissingXAddr(service) => MISSING_XADDR_PREFIX@ + service@,
            OnvifError::MissingProfileToken => MISSING_PROFILE_TOKEN@,
            OnvifError::SoapFault(reason) => SOAP_FAULT_PREFIX@ + reason@,
            OnvifError::RandomSourceFailed => RANDOM_SOURCE_FAILED@,
            OnvifError::ClockUnavailable => CLOCK_UNAVAILABLE@,
        }
    }

    pub fn message(&self) -> (text: String)
        ensures
            text@ == self.spec_message(),
    {
        match self {
            OnvifError::InvalidUrl(m) => m.clone(),
            OnvifError::InvalidXml(m) => m.clone(),
            OnvifError::MissingXAddr(service) => {
                let mut text = String::from_str(MISSING_XADDR_PREFIX);
                text.append(service.as_str());
                text
            },
            OnvifError::MissingProfileToken => String::from_str(MISSING_PROFILE_TOKEN),
            OnvifError::SoapFault(reason) => {
                let mut text = String::from_str(SOAP_FAULT_PREFIX);
                text.append(reason.as_str());
                text
            },
            OnvifError::RandomSourceFailed => String::from_str(RANDOM_SOURCE_FAILED),
            OnvifError::ClockUnavailable => String::from_str(CLOCK_UNAVAILABLE),
        }
    }
}

} // verus!
