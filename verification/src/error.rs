use vstd::prelude::*;

verus! {

/// Errors that the driver logic reports.
#[derive(Debug)]
pub enum DriverError {
    /// A configuration value is out of the range the device accepts.
    InvalidConfig(String),
    /// A report read from the device does not have the expected shape.
    InvalidReport(String),
    /// No supported mouse was found among the connected devices.
    DeviceNotFound,
}

/// The result type of the driver logic.
pub type Result<T> = core::result::Result<T, DriverError>;

/// The text that describes an error to a user.
pub open spec fn error_text(e: DriverError) -> Seq<char> {
    match e {
        DriverError::InvalidConfig(m) => "invalid configuration: "@ + m@,
        DriverError::InvalidReport(m) => "invalid mouse report: "@ + m@,
        DriverError::DeviceNotFound => "no supported Attack Shark mouse was found"@,
    }
}

/// `e` is an `InvalidConfig` error whose message is `m`.
pub open spec fn is_config_error(e: DriverError, m: Seq<char>) -> bool {
    e matches DriverError::InvalidConfig(s) && s@ == m
}

/// `e` is an `InvalidReport` error whose message is `m`.
pub open spec fn is_report_error(e: DriverError, m: Seq<char>) -> bool {
    e matches DriverError::InvalidReport(s) && s@ == m
}

impl DriverError {
    /// The text that describes this error to a user.
    pub fn message(&self) -> (s: String)
        ensures
            s@ == error_text(*self),
    {
        match self {
            DriverError::InvalidConfig(m) => {
                let mut s = String::from_str("invalid configuration: ");
                s.append(m.as_str());
                s
            },
            DriverError::InvalidReport(m) => {
                let mut s = String::from_str("invalid mouse report: ");
                s.append(m.as_str());
                s
            },
            DriverError::DeviceNotFound => String::from_str("no supported Attack Shark mouse was found"),
        }
    }
}

} // verus!
