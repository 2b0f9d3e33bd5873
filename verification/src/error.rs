//! The library's error type.

use vstd::prelude::*;
use vstd::string::StringExecFns;

verus! {

/// The library's error type.  Every variant is recoverable at the
/// dispatch boundary: callers report it and carry on.
#[derive(Debug, Clone, PartialEq)]
pub enum Error {
    String(String),
    InvalidRootPath,
    InvalidPath,
    FoundNoDevices,
    FailedReadDevicesList,
    DeviceNotFound(String),
    ActiveDeviceNotFound,
}

impl Error {
    /// The human-readable message for this error.
    pub open spec fn spec_message(&self) -> Seq<char> {
        match self {
            Error::String(s) => s@,
            Error::InvalidRootPath => "Couldn't get the directory of the root path"@,
            Error::InvalidPath => "The path contains invalid UTF-8 characters"@,
            Error::FoundNoDevices => "No audio devices set"@,
            Error::FailedReadDevicesList => "Failed to get devices list"@,
            Error::DeviceNotFound(n) => "Found no audio device named as '"@ + n@ + "'"@,
            Error::ActiveDeviceNotFound => "Found no active audio device"@,
        }
    }

    /// Renders the error's message as a plain string.
    pub fn message(&self) -> (r: String)
        ensures
            r@ == self.spec_message(),
    {
        match self {
            Error::String(s) => s.clone(),
            Error::InvalidRootPath => "Couldn't get the directory of the root path".to_owned(),
            Error::InvalidPath => "The path contains invalid UTF-8 characters".to_owned(),
            Error::FoundNoDevices => "No audio devices set".to_owned(),
            Error::FailedReadDevicesList => "Failed to get devices list".to_owned(),
            Error::DeviceNotFound(n) => {
                let mut m = "Found no audio device named as '".to_owned();
                m.append(n.as_str());
                m.append("'");
                m
            },
            Error::ActiveDeviceNotFound => "Found no active audio device".to_owned(),
        }
    }
}

} // verus!
