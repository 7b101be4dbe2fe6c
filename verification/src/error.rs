//! The errors that setting the network up can end in.
//!
//! Causes that arise outside the library (a driver failure, an
//! unreadable device file, a failed file watch) arrive here already
//! rendered to text; the variants keep them apart and carry enough to
//! report.

use vstd::prelude::*;

verus! {

/// Why initialization, or a forwarded driver command, failed.
#[derive(Clone, Debug, PartialEq)]
pub enum Error {
    /// The underlying driver reported a failure, rendered to text.
    OpenzwaveError(String),
    /// No suitable device was found to attach a driver to.
    NoDeviceFound,
    /// A device file exists but cannot be read: the device path, then
    /// the cause.
    CannotReadDevice(String, String),
    /// The watch on a device file could not be established.
    FsNotifyError(String),
}

impl Error {
    /// The fixed description of this error's variant, as contracts see
    /// it.
    pub open spec fn spec_description(self) -> Seq<char> {
        match self {
            Error::OpenzwaveError(_) => "Error in the underlying driver"@,
            Error::NoDeviceFound => "No suitable device was found"@,
            Error::CannotReadDevice(_, _) => "Couldn't read the device"@,
            Error::FsNotifyError(_) => "Could not watch the device file"@,
        }
    }

    /// The fixed description of this error's variant.
    pub fn description(&self) -> (r: &'static str)
        ensures
            r@ == self.spec_description(),
    {
        match self {
            Error::OpenzwaveError(_) => "Error in the underlying driver",
            Error::NoDeviceFound => "No suitable device was found",
            Error::CannotReadDevice(_, _) => "Couldn't read the device",
            Error::FsNotifyError(_) => "Could not watch the device file",
        }
    }

    /// The full rendering of this error, as contracts see it: the
    /// description, then whatever cause the variant carries.
    pub open spec fn spec_text(self) -> Seq<char> {
        match self {
            Error::OpenzwaveError(cause) => "Error in the underlying driver: "@ + cause@,
            Error::NoDeviceFound => "No suitable device was found"@,
            Error::CannotReadDevice(device, cause) => "The device "@ + device@
                + " is not readable: "@ + cause@,
            Error::FsNotifyError(cause) => "Could not watch the device file: "@ + cause@,
        }
    }

    /// Render this error for reporting.
    pub fn describe(&self) -> (r: String)
        ensures
            r@ == self.spec_text(),
    {
        match self {
            Error::OpenzwaveError(cause) => {
                let mut out = "Error in the underlying driver: ".to_owned();
                out.append(cause.as_str());
                out
            },
            Error::NoDeviceFound => "No suitable device was found".to_owned(),
            Error::CannotReadDevice(device, cause) => {
                let mut out = "The device ".to_owned();
                out.append(device.as_str());
                out.append(" is not readable: ");
                out.append(cause.as_str());
                proof {
                    assert(out@ =~= self.spec_text());
                }
                out
            },
            Error::FsNotifyError(cause) => {
                let mut out = "Could not watch the device file: ".to_owned();
                out.append(cause.as_str());
                out
            },
        }
    }
}

} // verus!
