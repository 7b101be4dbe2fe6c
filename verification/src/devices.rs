//! What the library knows about Z-Wave USB dongles.
//!
//! Enumerating serial ports and probing the filesystem happen outside
//! the library; the decision of whether an enumerated port is a known
//! Z-Wave dongle, and the fallback list of device paths to probe, are
//! plain values and live here.

use vstd::prelude::*;

verus! {

/// Whether a USB vendor and product id pair names a known Z-Wave
/// dongle, as contracts see it: the Aeotec Z-Stick Gen-5, the UZB1, or
/// the Aeotec Z-Stick S2.
pub open spec fn spec_is_usb_zwave_device(vid: u16, pid: u16) -> bool {
    ||| (vid == 0x0658 && pid == 0x0200)
    ||| (vid == 0x0658 && pid == 0x0280)
    ||| (vid == 0x10c4 && pid == 0xea60)
}

/// Whether a USB vendor and product id pair names a known Z-Wave dongle.
pub fn is_usb_zwave_device(vid: u16, pid: u16) -> (r: bool)
    ensures
        r == spec_is_usb_zwave_device(vid, pid),
{
    (vid == 0x0658 && (pid == 0x0200 || pid == 0x0280)) || (vid == 0x10c4 && pid == 0xea60)
}

/// The device paths probed when no known dongle shows up among the
/// enumerated ports, in probe order.
pub fn default_device_candidates() -> (r: Vec<&'static str>)
    ensures
        r@.len() == 6,
        r@[0]@ == "/dev/cu.usbserial"@,
        r@[1]@ == "/dev/cu.SLAB_USBtoUART"@,
        r@[2]@ == "/dev/cu.usbmodem14211"@,
        r@[3]@ == "/dev/cu.usbmodem1421"@,
        r@[4]@ == "/dev/ttyUSB0"@,
        r@[5]@ == "/dev/ttyACM0"@,
{
    let mut r: Vec<&'static str> = Vec::new();
    r.push("/dev/cu.usbserial");
    r.push("/dev/cu.SLAB_USBtoUART");
    r.push("/dev/cu.usbmodem14211");
    r.push("/dev/cu.usbmodem1421");
    r.push("/dev/ttyUSB0");
    r.push("/dev/ttyACM0");
    r
}

} // verus!
