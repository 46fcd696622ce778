//! Identification of the DualSense controller among input devices.

use vstd::prelude::*;

verus! {

/// Sony's USB vendor ID.
pub const DUALSENSE_VENDOR_ID: u16 = 0x054c;

/// The DualSense product ID, wired and over Bluetooth.
pub const DUALSENSE_PRODUCT_ID: u16 = 0x0ce6;

/// Whether a device with these IDs is a DualSense controller.
pub fn is_dualsense(vendor: u16, product: u16) -> (r: bool)
    ensures
        r == (vendor == DUALSENSE_VENDOR_ID && product == DUALSENSE_PRODUCT_ID),
{
    vendor == DUALSENSE_VENDOR_ID && product == DUALSENSE_PRODUCT_ID
}

} // verus!
