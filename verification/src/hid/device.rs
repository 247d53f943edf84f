//! Recognising an X52/X52 Pro among the HID devices of the system

use vstd::prelude::*;

use crate::device::{variant_of_product, DeviceVariant, PRODUCT_IDS, VENDOR_SAITEK};

verus! {

/// HID usage page of the joystick interface (generic desktop)
pub const USAGE_PAGE: u16 = 0x0001;

/// HID usage of the joystick interface (joystick)
pub const USAGE_ID: u16 = 0x0004;

/// Whether a HID device with the given identification matches the given
/// usage page, usage, vendor and product: all four agree.
pub open spec fn spec_device_matches(
    usage_page: u16,
    usage_id: u16,
    vendor_id: u16,
    product_id: u16,
    want_usage_page: u16,
    want_usage_id: u16,
    want_vendor_id: u16,
    want_product_id: u16,
) -> bool {
    usage_page == want_usage_page && usage_id == want_usage_id && vendor_id == want_vendor_id
        && product_id == want_product_id
}

/// The variant of an X52 joystick interface with the given identification,
/// or `None` for any other HID device.
pub open spec fn spec_match_device(
    usage_page: u16,
    usage_id: u16,
    vendor_id: u16,
    product_id: u16,
) -> Option<DeviceVariant> {
    if usage_page == USAGE_PAGE && usage_id == USAGE_ID && vendor_id == VENDOR_SAITEK {
        variant_of_product(product_id)
    } else {
        None
    }
}

/// The test that a HID backend's device description offers for finding a
/// device: usage page, usage, vendor and product all agree.
pub fn device_matches(
    usage_page: u16,
    usage_id: u16,
    vendor_id: u16,
    product_id: u16,
    want_usage_page: u16,
    want_usage_id: u16,
    want_vendor_id: u16,
    want_product_id: u16,
) -> (r: bool)
    ensures
        r == spec_device_matches(
            usage_page,
            usage_id,
            vendor_id,
            product_id,
            want_usage_page,
            want_usage_id,
            want_vendor_id,
            want_product_id,
        ),
{
    usage_page == want_usage_page && usage_id == want_usage_id && vendor_id == want_vendor_id
        && product_id == want_product_id
}

/// The variant of the HID device with the given identification, found as
/// the first supported product id that the device matches.
pub fn match_device(usage_page: u16, usage_id: u16, vendor_id: u16, product_id: u16) -> (r: Option<
    DeviceVariant,
>)
    ensures
        r == spec_match_device(usage_page, usage_id, vendor_id, product_id),
{
    let mut i: usize = 0;
    while i < 3
        invariant
            i <= 3,
            forall|j: int|
                0 <= j < i ==> !spec_device_matches(
                    usage_page,
                    usage_id,
                    vendor_id,
                    product_id,
                    USAGE_PAGE,
                    USAGE_ID,
                    VENDOR_SAITEK,
                    #[trigger] PRODUCT_IDS@[j],
                ),
        decreases 3 - i,
    {
        let pid = PRODUCT_IDS[i];
        if device_matches(usage_page, usage_id, vendor_id, product_id, USAGE_PAGE, USAGE_ID, VENDOR_SAITEK, pid) {
            return DeviceVariant::from_product_id(pid);
        }
        i = i + 1;
    }
    assert(PRODUCT_IDS@[0] == 0x0762u16 && PRODUCT_IDS@[1] == 0x0255u16 && PRODUCT_IDS@[2]
        == 0x075Cu16);
    None
}

/// Only the joystick interface of a Saitek device is matched: usage page 1
/// (generic desktop), usage 4 (joystick), vendor 0x06a3, and one of the
/// three supported product ids.
pub proof fn lemma_matched_devices(usage_page: u16, usage_id: u16, vendor_id: u16, product_id: u16)
    ensures
        spec_match_device(usage_page, usage_id, vendor_id, product_id) is Some <==> (usage_page == 1
            && usage_id == 4 && vendor_id == 0x06a3 && (product_id == 0x0762 || product_id == 0x0255
            || product_id == 0x075C)),
{
}

} // verus!
