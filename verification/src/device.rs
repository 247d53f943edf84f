//! Device identification and variant detection

use vstd::prelude::*;

verus! {

/// Saitek vendor ID
pub const VENDOR_SAITEK: u16 = 0x06a3;

/// X52 Pro product ID
pub const PRODUCT_X52_PRO: u16 = 0x0762;

/// X52 (v1) product ID
pub const PRODUCT_X52_1: u16 = 0x0255;

/// X52 (v2) product ID
pub const PRODUCT_X52_2: u16 = 0x075C;

/// All supported product IDs
pub const PRODUCT_IDS: [u16; 3] = [PRODUCT_X52_PRO, PRODUCT_X52_1, PRODUCT_X52_2];

/// Device variant
#[derive(Debug, Clone, Copy, PartialEq, Eq, Structural, Hash)]
pub enum DeviceVariant {
    /// X52 Pro - Full LED control
    X52Pro,
    /// X52 (first model, both revisions) - No LED control
    X52,
}

/// The variant that a product id stands for, if it is one of the supported ones.
pub open spec fn variant_of_product(pid: u16) -> Option<DeviceVariant> {
    if pid == PRODUCT_X52_PRO {
        Some(DeviceVariant::X52Pro)
    } else if pid == PRODUCT_X52_1 || pid == PRODUCT_X52_2 {
        Some(DeviceVariant::X52)
    } else {
        None
    }
}

/// The human-readable name of a variant.
pub open spec fn variant_name(v: DeviceVariant) -> Seq<char> {
    match v {
        DeviceVariant::X52Pro => "X52 Pro"@,
        DeviceVariant::X52 => "X52"@,
    }
}

impl DeviceVariant {
    /// Detect device variant from product ID
    pub fn from_product_id(pid: u16) -> (r: Option<Self>)
        ensures
            r == variant_of_product(pid),
    {
        if pid == PRODUCT_X52_PRO {
            Some(Self::X52Pro)
        } else if pid == PRODUCT_X52_1 || pid == PRODUCT_X52_2 {
            Some(Self::X52)
        } else {
            None
        }
    }

    /// Check if this device supports LED control
    pub fn supports_led_control(&self) -> (r: bool)
        ensures
            r == (*self == DeviceVariant::X52Pro),
    {
        matches!(self, Self::X52Pro)
    }

    /// Get device name
    pub fn name(&self) -> (r: &'static str)
        ensures
            r@ == variant_name(*self),
    {
        match self {
            Self::X52Pro => "X52 Pro",
            Self::X52 => "X52",
        }
    }
}

/// A product id is recognised exactly when it is one of [`PRODUCT_IDS`].
pub proof fn lemma_recognised_products(pid: u16)
    ensures
        variant_of_product(pid) is Some <==> PRODUCT_IDS@.contains(pid),
{
    if PRODUCT_IDS@.contains(pid) {
        let i = choose|i: int| 0 <= i < 3 && PRODUCT_IDS@[i] == pid;
        assert(i == 0 || i == 1 || i == 2);
    }
    if variant_of_product(pid) is Some {
        if pid == PRODUCT_X52_PRO {
            assert(PRODUCT_IDS@[0] == pid);
        } else if pid == PRODUCT_X52_1 {
            assert(PRODUCT_IDS@[1] == pid);
        } else {
            assert(PRODUCT_IDS@[2] == pid);
        }
    }
}

/// The products by number: 0x0762 is the X52 Pro, 0x0255 and 0x075C are the
/// two revisions of the X52, and no other product id is recognised; only
/// the X52 Pro drives its LEDs in color.
pub proof fn lemma_product_ids(pid: u16)
    ensures
        variant_of_product(pid) == Some(DeviceVariant::X52Pro) <==> pid == 0x0762,
        variant_of_product(pid) == Some(DeviceVariant::X52) <==> (pid == 0x0255 || pid == 0x075C),
        variant_of_product(pid) is None <==> !(pid == 0x0762 || pid == 0x0255 || pid == 0x075C),
        VENDOR_SAITEK == 0x06a3,
{
}

} // verus!
