//! Service identifiers.

use vstd::prelude::*;

verus! {

/// A 128-bit value that names a kind of firmware service.
#[derive(Clone, Copy, PartialEq, Eq, Debug)]
pub struct EfiGuid {
    pub data0: u32,
    pub data1: u16,
    pub data2: u16,
    pub data3: [u8; 8],
}

/// The identifier of the graphics output protocol,
/// `9042a9de-23dc-4a38-96fb-7aded080516a`.
pub open spec fn spec_efi_graphics_output_protocol_guid() -> EfiGuid {
    EfiGuid {
        data0: 0x9042a9de,
        data1: 0x23dc,
        data2: 0x4a38,
        data3: [0x96, 0xfb, 0x7a, 0xde, 0xd0, 0x80, 0x51, 0x6a],
    }
}

/// The identifier of the graphics output protocol.
#[verifier::when_used_as_spec(spec_efi_graphics_output_protocol_guid)]
pub fn efi_graphics_output_protocol_guid() -> (guid: EfiGuid)
    ensures
        guid == spec_efi_graphics_output_protocol_guid(),
{
    EfiGuid {
        data0: 0x9042a9de,
        data1: 0x23dc,
        data2: 0x4a38,
        data3: [0x96, 0xfb, 0x7a, 0xde, 0xd0, 0x80, 0x51, 0x6a],
    }
}

} // verus!
