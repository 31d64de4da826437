//! Finding the graphics output protocol through the firmware's lookup function.

use crate::guid::{efi_graphics_output_protocol_guid, EfiGuid};
use crate::status::{EfiStatus, EFI_SUCCESS};
use vstd::prelude::*;

verus! {

/// The registration key of a lookup that takes the first match: null.
pub const NO_REGISTRATION: usize = 0;

/// The reason given when the lookup fails.
pub const LOCATE_FAILURE: &'static str = "Failed to locate graphics output protocol";

/// The firmware's dispatch record, as far as it is used: its protocol lookup
/// function.
///
/// The function takes the identifier of the protocol and a registration key,
/// and returns its status together with what it left in the slot for the
/// result: on success, the address of the protocol.
pub struct EfiBootServicesTable<F> {
    pub locate_protocol: F,
}

/// The root record that the firmware hands over at entry, as far as it is
/// used: its boot services table.
pub struct EfiSystemTable<F> {
    pub boot_services: EfiBootServicesTable<F>,
}

/// What a lookup that returned `status` and left `interface` in the slot for
/// the result amounts to: the address as it is on success, and the failure on
/// every other status.
pub open spec fn spec_locate_outcome(status: EfiStatus, interface: usize) -> Result<
    usize,
    &'static str,
> {
    if status.code == EFI_SUCCESS {
        Ok(interface)
    } else {
        Err(LOCATE_FAILURE)
    }
}

/// Turns the reply of the firmware's lookup function into the address of the
/// protocol or a failure.
///
/// The status alone decides. On success the address is handed on as it was
/// left in the slot; on failure the slot is not looked at.
pub fn locate_outcome(status: EfiStatus, interface: usize) -> (outcome: Result<
    usize,
    &'static str,
>)
    ensures
        outcome == spec_locate_outcome(status, interface),
        status.is_success() ==> outcome == Ok::<usize, &'static str>(interface),
        !status.is_success() ==> outcome == Err::<usize, &'static str>(LOCATE_FAILURE),
{
    if status.is_success() {
        Ok(interface)
    } else {
        Err(LOCATE_FAILURE)
    }
}

/// Asks the firmware for the graphics output protocol and returns its address.
///
/// The lookup function of the boot services table is called once, with the
/// identifier of the graphics output protocol and no registration key. The
/// result is the outcome of what that call returned.
pub fn locate_graphic_protocol<F>(efi_system_table: &EfiSystemTable<F>) -> (located: Result<
    usize,
    &'static str,
>) where F: Fn(EfiGuid, usize) -> (EfiStatus, usize)
    requires
        call_requires(
            efi_system_table.boot_services.locate_protocol,
            (efi_graphics_output_protocol_guid(), NO_REGISTRATION),
        ),
    ensures
        exists|status: EfiStatus, interface: usize|
            #[trigger] call_ensures(
                efi_system_table.boot_services.locate_protocol,
                (efi_graphics_output_protocol_guid(), NO_REGISTRATION),
                (status, interface),
            ) && located == spec_locate_outcome(status, interface),
{
    let (status, interface) = (efi_system_table.boot_services.locate_protocol)(
        efi_graphics_output_protocol_guid(),
        NO_REGISTRATION,
    );
    locate_outcome(status, interface)
}

/// A failed lookup gives the same failure whatever the slot for the result
/// holds: the slot is not read unless the status says that it was filled.
pub proof fn lemma_failure_ignores_the_slot(status: EfiStatus, interface: usize, other: usize)
    requires
        !status.is_success(),
    ensures
        spec_locate_outcome(status, interface) == spec_locate_outcome(status, other),
        spec_locate_outcome(status, interface) is Err,
{
}

/// A lookup that succeeded gives the address from the slot, unchanged, and so
/// two lookups that succeeded give the same address only if they left the same
/// address in the slot.
pub proof fn lemma_success_hands_on_the_slot(status: EfiStatus, interface: usize, other: usize)
    requires
        status.is_success(),
    ensures
        spec_locate_outcome(status, interface) == Ok::<usize, &'static str>(interface),
        spec_locate_outcome(status, interface) == spec_locate_outcome(status, other)
            ==> interface == other,
{
}

} // verus!
