//! ACPI: locating and validating the root system description tables.

pub mod rsdp;
pub mod sdt;

use vstd::prelude::*;
use crate::checksum::checksum_valid;
use self::rsdp::{get_rsdp, rsdp_image, rsdp_image_readable, rsdp_read_from, RSDP};

verus! {

/// Brings up ACPI: obtains the root pointer that the boot loader reported
/// (`response` is the image of the memory at the address it gave). The
/// pointer must be present and valid; the root table itself is not mapped
/// yet, so the work stops at the pointer, which is returned.
pub fn init(response: Option<&[u8]>) -> (p: RSDP)
    requires
        response matches Some(b) && rsdp_image_readable(b@) && checksum_valid(rsdp_image(b@)),
    ensures
        response matches Some(b) && rsdp_read_from(b@, p),
{
    get_rsdp(response).unwrap()
}

} // verus!
