//! The tables that the kernel looks up through the root table.

use vstd::prelude::*;

verus! {

/// The system description tables found through the root table, each by the
/// physical address of its header.
#[derive(Debug, Clone, Copy, PartialEq, Eq)]
pub struct TablesManager {
    /// Fixed ACPI Description Table (signature "FACP").
    pub fadt: Option<u64>,
    /// Multiple APIC Description Table (signature "APIC").
    pub apic: Option<u64>,
}

impl Default for TablesManager {
    /// No table found yet.
    fn default() -> (m: TablesManager)
        ensures
            m.fadt is None,
            m.apic is None,
    {
        TablesManager { fadt: None, apic: None }
    }
}

} // verus!
