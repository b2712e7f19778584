//! Verified core of a small x86_64 hobby kernel and its boot helper:
//! ACPI root-table parsing and checksum validation, heap page planning,
//! log-line formatting and the build profile of the boot helper.

pub mod checksum;
pub mod bytes;
pub mod acpi;
pub mod memory;
pub mod booter;
pub mod logger;
