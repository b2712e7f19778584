//! The root system description table (RSDT) and its extended form (XSDT).

use vstd::prelude::*;
use vstd::bytes::{spec_u32_from_le_bytes, spec_u64_from_le_bytes, u32_from_le_bytes, u64_from_le_bytes};
use crate::acpi::rsdp::RSDP;
use crate::bytes::copy_array;
use crate::checksum::checksum_valid;
use super::{ACPISDTHeader, SDT_HEADER_LEN};

verus! {

/// Why the root table could not be used.
#[derive(Debug, Clone, Copy, PartialEq, Eq)]
pub enum RSDTError {
    /// The header of the root table does not carry a valid checksum.
    InvalidChecksum,
}

/// The ACPI 1.0 root table: a header followed by 32-bit table addresses.
#[derive(Debug, Clone, Copy, PartialEq, Eq)]
pub struct RawRSDT {
    pub sdt: ACPISDTHeader,
}

/// The extended root table: a header followed by 64-bit table addresses.
#[derive(Debug, Clone, Copy, PartialEq, Eq)]
pub struct RawXSDT {
    pub sdt: ACPISDTHeader,
}

/// A root table whose header checksum has been validated.
#[derive(Debug, Clone, Copy, PartialEq, Eq)]
pub enum RSDT {
    RSDT(RawRSDT),
    XSDT(RawXSDT),
}

impl RSDT {
    /// The header of the root table.
    pub open spec fn header(self) -> ACPISDTHeader {
        match self {
            RSDT::RSDT(r) => r.sdt,
            RSDT::XSDT(x) => x.sdt,
        }
    }
}

/// Number of entries of `entry_size` bytes that follow the header of a table
/// of `len` bytes.
pub open spec fn entry_count(len: u32, entry_size: nat) -> nat {
    ((len - SDT_HEADER_LEN) / (entry_size as int)) as nat
}

/// The 32-bit entries that follow the header in the table image `table`.
pub open spec fn rsdt_entries(table: Seq<u8>, count: nat) -> Seq<u32> {
    Seq::new(
        count,
        |i: int|
            spec_u32_from_le_bytes(
                table.subrange(SDT_HEADER_LEN + 4 * i, SDT_HEADER_LEN + 4 * i + 4),
            ),
    )
}

/// The 64-bit entries that follow the header in the table image `table`.
pub open spec fn xsdt_entries(table: Seq<u8>, count: nat) -> Seq<u64> {
    Seq::new(
        count,
        |i: int|
            spec_u64_from_le_bytes(
                table.subrange(SDT_HEADER_LEN + 8 * i, SDT_HEADER_LEN + 8 * i + 8),
            ),
    )
}

/// Validates the root table that `rsdp` designates. `table` is the image of
/// the memory at `rsdp.addr()`. The root table takes the form of the
/// pointer: an RSDT for an ACPI 1.0 pointer, an XSDT for an extended one.
pub fn get_rsdt(rsdp: RSDP, table: &[u8]) -> (r: Result<RSDT, RSDTError>)
    requires
        table@.len() >= SDT_HEADER_LEN,
    ensures
        r is Ok <==> checksum_valid(table@.subrange(0, SDT_HEADER_LEN as int)),
        r is Err ==> r == Err::<RSDT, RSDTError>(RSDTError::InvalidChecksum),
        r matches Ok(t) ==> {
            &&& t.header()@ == table@.subrange(0, SDT_HEADER_LEN as int)
            &&& (t is XSDT <==> rsdp is XSDP)
            &&& t.header().sig@ == table@.subrange(0, 4)
            &&& t.header().len == spec_u32_from_le_bytes(table@.subrange(4, 8))
            &&& t.header().revision == table@[8]
            &&& t.header().chcksum == table@[9]
            &&& t.header().oem_id@ == table@.subrange(10, 16)
            &&& t.header().oem_table_id@ == table@.subrange(16, 24)
            &&& t.header().oem_revision == spec_u32_from_le_bytes(table@.subrange(24, 28))
            &&& t.header().creator_id == spec_u32_from_le_bytes(table@.subrange(28, 32))
            &&& t.header().creator_revision == spec_u32_from_le_bytes(
                table@.subrange(32, 36),
            )
        },
{
    match rsdp {
        RSDP::RSDP(_) => {
            let raw_rsdt = RawRSDT { sdt: ACPISDTHeader::from_bytes(table) };
            if raw_rsdt.sdt.validate_chcksum() == false {
                return Err(RSDTError::InvalidChecksum);
            }
            Ok(RSDT::RSDT(raw_rsdt))
        },
        RSDP::XSDP(_) => {
            let raw_xsdt = RawXSDT { sdt: ACPISDTHeader::from_bytes(table) };
            if raw_xsdt.sdt.validate_chcksum() == false {
                return Err(RSDTError::InvalidChecksum);
            }
            Ok(RSDT::XSDT(raw_xsdt))
        },
    }
}

impl RawRSDT {
    /// The 32-bit addresses of the other tables, read from `table`, the
    /// image of the whole root table (header included).
    pub fn other_sdt(&self, table: &[u8]) -> (entries: Vec<u32>)
        requires
            self.sdt.len >= SDT_HEADER_LEN,
            table@.len() >= self.sdt.len,
        ensures
            entries@ == rsdt_entries(table@, entry_count(self.sdt.len, 4)),
            entries@.len() == (self.sdt.len - 36) / 4,
            forall|i: int|
                0 <= i < entries@.len() ==> #[trigger] entries@[i] == spec_u32_from_le_bytes(
                    table@.subrange(36 + 4 * i, 40 + 4 * i),
                ),
    {
        let count: usize = (self.sdt.len as usize - SDT_HEADER_LEN) / 4;
        let mut entries: Vec<u32> = Vec::new();
        let mut i: usize = 0;
        while i < count
            invariant
                count == entry_count(self.sdt.len, 4),
                table@.len() >= self.sdt.len >= SDT_HEADER_LEN,
                i <= count,
                entries@ == rsdt_entries(table@, i as nat),
            decreases count - i,
        {
            let off: usize = SDT_HEADER_LEN + 4 * i;
            let bytes = copy_array::<4>(table, off);
            let e = u32_from_le_bytes(bytes.as_slice());
            entries.push(e);
            i = i + 1;
            assert(entries@ =~= rsdt_entries(table@, i as nat));
        }
        entries
    }
}

impl RawXSDT {
    /// The 64-bit addresses of the other tables, read from `table`, the
    /// image of the whole root table (header included).
    pub fn other_sdt(&self, table: &[u8]) -> (entries: Vec<u64>)
        requires
            self.sdt.len >= SDT_HEADER_LEN,
            table@.len() >= self.sdt.len,
        ensures
            entries@ == xsdt_entries(table@, entry_count(self.sdt.len, 8)),
            entries@.len() == (self.sdt.len - 36) / 8,
            forall|i: int|
                0 <= i < entries@.len() ==> #[trigger] entries@[i] == spec_u64_from_le_bytes(
                    table@.subrange(36 + 8 * i, 44 + 8 * i),
                ),
    {
        let count: usize = (self.sdt.len as usize - SDT_HEADER_LEN) / 8;
        let mut entries: Vec<u64> = Vec::new();
        let mut i: usize = 0;
        while i < count
            invariant
                count == entry_count(self.sdt.len, 8),
                table@.len() >= self.sdt.len >= SDT_HEADER_LEN,
                i <= count,
                entries@ == xsdt_entries(table@, i as nat),
            decreases count - i,
        {
            let off: usize = SDT_HEADER_LEN + 8 * i;
            let bytes = copy_array::<8>(table, off);
            let e = u64_from_le_bytes(bytes.as_slice());
            entries.push(e);
            i = i + 1;
            assert(entries@ =~= xsdt_entries(table@, i as nat));
        }
        entries
    }
}

/// The entries of a root table of length `len` are all the 4-byte slots
/// after the 36-byte header: `(len - 36) / 4` of them, entry `i` being the
/// little-endian number at offset `36 + 4 * i`.
pub proof fn lemma_rsdt_entries_layout(table: Seq<u8>, len: u32)
    requires
        len >= SDT_HEADER_LEN,
    ensures
        rsdt_entries(table, entry_count(len, 4)).len() == (len - 36) / 4,
        forall|i: int|
            0 <= i < (len - 36) / 4 ==> #[trigger] rsdt_entries(table, entry_count(len, 4))[i]
                == spec_u32_from_le_bytes(table.subrange(36 + 4 * i, 40 + 4 * i)),
{
}

/// The entries of an extended root table of length `len` are all the 8-byte
/// slots after the 36-byte header: `(len - 36) / 8` of them, entry `i` being
/// the little-endian number at offset `36 + 8 * i`.
pub proof fn lemma_xsdt_entries_layout(table: Seq<u8>, len: u32)
    requires
        len >= SDT_HEADER_LEN,
    ensures
        xsdt_entries(table, entry_count(len, 8)).len() == (len - 36) / 8,
        forall|i: int|
            0 <= i < (len - 36) / 8 ==> #[trigger] xsdt_entries(table, entry_count(len, 8))[i]
                == spec_u64_from_le_bytes(table.subrange(36 + 8 * i, 44 + 8 * i)),
{
}

} // verus!
