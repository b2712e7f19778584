//! System description tables: the header that every one of them starts with.

pub mod rsdt;
pub mod tables;

use vstd::prelude::*;
use vstd::bytes::{spec_u32_from_le_bytes, spec_u32_to_le_bytes, u32_from_le_bytes};
use crate::bytes::{copy_array, push_bytes};
use crate::checksum::{checksum_valid, wrapping_byte_sum};

verus! {

/// Size in bytes of the common system description table header.
pub const SDT_HEADER_LEN: usize = 36;

/// The header shared by all ACPI system description tables, field by field.
#[derive(Debug, Clone, Copy, PartialEq, Eq)]
pub struct ACPISDTHeader {
    pub sig: [u8; 4],
    /// Length of the whole table, header included.
    pub len: u32,
    pub revision: u8,
    pub chcksum: u8,
    pub oem_id: [u8; 6],
    pub oem_table_id: [u8; 8],
    pub oem_revision: u32,
    pub creator_id: u32,
    pub creator_revision: u32,
}

impl View for ACPISDTHeader {
    type V = Seq<u8>;

    /// The packed in-memory image of the header (little endian).
    open spec fn view(&self) -> Seq<u8> {
        self.sig@ + spec_u32_to_le_bytes(self.len) + seq![self.revision, self.chcksum]
            + self.oem_id@ + self.oem_table_id@ + spec_u32_to_le_bytes(self.oem_revision)
            + spec_u32_to_le_bytes(self.creator_id) + spec_u32_to_le_bytes(self.creator_revision)
    }
}

impl ACPISDTHeader {
    /// Reads the header from the first `SDT_HEADER_LEN` bytes of `b`.
    pub fn from_bytes(b: &[u8]) -> (h: ACPISDTHeader)
        requires
            b@.len() >= SDT_HEADER_LEN,
        ensures
            h@ == b@.subrange(0, SDT_HEADER_LEN as int),
            h.sig@ == b@.subrange(0, 4),
            h.len == spec_u32_from_le_bytes(b@.subrange(4, 8)),
            h.revision == b@[8],
            h.chcksum == b@[9],
            h.oem_id@ == b@.subrange(10, 16),
            h.oem_table_id@ == b@.subrange(16, 24),
            h.oem_revision == spec_u32_from_le_bytes(b@.subrange(24, 28)),
            h.creator_id == spec_u32_from_le_bytes(b@.subrange(28, 32)),
            h.creator_revision == spec_u32_from_le_bytes(b@.subrange(32, 36)),
    {
        let len = copy_array::<4>(b, 4);
        let oem_rev = copy_array::<4>(b, 24);
        let creator = copy_array::<4>(b, 28);
        let creator_rev = copy_array::<4>(b, 32);
        let h = ACPISDTHeader {
            sig: copy_array::<4>(b, 0),
            len: u32_from_le_bytes(len.as_slice()),
            revision: b[8],
            chcksum: b[9],
            oem_id: copy_array::<6>(b, 10),
            oem_table_id: copy_array::<8>(b, 16),
            oem_revision: u32_from_le_bytes(oem_rev.as_slice()),
            creator_id: u32_from_le_bytes(creator.as_slice()),
            creator_revision: u32_from_le_bytes(creator_rev.as_slice()),
        };
        proof {
            vstd::bytes::lemma_auto_spec_u32_to_from_le_bytes();
            assert(h@ =~= b@.subrange(0, SDT_HEADER_LEN as int));
        }
        h
    }

    /// The packed in-memory image of the header.
    pub fn as_bytes(&self) -> (r: Vec<u8>)
        ensures
            r@ == self@,
    {
        let mut v: Vec<u8> = Vec::new();
        push_bytes(&mut v, self.sig.as_slice());
        let l = vstd::bytes::u32_to_le_bytes(self.len);
        push_bytes(&mut v, l.as_slice());
        v.push(self.revision);
        v.push(self.chcksum);
        push_bytes(&mut v, self.oem_id.as_slice());
        push_bytes(&mut v, self.oem_table_id.as_slice());
        let a = vstd::bytes::u32_to_le_bytes(self.oem_revision);
        push_bytes(&mut v, a.as_slice());
        let c = vstd::bytes::u32_to_le_bytes(self.creator_id);
        push_bytes(&mut v, c.as_slice());
        let d = vstd::bytes::u32_to_le_bytes(self.creator_revision);
        push_bytes(&mut v, d.as_slice());
        assert(v@ =~= self@);
        v
    }

    /// Returns true if the bytes of the header add up to zero modulo 256.
    pub fn validate_chcksum(&self) -> (valid: bool)
        ensures
            valid == checksum_valid(self@),
    {
        let bytes = self.as_bytes();
        let sum = wrapping_byte_sum(bytes.as_slice());
        sum == 0
    }
}

/// A table header is determined by its byte image.
pub proof fn lemma_header_bytes_determine(x: ACPISDTHeader, y: ACPISDTHeader)
    requires
        x@ == y@,
    ensures
        x == y,
{
    vstd::bytes::lemma_auto_spec_u32_to_from_le_bytes();
    assert(x.sig@ =~= x@.subrange(0, 4));
    assert(y.sig@ =~= y@.subrange(0, 4));
    assert(spec_u32_to_le_bytes(x.len) =~= x@.subrange(4, 8));
    assert(spec_u32_to_le_bytes(y.len) =~= y@.subrange(4, 8));
    assert(x@[8] == x.revision && y@[8] == y.revision);
    assert(x@[9] == x.chcksum && y@[9] == y.chcksum);
    assert(x.oem_id@ =~= x@.subrange(10, 16));
    assert(y.oem_id@ =~= y@.subrange(10, 16));
    assert(x.oem_table_id@ =~= x@.subrange(16, 24));
    assert(y.oem_table_id@ =~= y@.subrange(16, 24));
    assert(spec_u32_to_le_bytes(x.oem_revision) =~= x@.subrange(24, 28));
    assert(spec_u32_to_le_bytes(y.oem_revision) =~= y@.subrange(24, 28));
    assert(spec_u32_to_le_bytes(x.creator_id) =~= x@.subrange(28, 32));
    assert(spec_u32_to_le_bytes(y.creator_id) =~= y@.subrange(28, 32));
    assert(spec_u32_to_le_bytes(x.creator_revision) =~= x@.subrange(32, 36));
    assert(spec_u32_to_le_bytes(y.creator_revision) =~= y@.subrange(32, 36));
    assert(x.sig =~= y.sig);
    assert(x.oem_id =~= y.oem_id);
    assert(x.oem_table_id =~= y.oem_table_id);
}

/// The byte image of a table header follows the ACPI layout: signature
/// 0..4, length 4..8, revision 8, checksum 9, OEM id 10..16, OEM table id
/// 16..24, OEM revision 24..28, creator id 28..32 and creator revision
/// 32..36, numbers in little endian.
pub proof fn lemma_header_layout(h: ACPISDTHeader)
    ensures
        h@.len() == 36,
        h@.subrange(0, 4) == h.sig@,
        spec_u32_from_le_bytes(h@.subrange(4, 8)) == h.len,
        h@[8] == h.revision,
        h@[9] == h.chcksum,
        h@.subrange(10, 16) == h.oem_id@,
        h@.subrange(16, 24) == h.oem_table_id@,
        spec_u32_from_le_bytes(h@.subrange(24, 28)) == h.oem_revision,
        spec_u32_from_le_bytes(h@.subrange(28, 32)) == h.creator_id,
        spec_u32_from_le_bytes(h@.subrange(32, 36)) == h.creator_revision,
{
    vstd::bytes::lemma_auto_spec_u32_to_from_le_bytes();
    assert(h@.subrange(0, 4) =~= h.sig@);
    assert(h@.subrange(4, 8) =~= spec_u32_to_le_bytes(h.len));
    assert(h@.subrange(10, 16) =~= h.oem_id@);
    assert(h@.subrange(16, 24) =~= h.oem_table_id@);
    assert(h@.subrange(24, 28) =~= spec_u32_to_le_bytes(h.oem_revision));
    assert(h@.subrange(28, 32) =~= spec_u32_to_le_bytes(h.creator_id));
    assert(h@.subrange(32, 36) =~= spec_u32_to_le_bytes(h.creator_revision));
}

} // verus!
