//! The Root System Description Pointer (RSDP), in its ACPI 1.0 form and in
//! its ACPI 2.0 extended form (XSDP).

use vstd::prelude::*;
use vstd::bytes::{
    spec_u32_from_le_bytes, spec_u32_to_le_bytes, spec_u64_from_le_bytes, spec_u64_to_le_bytes,
    u32_from_le_bytes, u64_from_le_bytes,
};
use crate::bytes::{copy_array, push_bytes};
use crate::checksum::{checksum_valid, wrapping_byte_sum};

verus! {

/// Size in bytes of the ACPI 1.0 RSDP structure.
pub const RSDP_LEN: usize = 20;

/// Size in bytes of the ACPI 2.0 XSDP structure.
pub const XSDP_LEN: usize = 36;

/// Offset of the `revision` byte in both structures.
pub const REVISION_OFFSET: usize = 15;

/// Size of the structure that a pointer with the given revision points to:
/// revision 2 announces the extended (XSDP) layout.
pub open spec fn spec_raw_len(revision: u8) -> nat {
    if revision == 2 {
        XSDP_LEN as nat
    } else {
        RSDP_LEN as nat
    }
}

/// The ACPI 1.0 Root System Description Pointer, field by field.
#[derive(Debug, Clone, Copy, PartialEq, Eq)]
pub struct RawRSDP {
    pub sig: [u8; 8],
    pub chcksum: u8,
    pub oem_id: [u8; 6],
    pub revision: u8,
    pub rsdt_addr: u32,
}

impl View for RawRSDP {
    type V = Seq<u8>;

    /// The packed in-memory image of the structure (little endian).
    open spec fn view(&self) -> Seq<u8> {
        self.sig@ + seq![self.chcksum] + self.oem_id@ + seq![self.revision]
            + spec_u32_to_le_bytes(self.rsdt_addr)
    }
}

/// The ACPI 2.0 extended system description pointer, field by field.
#[derive(Debug, Clone, Copy, PartialEq, Eq)]
pub struct RawXSDP {
    pub sig: [u8; 8],
    pub chcksum: u8,
    pub oem_id: [u8; 6],
    pub revision: u8,
    /// Deprecated 32-bit RSDT address, kept for ACPI 1.0 readers.
    pub rsdt_addr: u32,
    pub len: u32,
    pub xsdt_addr: u64,
    pub extended_chcksum: u8,
    pub reserved: [u8; 3],
}

impl View for RawXSDP {
    type V = Seq<u8>;

    /// The packed in-memory image of the structure (little endian).
    open spec fn view(&self) -> Seq<u8> {
        self.sig@ + seq![self.chcksum] + self.oem_id@ + seq![self.revision]
            + spec_u32_to_le_bytes(self.rsdt_addr) + spec_u32_to_le_bytes(self.len)
            + spec_u64_to_le_bytes(self.xsdt_addr) + seq![self.extended_chcksum] + self.reserved@
    }
}

impl RawRSDP {
    /// Reads the structure from the first `RSDP_LEN` bytes of `b`.
    pub fn from_bytes(b: &[u8]) -> (r: RawRSDP)
        requires
            b@.len() >= RSDP_LEN,
        ensures
            r@ == b@.subrange(0, RSDP_LEN as int),
            r.sig@ == b@.subrange(0, 8),
            r.chcksum == b@[8],
            r.oem_id@ == b@.subrange(9, 15),
            r.revision == b@[15],
            r.rsdt_addr == spec_u32_from_le_bytes(b@.subrange(16, 20)),
    {
        let addr = copy_array::<4>(b, 16);
        let r = RawRSDP {
            sig: copy_array::<8>(b, 0),
            chcksum: b[8],
            oem_id: copy_array::<6>(b, 9),
            revision: b[15],
            rsdt_addr: u32_from_le_bytes(addr.as_slice()),
        };
        proof {
            vstd::bytes::lemma_auto_spec_u32_to_from_le_bytes();
            assert(r@ =~= b@.subrange(0, RSDP_LEN as int));
        }
        r
    }

    /// The packed in-memory image of the structure.
    pub fn as_bytes(&self) -> (r: Vec<u8>)
        ensures
            r@ == self@,
    {
        let mut v: Vec<u8> = Vec::new();
        push_bytes(&mut v, self.sig.as_slice());
        v.push(self.chcksum);
        push_bytes(&mut v, self.oem_id.as_slice());
        v.push(self.revision);
        let a = vstd::bytes::u32_to_le_bytes(self.rsdt_addr);
        push_bytes(&mut v, a.as_slice());
        assert(v@ =~= self@);
        v
    }
}

impl RawXSDP {
    /// Reads the structure from the first `XSDP_LEN` bytes of `b`.
    pub fn from_bytes(b: &[u8]) -> (r: RawXSDP)
        requires
            b@.len() >= XSDP_LEN,
        ensures
            r@ == b@.subrange(0, XSDP_LEN as int),
            r.sig@ == b@.subrange(0, 8),
            r.chcksum == b@[8],
            r.oem_id@ == b@.subrange(9, 15),
            r.revision == b@[15],
            r.rsdt_addr == spec_u32_from_le_bytes(b@.subrange(16, 20)),
            r.len == spec_u32_from_le_bytes(b@.subrange(20, 24)),
            r.xsdt_addr == spec_u64_from_le_bytes(b@.subrange(24, 32)),
            r.extended_chcksum == b@[32],
            r.reserved@ == b@.subrange(33, 36),
    {
        let rsdt = copy_array::<4>(b, 16);
        let len = copy_array::<4>(b, 20);
        let xsdt = copy_array::<8>(b, 24);
        let r = RawXSDP {
            sig: copy_array::<8>(b, 0),
            chcksum: b[8],
            oem_id: copy_array::<6>(b, 9),
            revision: b[15],
            rsdt_addr: u32_from_le_bytes(rsdt.as_slice()),
            len: u32_from_le_bytes(len.as_slice()),
            xsdt_addr: u64_from_le_bytes(xsdt.as_slice()),
            extended_chcksum: b[32],
            reserved: copy_array::<3>(b, 33),
        };
        proof {
            vstd::bytes::lemma_auto_spec_u32_to_from_le_bytes();
            vstd::bytes::lemma_auto_spec_u64_to_from_le_bytes();
            assert(r@ =~= b@.subrange(0, XSDP_LEN as int));
        }
        r
    }

    /// The packed in-memory image of the structure.
    pub fn as_bytes(&self) -> (r: Vec<u8>)
        ensures
            r@ == self@,
    {
        let mut v: Vec<u8> = Vec::new();
        push_bytes(&mut v, self.sig.as_slice());
        v.push(self.chcksum);
        push_bytes(&mut v, self.oem_id.as_slice());
        v.push(self.revision);
        let a = vstd::bytes::u32_to_le_bytes(self.rsdt_addr);
        push_bytes(&mut v, a.as_slice());
        let l = vstd::bytes::u32_to_le_bytes(self.len);
        push_bytes(&mut v, l.as_slice());
        let x = vstd::bytes::u64_to_le_bytes(self.xsdt_addr);
        push_bytes(&mut v, x.as_slice());
        v.push(self.extended_chcksum);
        push_bytes(&mut v, self.reserved.as_slice());
        assert(v@ =~= self@);
        v
    }
}

/// An RSDP is determined by its byte image: reading back the bytes of a
/// structure gives that same structure.
pub proof fn lemma_rsdp_bytes_determine(x: RawRSDP, y: RawRSDP)
    requires
        x@ == y@,
    ensures
        x == y,
{
    vstd::bytes::lemma_auto_spec_u32_to_from_le_bytes();
    assert(x.sig@ =~= x@.subrange(0, 8));
    assert(y.sig@ =~= y@.subrange(0, 8));
    assert(x.oem_id@ =~= x@.subrange(9, 15));
    assert(y.oem_id@ =~= y@.subrange(9, 15));
    assert(spec_u32_to_le_bytes(x.rsdt_addr) =~= x@.subrange(16, 20));
    assert(spec_u32_to_le_bytes(y.rsdt_addr) =~= y@.subrange(16, 20));
    assert(x@[8] == x.chcksum && y@[8] == y.chcksum);
    assert(x@[15] == x.revision && y@[15] == y.revision);
    assert(x.sig =~= y.sig);
    assert(x.oem_id =~= y.oem_id);
}

/// An XSDP is determined by its byte image: reading back the bytes of a
/// structure gives that same structure.
pub proof fn lemma_xsdp_bytes_determine(x: RawXSDP, y: RawXSDP)
    requires
        x@ == y@,
    ensures
        x == y,
{
    vstd::bytes::lemma_auto_spec_u32_to_from_le_bytes();
    vstd::bytes::lemma_auto_spec_u64_to_from_le_bytes();
    assert(x.sig@ =~= x@.subrange(0, 8));
    assert(y.sig@ =~= y@.subrange(0, 8));
    assert(x.oem_id@ =~= x@.subrange(9, 15));
    assert(y.oem_id@ =~= y@.subrange(9, 15));
    assert(spec_u32_to_le_bytes(x.rsdt_addr) =~= x@.subrange(16, 20));
    assert(spec_u32_to_le_bytes(y.rsdt_addr) =~= y@.subrange(16, 20));
    assert(spec_u32_to_le_bytes(x.len) =~= x@.subrange(20, 24));
    assert(spec_u32_to_le_bytes(y.len) =~= y@.subrange(20, 24));
    assert(spec_u64_to_le_bytes(x.xsdt_addr) =~= x@.subrange(24, 32));
    assert(spec_u64_to_le_bytes(y.xsdt_addr) =~= y@.subrange(24, 32));
    assert(x.reserved@ =~= x@.subrange(33, 36));
    assert(y.reserved@ =~= y@.subrange(33, 36));
    assert(x@[8] == x.chcksum && y@[8] == y.chcksum);
    assert(x@[15] == x.revision && y@[15] == y.revision);
    assert(x@[32] == x.extended_chcksum && y@[32] == y.extended_chcksum);
    assert(x.sig =~= y.sig);
    assert(x.oem_id =~= y.oem_id);
    assert(x.reserved =~= y.reserved);
}

/// Why no valid root pointer could be obtained.
#[derive(Debug, Clone, Copy, PartialEq, Eq)]
pub enum RSDPError {
    /// The boot loader answered no RSDP request.
    NoResponse,
    /// The structure found does not carry a valid checksum.
    InvalidChecksum,
}

/// A validated root system description pointer.
#[derive(Debug, Clone, Copy, PartialEq, Eq)]
pub enum RSDP {
    RSDP(RawRSDP),
    XSDP(RawXSDP),
}

/// `b` is long enough to hold the revision byte and the whole structure
/// that this revision announces.
pub open spec fn rsdp_image_readable(b: Seq<u8>) -> bool {
    &&& b.len() > REVISION_OFFSET
    &&& b.len() >= spec_raw_len(b[REVISION_OFFSET as int])
}

/// The bytes of the structure that the image `b` starts with.
pub open spec fn rsdp_image(b: Seq<u8>) -> Seq<u8> {
    b.subrange(0, spec_raw_len(b[REVISION_OFFSET as int]) as int)
}

/// `p` is the pointer that the image `b` holds: the extended form exactly
/// when the revision is 2, with the same bytes.
pub open spec fn rsdp_read_from(b: Seq<u8>, p: RSDP) -> bool {
    &&& p.spec_bytes() == rsdp_image(b)
    &&& (p is XSDP <==> b[REVISION_OFFSET as int] == 2)
}

impl RSDP {
    /// The bytes of the structure that this pointer was read from.
    pub open spec fn spec_bytes(self) -> Seq<u8> {
        match self {
            RSDP::RSDP(r) => r@,
            RSDP::XSDP(x) => x@,
        }
    }

    /// The address of the system description table that this pointer
    /// designates.
    pub open spec fn spec_addr(self) -> u64 {
        match self {
            RSDP::RSDP(r) => r.rsdt_addr as u64,
            RSDP::XSDP(x) => x.xsdt_addr,
        }
    }

    /// Number of bytes to read for a pointer whose revision byte is `revision`.
    pub fn raw_len(revision: u8) -> (n: usize)
        ensures
            n == spec_raw_len(revision),
    {
        if revision == 2 {
            XSDP_LEN
        } else {
            RSDP_LEN
        }
    }

    /// Reads the pointer structure at the start of `b`: the extended form
    /// when the revision byte is 2, the ACPI 1.0 form otherwise. Returns
    /// `None` when the structure's checksum is not valid.
    pub fn new(b: &[u8]) -> (r: Option<RSDP>)
        requires
            rsdp_image_readable(b@),
        ensures
            r is Some <==> checksum_valid(rsdp_image(b@)),
            r matches Some(p) ==> rsdp_read_from(b@, p),
            r matches Some(RSDP::RSDP(x)) ==> {
                &&& x.sig@ == b@.subrange(0, 8)
                &&& x.chcksum == b@[8]
                &&& x.oem_id@ == b@.subrange(9, 15)
                &&& x.revision == b@[15]
                &&& x.rsdt_addr == spec_u32_from_le_bytes(b@.subrange(16, 20))
            },
            r matches Some(RSDP::XSDP(x)) ==> {
                &&& x.sig@ == b@.subrange(0, 8)
                &&& x.chcksum == b@[8]
                &&& x.oem_id@ == b@.subrange(9, 15)
                &&& x.revision == b@[15]
                &&& x.rsdt_addr == spec_u32_from_le_bytes(b@.subrange(16, 20))
                &&& x.len == spec_u32_from_le_bytes(b@.subrange(20, 24))
                &&& x.xsdt_addr == spec_u64_from_le_bytes(b@.subrange(24, 32))
                &&& x.extended_chcksum == b@[32]
                &&& x.reserved@ == b@.subrange(33, 36)
            },
    {
        if b[REVISION_OFFSET] == 2 {
            let x = RawXSDP::from_bytes(b);
            if Self::validate_chcksum_xsdp(&x) == false {
                return None;
            }
            return Some(RSDP::XSDP(x));
        }
        let r = RawRSDP::from_bytes(b);
        if Self::validate_chcksum_rsdp(&r) == false {
            return None;
        }
        Some(RSDP::RSDP(r))
    }

    /// The address of the RSDT (ACPI 1.0) or of the XSDT (extended form).
    pub fn addr(&self) -> (a: u64)
        ensures
            a == self.spec_addr(),
    {
        match self {
            RSDP::RSDP(r) => r.rsdt_addr as u64,
            RSDP::XSDP(x) => x.xsdt_addr,
        }
    }

    /// Returns true if the checksum of the ACPI 1.0 structure is valid.
    pub fn validate_chcksum_rsdp(rsdp: &RawRSDP) -> (valid: bool)
        ensures
            valid == checksum_valid(rsdp@),
    {
        let bytes = rsdp.as_bytes();
        let sum = wrapping_byte_sum(bytes.as_slice());
        sum == 0
    }

    /// Returns true if the checksum over the whole extended structure is valid.
    pub fn validate_chcksum_xsdp(xsdp: &RawXSDP) -> (valid: bool)
        ensures
            valid == checksum_valid(xsdp@),
    {
        let bytes = xsdp.as_bytes();
        let sum = wrapping_byte_sum(bytes.as_slice());
        sum == 0
    }
}

/// Validates the root pointer that the boot loader handed over: `response`
/// is the image of the memory at the address it reported, or `None` when it
/// answered nothing.
pub fn get_rsdp(response: Option<&[u8]>) -> (r: Result<RSDP, RSDPError>)
    requires
        response matches Some(b) ==> rsdp_image_readable(b@),
    ensures
        response is None ==> r == Err::<RSDP, RSDPError>(RSDPError::NoResponse),
        response matches Some(b) ==> {
            &&& (r is Ok <==> checksum_valid(rsdp_image(b@)))
            &&& (r is Err ==> r == Err::<RSDP, RSDPError>(RSDPError::InvalidChecksum))
            &&& (r matches Ok(p) ==> rsdp_read_from(b@, p))
        },
{
    match response {
        Some(b) => {
            match RSDP::new(b) {
                Some(p) => Ok(p),
                None => Err(RSDPError::InvalidChecksum),
            }
        },
        None => Err(RSDPError::NoResponse),
    }
}

/// Reading the image of an ACPI 1.0 structure (revision other than 2) gives
/// back that very structure.
pub proof fn lemma_rsdp_read_back(x: RawRSDP, p: RSDP)
    requires
        x.revision != 2,
        rsdp_read_from(x@, p),
    ensures
        p == RSDP::RSDP(x),
{
    vstd::bytes::lemma_auto_spec_u32_to_from_le_bytes();
    assert(x@[REVISION_OFFSET as int] == x.revision);
    assert(x@.subrange(0, RSDP_LEN as int) =~= x@);
    if let RSDP::RSDP(y) = p {
        lemma_rsdp_bytes_determine(x, y);
    }
}

/// Reading the image of an extended structure (revision 2) gives back that
/// very structure.
pub proof fn lemma_xsdp_read_back(x: RawXSDP, p: RSDP)
    requires
        x.revision == 2,
        rsdp_read_from(x@, p),
    ensures
        p == RSDP::XSDP(x),
{
    vstd::bytes::lemma_auto_spec_u32_to_from_le_bytes();
    vstd::bytes::lemma_auto_spec_u64_to_from_le_bytes();
    assert(x@[REVISION_OFFSET as int] == x.revision);
    assert(x@.subrange(0, XSDP_LEN as int) =~= x@);
    if let RSDP::XSDP(y) = p {
        lemma_xsdp_bytes_determine(x, y);
    }
}

/// The table address of a pointer read from the image `b` is the one that
/// the image holds: the 64-bit field at offset 24 in the extended form, the
/// 32-bit field at offset 16 otherwise.
pub proof fn lemma_addr_read_from_image(b: Seq<u8>, p: RSDP)
    requires
        rsdp_image_readable(b),
        rsdp_read_from(b, p),
    ensures
        p.spec_addr() == (if b[REVISION_OFFSET as int] == 2 {
            spec_u64_from_le_bytes(b.subrange(24, 32))
        } else {
            spec_u32_from_le_bytes(b.subrange(16, 20)) as u64
        }),
{
    vstd::bytes::lemma_auto_spec_u32_to_from_le_bytes();
    vstd::bytes::lemma_auto_spec_u64_to_from_le_bytes();
    match p {
        RSDP::RSDP(x) => {
            assert(spec_u32_to_le_bytes(x.rsdt_addr) =~= x@.subrange(16, 20));
            assert(x@.subrange(16, 20) =~= b.subrange(16, 20));
        },
        RSDP::XSDP(x) => {
            assert(spec_u64_to_le_bytes(x.xsdt_addr) =~= x@.subrange(24, 32));
            assert(x@.subrange(24, 32) =~= b.subrange(24, 32));
        },
    }
}

/// The byte image of an ACPI 1.0 pointer follows the ACPI layout: the
/// signature at 0..8, the checksum at 8, the OEM id at 9..15, the revision
/// at 15 and the little-endian RSDT address at 16..20.
pub proof fn lemma_rsdp_layout(x: RawRSDP)
    ensures
        x@.len() == 20,
        x@.subrange(0, 8) == x.sig@,
        x@[8] == x.chcksum,
        x@.subrange(9, 15) == x.oem_id@,
        x@[15] == x.revision,
        spec_u32_from_le_bytes(x@.subrange(16, 20)) == x.rsdt_addr,
{
    vstd::bytes::lemma_auto_spec_u32_to_from_le_bytes();
    assert(x@.subrange(0, 8) =~= x.sig@);
    assert(x@.subrange(9, 15) =~= x.oem_id@);
    assert(x@.subrange(16, 20) =~= spec_u32_to_le_bytes(x.rsdt_addr));
}

/// The byte image of an extended pointer follows the ACPI 2.0 layout: the
/// signature at 0..8, the checksum at 8, the OEM id at 9..15, the revision at
/// 15, the RSDT address at 16..20, the length at 20..24, the XSDT address at
/// 24..32 (little endian), the extended checksum at 32 and three reserved
/// bytes at 33..36.
pub proof fn lemma_xsdp_layout(x: RawXSDP)
    ensures
        x@.len() == 36,
        x@.subrange(0, 8) == x.sig@,
        x@[8] == x.chcksum,
        x@.subrange(9, 15) == x.oem_id@,
        x@[15] == x.revision,
        spec_u32_from_le_bytes(x@.subrange(16, 20)) == x.rsdt_addr,
        spec_u32_from_le_bytes(x@.subrange(20, 24)) == x.len,
        spec_u64_from_le_bytes(x@.subrange(24, 32)) == x.xsdt_addr,
        x@[32] == x.extended_chcksum,
        x@.subrange(33, 36) == x.reserved@,
{
    vstd::bytes::lemma_auto_spec_u32_to_from_le_bytes();
    vstd::bytes::lemma_auto_spec_u64_to_from_le_bytes();
    assert(x@.subrange(0, 8) =~= x.sig@);
    assert(x@.subrange(9, 15) =~= x.oem_id@);
    assert(x@.subrange(16, 20) =~= spec_u32_to_le_bytes(x.rsdt_addr));
    assert(x@.subrange(20, 24) =~= spec_u32_to_le_bytes(x.len));
    assert(x@.subrange(24, 32) =~= spec_u64_to_le_bytes(x.xsdt_addr));
    assert(x@.subrange(33, 36) =~= x.reserved@);
}

/// The pointer read from an image `b` holds the image's bytes field by
/// field at the ACPI offsets: signature 0..8, checksum 8, OEM id 9..15,
/// revision 15, RSDT address 16..20; for the extended form also the length
/// 20..24, the XSDT address 24..32, the extended checksum 32 and the
/// reserved bytes 33..36.
pub proof fn lemma_pointer_fields_from_image(b: Seq<u8>, p: RSDP)
    requires
        rsdp_image_readable(b),
        rsdp_read_from(b, p),
    ensures
        match p {
            RSDP::RSDP(x) => {
                &&& b[REVISION_OFFSET as int] != 2
                &&& x.sig@ == b.subrange(0, 8)
                &&& x.chcksum == b[8]
                &&& x.oem_id@ == b.subrange(9, 15)
                &&& x.revision == b[15]
                &&& x.rsdt_addr == spec_u32_from_le_bytes(b.subrange(16, 20))
            },
            RSDP::XSDP(x) => {
                &&& b[REVISION_OFFSET as int] == 2
                &&& x.sig@ == b.subrange(0, 8)
                &&& x.chcksum == b[8]
                &&& x.oem_id@ == b.subrange(9, 15)
                &&& x.revision == b[15]
                &&& x.rsdt_addr == spec_u32_from_le_bytes(b.subrange(16, 20))
                &&& x.len == spec_u32_from_le_bytes(b.subrange(20, 24))
                &&& x.xsdt_addr == spec_u64_from_le_bytes(b.subrange(24, 32))
                &&& x.extended_chcksum == b[32]
                &&& x.reserved@ == b.subrange(33, 36)
            },
        },
{
    match p {
        RSDP::RSDP(x) => {
            lemma_rsdp_layout(x);
            assert(x@ == b.subrange(0, 20));
            assert(x@.subrange(0, 8) =~= b.subrange(0, 8));
            assert(x@.subrange(9, 15) =~= b.subrange(9, 15));
            assert(x@.subrange(16, 20) =~= b.subrange(16, 20));
        },
        RSDP::XSDP(x) => {
            lemma_xsdp_layout(x);
            assert(x@ == b.subrange(0, 36));
            assert(x@.subrange(0, 8) =~= b.subrange(0, 8));
            assert(x@.subrange(9, 15) =~= b.subrange(9, 15));
            assert(x@.subrange(16, 20) =~= b.subrange(16, 20));
            assert(x@.subrange(20, 24) =~= b.subrange(20, 24));
            assert(x@.subrange(24, 32) =~= b.subrange(24, 32));
            assert(x@.subrange(33, 36) =~= b.subrange(33, 36));
        },
    }
}

} // verus!
