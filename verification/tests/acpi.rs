use rinux::acpi::init;
use rinux::acpi::rsdp::{get_rsdp, RSDPError, RawRSDP, RawXSDP, RSDP, RSDP_LEN, XSDP_LEN};
use rinux::acpi::sdt::rsdt::{get_rsdt, RSDTError, RawRSDT, RawXSDT, RSDT};
use rinux::acpi::sdt::tables::TablesManager;
use rinux::acpi::sdt::{ACPISDTHeader, SDT_HEADER_LEN};
use rinux::checksum::wrapping_byte_sum;

fn fix_checksum(bytes: &mut [u8], at: usize) {
    bytes[at] = 0;
    let sum = bytes.iter().fold(0u8, |a, b| a.wrapping_add(*b));
    bytes[at] = 0u8.wrapping_sub(sum);
}

fn rsdp_image(rsdt_addr: u32) -> Vec<u8> {
    let mut b = Vec::new();
    b.extend_from_slice(b"RSD PTR ");
    b.push(0);
    b.extend_from_slice(b"BOCHS ");
    b.push(0);
    b.extend_from_slice(&rsdt_addr.to_le_bytes());
    fix_checksum(&mut b, 8);
    b
}

fn xsdp_image(xsdt_addr: u64) -> Vec<u8> {
    let mut b = Vec::new();
    b.extend_from_slice(b"RSD PTR ");
    b.push(0);
    b.extend_from_slice(b"BOCHS ");
    b.push(2);
    b.extend_from_slice(&0x1234u32.to_le_bytes());
    b.extend_from_slice(&36u32.to_le_bytes());
    b.extend_from_slice(&xsdt_addr.to_le_bytes());
    b.push(0);
    b.extend_from_slice(&[0, 0, 0]);
    fix_checksum(&mut b, 8);
    b
}

fn table_image(sig: &[u8; 4], entries: &[u64], entry_size: usize) -> Vec<u8> {
    let len = (SDT_HEADER_LEN + entries.len() * entry_size) as u32;
    let mut b = Vec::new();
    b.extend_from_slice(sig);
    b.extend_from_slice(&len.to_le_bytes());
    b.push(1);
    b.push(0);
    b.extend_from_slice(b"BOCHS ");
    b.extend_from_slice(b"BXPCRSDT");
    b.extend_from_slice(&1u32.to_le_bytes());
    b.extend_from_slice(&0x4350_5842u32.to_le_bytes());
    b.extend_from_slice(&1u32.to_le_bytes());
    fix_checksum(&mut b, 9);
    for e in entries {
        if entry_size == 4 {
            b.extend_from_slice(&(*e as u32).to_le_bytes());
        } else {
            b.extend_from_slice(&e.to_le_bytes());
        }
    }
    b
}

#[test]
fn wrapping_byte_sum_wraps_modulo_256() {
    assert_eq!(wrapping_byte_sum(&[200, 100, 3]), 47);
    assert_eq!(wrapping_byte_sum(&[]), 0);
    assert_eq!(wrapping_byte_sum(&[255, 1]), 0);
}

#[test]
fn rsdp_from_bytes_reads_fields() {
    let b = rsdp_image(0xdead_beef);
    let r = RawRSDP::from_bytes(&b);
    assert_eq!(&r.sig, b"RSD PTR ");
    assert_eq!(&r.oem_id, b"BOCHS ");
    assert_eq!(r.revision, 0);
    assert_eq!(r.rsdt_addr, 0xdead_beef);
    assert_eq!(r.as_bytes(), b);
    assert_eq!(r.as_bytes().len(), RSDP_LEN);
}

#[test]
fn xsdp_from_bytes_reads_fields() {
    let b = xsdp_image(0x1_0000_2000);
    let x = RawXSDP::from_bytes(&b);
    assert_eq!(x.revision, 2);
    assert_eq!(x.rsdt_addr, 0x1234);
    assert_eq!(x.len, 36);
    assert_eq!(x.xsdt_addr, 0x1_0000_2000);
    assert_eq!(x.as_bytes(), b);
    assert_eq!(x.as_bytes().len(), XSDP_LEN);
}

#[test]
fn rsdp_checksums() {
    let mut b = rsdp_image(0x7fe_0000);
    let r = RawRSDP::from_bytes(&b);
    assert!(RSDP::validate_chcksum_rsdp(&r));
    b[8] = b[8].wrapping_add(1);
    let bad = RawRSDP::from_bytes(&b);
    assert!(!RSDP::validate_chcksum_rsdp(&bad));
    let x = RawXSDP::from_bytes(&xsdp_image(5));
    assert!(RSDP::validate_chcksum_xsdp(&x));
}

#[test]
fn rsdp_new_reads_acpi1_pointer() {
    let b = rsdp_image(0x7fe_1000);
    let p = RSDP::new(&b).unwrap();
    assert_eq!(p, RSDP::RSDP(RawRSDP::from_bytes(&b)));
    assert_eq!(p.addr(), 0x7fe_1000);
}

#[test]
fn rsdp_new_reads_extended_pointer() {
    let b = xsdp_image(0x1_2345_6000);
    let p = RSDP::new(&b).unwrap();
    assert_eq!(p, RSDP::XSDP(RawXSDP::from_bytes(&b)));
    assert_eq!(p.addr(), 0x1_2345_6000);
}

#[test]
fn rsdp_new_refuses_bad_checksum() {
    let mut b = rsdp_image(0x1000);
    b[0] = b'X';
    assert_eq!(RSDP::new(&b), None);
    let mut x = xsdp_image(0x1000);
    x[35] = 7;
    assert_eq!(RSDP::new(&x), None);
}

#[test]
fn raw_len_follows_revision() {
    assert_eq!(RSDP::raw_len(0), 20);
    assert_eq!(RSDP::raw_len(1), 20);
    assert_eq!(RSDP::raw_len(2), 36);
}

#[test]
fn get_rsdp_errors() {
    assert_eq!(get_rsdp(None), Err(RSDPError::NoResponse));
    let mut b = rsdp_image(0x1000);
    b[19] ^= 1;
    assert_eq!(get_rsdp(Some(&b)), Err(RSDPError::InvalidChecksum));
    let good = rsdp_image(0x1000);
    assert_eq!(get_rsdp(Some(&good)), Ok(RSDP::RSDP(RawRSDP::from_bytes(&good))));
}

#[test]
fn init_returns_the_reported_pointer() {
    let b = xsdp_image(0xfee0_0000);
    let p = init(Some(&b));
    assert_eq!(p.addr(), 0xfee0_0000);
}

#[test]
fn header_round_trip_and_checksum() {
    let t = table_image(b"RSDT", &[0x1000, 0x2000], 4);
    let h = ACPISDTHeader::from_bytes(&t);
    assert_eq!(&h.sig, b"RSDT");
    assert_eq!(h.len, 44);
    assert_eq!(h.creator_id, 0x4350_5842);
    assert_eq!(h.as_bytes(), t[..SDT_HEADER_LEN].to_vec());
    assert!(h.validate_chcksum());
    let mut bad = t.clone();
    bad[20] ^= 0x40;
    assert!(!ACPISDTHeader::from_bytes(&bad).validate_chcksum());
}

#[test]
fn get_rsdt_follows_pointer_form() {
    let rsdt = table_image(b"RSDT", &[0x1000], 4);
    let p = RSDP::new(&rsdp_image(0x1000)).unwrap();
    let hdr = ACPISDTHeader::from_bytes(&rsdt);
    assert_eq!(get_rsdt(p, &rsdt), Ok(RSDT::RSDT(RawRSDT { sdt: hdr })));
    let xsdt = table_image(b"XSDT", &[0x1000], 8);
    let x = RSDP::new(&xsdp_image(0x1000)).unwrap();
    let xh = ACPISDTHeader::from_bytes(&xsdt);
    assert_eq!(get_rsdt(x, &xsdt), Ok(RSDT::XSDT(RawXSDT { sdt: xh })));
}

#[test]
fn get_rsdt_refuses_bad_checksum() {
    let mut rsdt = table_image(b"RSDT", &[], 4);
    rsdt[0] = b'Q';
    let p = RSDP::new(&rsdp_image(0x1000)).unwrap();
    assert_eq!(get_rsdt(p, &rsdt), Err(RSDTError::InvalidChecksum));
}

#[test]
fn other_sdt_reads_entries() {
    let t = table_image(b"RSDT", &[0x7fe_1000, 0x7fe_2000, 0x7fe_3000], 4);
    let r = RawRSDT { sdt: ACPISDTHeader::from_bytes(&t) };
    assert_eq!(r.other_sdt(&t), vec![0x7fe_1000, 0x7fe_2000, 0x7fe_3000]);
    let x = table_image(b"XSDT", &[0x1_0000_0000, 0x2000], 8);
    let xr = RawXSDT { sdt: ACPISDTHeader::from_bytes(&x) };
    assert_eq!(xr.other_sdt(&x), vec![0x1_0000_0000, 0x2000]);
    let empty = table_image(b"RSDT", &[], 4);
    let er = RawRSDT { sdt: ACPISDTHeader::from_bytes(&empty) };
    assert_eq!(er.other_sdt(&empty), Vec::<u32>::new());
}

#[test]
fn tables_manager_starts_empty() {
    let m = TablesManager::default();
    assert_eq!(m.fadt, None);
    assert_eq!(m.apic, None);
}
