use arm7_core::mem_map::{MemAccess, MemMap, ReadKind, WriteKind};

fn decoy() -> Vec<u8> {
    vec![0x00, 0xF0, 0x29, 0xE1]
}

#[test]
fn mem_access_new_keeps_fields() {
    let a = MemAccess::new(0x3FFF, 0, ReadKind::Bios, WriteKind::Unwritable);
    assert_eq!(a.mask, 0x3FFF);
    assert_eq!(a.base, 0);
    assert_eq!(a.read_kind, ReadKind::Bios);
    assert_eq!(a.write_kind, WriteKind::Unwritable);
}

#[test]
fn bios_reads_true_contents_while_pc_in_bios() {
    let mut m = MemMap::new();
    m.load(0, &vec![0x11, 0x22, 0x33, 0x44, 0x55, 0x66, 0x77, 0x88]);
    let prot = decoy();
    assert_eq!(m.read_8(0x0000_0001, &prot, 0), 0x22);
    assert_eq!(m.read_16(0x0000_0002, &prot, 0x100), 0x4433);
    assert_eq!(m.read_32(0x0000_0004, &prot, 0), 0x8877_6655);
}

#[test]
fn bios_reads_decoy_past_boundary_once_pc_left_bios() {
    let mut m = MemMap::new();
    m.load(0, &vec![0x11, 0x22, 0x33, 0x44]);
    let prot = decoy();
    let pc = 0x0800_0000;
    assert_eq!(m.read_32(0x0000_5000, &prot, pc), 0xE129_F000);
    assert_eq!(m.read_8(0x0000_5001, &prot, pc), 0xF0);
    assert_eq!(m.read_16(0x0000_5002, &prot, pc), 0xE129);
    // within the protected boundary reads are zero
    assert_eq!(m.read_32(0x0000_4000, &prot, pc), 0);
    assert_eq!(m.read_8(0x0000_0001, &prot, pc), 0);
}

#[test]
fn wram_round_trip_and_mirror_mask() {
    let mut m = MemMap::new();
    let prot = decoy();
    m.write_32(0x0200_0010, 0xDEAD_BEEF);
    assert_eq!(m.read_32(0x0200_0010, &prot, 0x0800_0000), 0xDEAD_BEEF);
    // the region mask folds mirrored addresses onto the same cell
    assert_eq!(m.read_32(0x0204_0010, &prot, 0x0800_0000), 0xDEAD_BEEF);
    m.write_16(0x0200_0020, 0xA1B2);
    assert_eq!(m.read_16(0x0200_0020, &prot, 0), 0xA1B2);
    m.write_8(0x0200_0022, 0x7E);
    assert_eq!(m.read_8(0x0200_0022, &prot, 0), 0x7E);
}

#[test]
fn unwritable_regions_discard_writes() {
    let mut m = MemMap::new();
    m.load(0, &vec![0xAB, 0xCD]);
    let prot = decoy();
    m.write_8(0x0000_0000, 0x99);
    assert_eq!(m.read_8(0x0000_0000, &prot, 0), 0xAB);
    m.write_32(0x0300_0000, 0x1234_5678);
    assert_eq!(m.read_32(0x0300_0000, &prot, 0), 0);
}

#[test]
fn unreadable_regions_read_zero() {
    let m = MemMap::new();
    let prot = decoy();
    assert_eq!(m.read_8(0x0100_0000, &prot, 0), 0);
    assert_eq!(m.read_16(0x0400_0000, &prot, 0), 0);
    assert_eq!(m.read_32(0x0E00_0000, &prot, 0), 0);
    assert_eq!(m.read_32(0x0F00_0000, &prot, 0), 0);
}
