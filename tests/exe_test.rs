use dustbox::cpu::CPU;
use dustbox::exe::{parse_exe_header, ExeError, IMAGE_SEGMENT};
use dustbox::instruction::{R16, SR};
use dustbox::memory::MMU;

fn push16(out: &mut Vec<u8>, v: u16) {
    out.push((v & 0xFF) as u8);
    out.push((v >> 8) as u8);
}

/// A 40-byte MZ file: a 32-byte header with one relocation, then 8 bytes of code.
fn small_exe() -> Vec<u8> {
    let mut d = Vec::new();
    for v in [0x5A4Du16, 40, 1, 1, 2, 0, 0xFFFF, 0x0010, 0x0100, 0, 0x0000, 0x0000, 28, 0] {
        push16(&mut d, v);
    }
    push16(&mut d, 0x0002); // relocation: offset
    push16(&mut d, 0x0000); // relocation: segment
    d.extend_from_slice(&[0xB8, 0x00, 0x05, 0x00, 0xCD, 0x20, 0x90, 0x90]);
    d
}

#[test]
fn parses_the_mz_header() {
    let h = parse_exe_header(&small_exe()).unwrap();
    assert_eq!(0x5A4D, h.signature);
    assert_eq!(40, h.bytes_in_last_block);
    assert_eq!(1, h.blocks_in_file);
    assert_eq!(1, h.num_relocs);
    assert_eq!(2, h.header_paragraphs);
    assert_eq!(0xFFFF, h.max_extra_paragraphs);
    assert_eq!(0x0010, h.ss);
    assert_eq!(0x0100, h.sp);
    assert_eq!(28, h.reloc_table_offset);
}

#[test]
fn header_errors() {
    assert_eq!(Err(ExeError::TooShort), parse_exe_header(&[0x4D, 0x5A, 0, 0]));
    let mut d = small_exe();
    d[0] = b'Z';
    assert_eq!(Err(ExeError::NotMz), parse_exe_header(&d));
}

#[test]
fn loads_and_relocates_an_exe() {
    let mut cpu = CPU::new(MMU::new());
    assert_eq!(Ok(()), cpu.load_executable(&small_exe()));
    assert_eq!(IMAGE_SEGMENT, cpu.get_sr(SR::CS));
    assert_eq!(0x0000, cpu.ip);
    assert_eq!(IMAGE_SEGMENT + 0x10, cpu.get_sr(SR::SS));
    assert_eq!(0x0100, cpu.get_r16(R16::SP));
    assert_eq!(0x085F, cpu.get_sr(SR::DS));
    assert_eq!(0x085F, cpu.get_sr(SR::ES));
    assert_eq!(0xB8, cpu.mmu.read_u8(IMAGE_SEGMENT, 0));
    assert_eq!(0x0005 + IMAGE_SEGMENT, cpu.mmu.read_u16(IMAGE_SEGMENT, 2));
    assert_eq!(0x20CD, cpu.mmu.read_u16(IMAGE_SEGMENT, 4));
    assert_eq!(0, cpu.mmu.read_u8(IMAGE_SEGMENT, 8));
}

#[test]
fn rejects_bad_ranges() {
    let mut cpu = CPU::new(MMU::new());
    let mut d = small_exe();
    d[2] = 41; // code would end past the file
    assert_eq!(Err(ExeError::BadCodeRange), cpu.load_exe(&d));

    let mut d = small_exe();
    d[6] = 3; // three relocations: the table would run past the file
    d[24] = 30;
    assert_eq!(Err(ExeError::BadRelocTable), cpu.load_exe(&d));
}

#[test]
fn com_images_over_the_segment_limit_are_refused() {
    let mut cpu = CPU::new(MMU::new());
    let big = vec![0x90u8; 0xFF01];
    assert_eq!(Err(ExeError::TooLarge), cpu.load_executable(&big));
    let fits = vec![0x90u8; 0xFF00];
    assert_eq!(Ok(()), cpu.load_executable(&fits));
    assert_eq!(0x0100, cpu.ip);
}
