use dustbox::gpu::{DACPalette, GPU};
use dustbox::memory::MMU;

#[test]
fn dac_writes_fill_red_green_blue_then_advance() {
    let mut gpu = GPU::new();
    gpu.set_pel_address(5);
    gpu.set_pel_data(0x3F);
    gpu.set_pel_data(0x10);
    gpu.set_pel_data(0x41); // only six bits count
    assert_eq!(DACPalette { r: 0xFC, g: 0x40, b: 0x04 }, gpu.palette[5]);
    assert_eq!(6, gpu.pel_index);
    assert_eq!(0, gpu.pel_component);
    gpu.set_pel_address(255);
    gpu.set_pel_data(1);
    gpu.set_pel_data(2);
    gpu.set_pel_data(3);
    assert_eq!(0, gpu.pel_index);
}

#[test]
fn scanline_wraps_and_status_reports_retrace() {
    let mut gpu = GPU::new();
    assert_eq!(0, gpu.read_cga_status_register());
    assert!(!gpu.progress_scanline());
    assert_eq!(1, gpu.read_cga_status_register());
    for _ in 1..200 {
        gpu.progress_scanline();
    }
    assert_eq!(200, gpu.scanline);
    assert_eq!(8, gpu.read_cga_status_register());
    for _ in 200..320 {
        gpu.progress_scanline();
    }
    assert!(gpu.progress_scanline());
    assert_eq!(0, gpu.scanline);
}

#[test]
fn frame_maps_framebuffer_through_palette() {
    let mut gpu = GPU::new();
    gpu.set_pel_address(7);
    gpu.set_pel_data(1);
    gpu.set_pel_data(2);
    gpu.set_pel_data(3);
    let mut mmu = MMU::new();
    mmu.write_u8(0xA000, 321, 7);
    let frame = gpu.frame(&mmu);
    assert_eq!(4 * 320 * 200, frame.len());
    assert_eq!(&[0, 0, 0, 255], &frame[0..4]);
    assert_eq!(&[4, 8, 12, 255], &frame[4 * 321..4 * 322]);
}

#[test]
fn video_ports() {
    let mut gpu = GPU::new();
    gpu.port_out(0x03C8, 9);
    gpu.port_out(0x03C9, 1);
    gpu.port_out(0x03C9, 2);
    gpu.port_out(0x03C9, 3);
    gpu.port_out(0x0060, 0xFF);
    assert_eq!(DACPalette { r: 4, g: 8, b: 12 }, gpu.palette[9]);
    assert_eq!(10, gpu.pel_index);
    assert_eq!(1, gpu.port_in(0x03DA));
    assert_eq!(0, gpu.port_in(0x03DA));
    assert_eq!(2, gpu.scanline);
    assert_eq!(0, gpu.port_in(0x0040));
}
