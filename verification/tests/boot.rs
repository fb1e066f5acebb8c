use oxos::boot::{bring_up, BootOutcome};
use oxos::console::StdOut;
use oxos::sim::{SimConfigSpace, SimTransport, SimVbeDevice};
use oxos::vga::VBE_ID_MAGIC;

fn vga_slot(present: bool) -> SimConfigSpace {
    SimConfigSpace::new(
        0,
        1,
        0,
        present,
        0x1111_1234,
        0x0300_0000,
        0xFFFF_FFFFu32 << 24,
        0xFFFF_FFFFu32 << 12,
    )
}

#[test]
fn full_bring_up_sizes_assigns_enables_and_programs() {
    let mut cfg = vga_slot(true);
    let mut vbe = SimVbeDevice::new(VBE_ID_MAGIC);
    match bring_up(&mut cfg, &mut vbe, 0, 1, 0, 0x5000_0000) {
        BootOutcome::Display { identity, fb_region, io_region } => {
            assert_eq!(identity.vendor_id, 0x1234);
            assert_eq!(identity.device_id, 0x1111);
            // the 16 MiB backing region was discovered exactly
            assert_eq!(fb_region.base, 0x5000_0000);
            assert_eq!(fb_region.size, 0x0100_0000);
            // the I/O-port region sits immediately above the framebuffer
            assert_eq!(io_region.base, 0x5100_0000);
            assert_eq!(io_region.size, 0x1000);
        }
        other => panic!("bring-up failed: {:?}", other),
    }
    // both BARs hold their assigned bases and memory space is enabled
    assert_eq!(cfg.bar0, 0x5000_0000);
    assert_eq!(cfg.bar2, 0x5100_0000);
    assert_eq!(cfg.command & 0x2, 0x2);
    // the display was programmed into mode 13h and enabled last
    assert_eq!(vbe.xres, 320);
    assert_eq!(vbe.yres, 200);
    assert_eq!(vbe.bpp, 8);
    assert_eq!(vbe.enable, 0x3);
}

#[test]
fn absent_device_skips_display_stages_entirely() {
    let mut cfg = vga_slot(false);
    let mut vbe = SimVbeDevice::new(VBE_ID_MAGIC);
    match bring_up(&mut cfg, &mut vbe, 0, 1, 0, 0x5000_0000) {
        BootOutcome::NoDevice => {}
        other => panic!("expected no device, got {:?}", other),
    }
    // no BAR was written, memory space stays off, no mode register touched
    assert_eq!(cfg.bar0, 0);
    assert_eq!(cfg.bar2, 0);
    assert_eq!(cfg.command, 0);
    assert_eq!(vbe.xres, 0);
    assert_eq!(vbe.enable, 0);
    // the console is still an active output path
    let mut out = StdOut::new(SimTransport::new(Vec::new()));
    out.write_str("[PCI]: No device...\n");
    assert_eq!(out.into_transport().output().as_slice(), b"[PCI]: No device...\n");
}

#[test]
fn wrong_class_device_is_reported_and_left_alone() {
    let mut cfg = SimConfigSpace::new(
        0,
        1,
        0,
        true,
        0x1111_1234,
        0x0200_0000,
        0xFFFF_FFFFu32 << 24,
        0xFFFF_FFFFu32 << 12,
    );
    let mut vbe = SimVbeDevice::new(VBE_ID_MAGIC);
    match bring_up(&mut cfg, &mut vbe, 0, 1, 0, 0x5000_0000) {
        BootOutcome::WrongClass(id) => assert_eq!(id.class_code, 0x02),
        other => panic!("expected wrong class, got {:?}", other),
    }
    assert_eq!(cfg.bar0, 0);
    assert_eq!(cfg.command, 0);
    assert_eq!(vbe.enable, 0);
}

#[test]
fn vga_id_mismatch_aborts_mode_setting_after_assignment() {
    let mut cfg = vga_slot(true);
    let mut vbe = SimVbeDevice::new(0x0000);
    match bring_up(&mut cfg, &mut vbe, 0, 1, 0, 0x5000_0000) {
        BootOutcome::VgaMismatch { fb_region, io_region, .. } => {
            assert_eq!(fb_region.size, 0x0100_0000);
            assert_eq!(io_region.size, 0x1000);
        }
        other => panic!("expected a vga mismatch, got {:?}", other),
    }
    // the regions were assigned and made live, but no mode register was written
    assert_eq!(cfg.bar0, 0x5000_0000);
    assert_eq!(cfg.command & 0x2, 0x2);
    assert_eq!(vbe.xres, 0);
    assert_eq!(vbe.enable, 0);
}

#[test]
fn oversized_region_is_reported_before_io_assignment() {
    // a 2 GiB framebuffer laid at 3 GiB cannot fit an I/O region above it
    let mut cfg = SimConfigSpace::new(
        0,
        1,
        0,
        true,
        0x1111_1234,
        0x0300_0000,
        0xFFFF_FFFFu32 << 31,
        0xFFFF_FFFFu32 << 12,
    );
    let mut vbe = SimVbeDevice::new(VBE_ID_MAGIC);
    match bring_up(&mut cfg, &mut vbe, 0, 1, 0, 0xC000_0000) {
        BootOutcome::AddressSpaceExhausted { fb_region, .. } => {
            assert_eq!(fb_region.size, 0x8000_0000);
        }
        other => panic!("expected exhaustion, got {:?}", other),
    }
    assert_eq!(vbe.enable, 0);
}
