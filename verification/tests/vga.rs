use oxos::sim::SimVbeDevice;
use oxos::vga::{set_mode, set_mode13, ModeError, VBE_ID_MAGIC};

#[test]
fn mode13_programs_resolution_depth_then_enable() {
    let mut vbe = SimVbeDevice::new(VBE_ID_MAGIC);
    let r = set_mode13(&mut vbe);
    assert_eq!(r, Ok(()));
    assert_eq!(vbe.xres, 320);
    assert_eq!(vbe.yres, 200);
    assert_eq!(vbe.bpp, 8);
    // enabled with the linear framebuffer selected
    assert_eq!(vbe.enable, 0x3);
}

#[test]
fn custom_mode_latches_requested_values() {
    let mut vbe = SimVbeDevice::new(VBE_ID_MAGIC);
    let r = set_mode(&mut vbe, 640, 480, 8);
    assert_eq!(r, Ok(()));
    assert_eq!(vbe.xres, 640);
    assert_eq!(vbe.yres, 480);
    assert_eq!(vbe.bpp, 8);
    assert_eq!(vbe.enable, 0x3);
}

#[test]
fn id_mismatch_aborts_before_any_write() {
    let mut vbe = SimVbeDevice::new(0x1234);
    let r = set_mode13(&mut vbe);
    assert_eq!(r, Err(ModeError::IdMismatch));
    // nothing was programmed: the device was never enabled
    assert_eq!(vbe.xres, 0);
    assert_eq!(vbe.yres, 0);
    assert_eq!(vbe.bpp, 0);
    assert_eq!(vbe.enable, 0);
}
