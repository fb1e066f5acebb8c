use oxos::pci::{
    config_addr, enable_memory_space, probe_device, read_config, size_and_assign_bar,
    DeviceIdentity, ProbeResult, RegionPurpose, PCI_BAR0_OFFSET, PCI_BAR2_OFFSET,
    PCI_COMMAND_OFFSET,
};
use oxos::sim::SimConfigSpace;

fn vga_slot(present: bool) -> SimConfigSpace {
    // vendor 0x1234, device 0x1111, display class, 16 MiB and 4 KiB regions
    SimConfigSpace::new(
        0,
        1,
        0,
        present,
        0x1111_1234,
        0x0300_0000,
        0xFFFF_FFFFu32 << 24,
        0xFFFF_FFFFu32 << 12,
    )
}

#[test]
fn config_addr_layout() {
    assert_eq!(config_addr(0, 0, 0, 0), 0x3000_0000);
    assert_eq!(config_addr(0, 1, 0, 0), 0x3000_8000);
    assert_eq!(config_addr(0, 1, 0, 0x10), 0x3000_8010);
    assert_eq!(config_addr(1, 0, 0, 0), 0x3010_0000);
    assert_eq!(config_addr(0, 0, 1, 0), 0x3000_1000);
    // the low two offset bits are masked: the access is word-aligned
    assert_eq!(config_addr(0, 0, 0, 0xFFF), 0x3000_0FFC);
    assert_eq!(config_addr(0, 0, 0, 0x13), 0x3000_0010);
}

#[test]
fn probe_empty_slot_reports_absent() {
    let mut port = vga_slot(false);
    match probe_device(&mut port, 0, 1, 0) {
        ProbeResult::Absent => {}
        ProbeResult::Present(_) => panic!("an empty slot must probe as absent"),
    }
}

#[test]
fn probe_all_ones_vendor_reports_absent() {
    // a present device whose vendor id reads all-ones is, by the
    // configuration-space contract, no device
    let mut port = SimConfigSpace::new(0, 1, 0, true, 0xABCD_FFFF, 0, 0, 0);
    match probe_device(&mut port, 0, 1, 0) {
        ProbeResult::Absent => {}
        ProbeResult::Present(_) => panic!("an all-ones vendor id must probe as absent"),
    }
}

#[test]
fn probe_other_slot_reports_absent() {
    let mut port = vga_slot(true);
    match probe_device(&mut port, 0, 2, 0) {
        ProbeResult::Absent => {}
        ProbeResult::Present(_) => panic!("a slot with no device must probe as absent"),
    }
}

#[test]
fn probe_present_device_fills_whole_identity() {
    let mut port = vga_slot(true);
    match probe_device(&mut port, 0, 1, 0) {
        ProbeResult::Absent => panic!("the device must be found"),
        ProbeResult::Present(id) => {
            assert_eq!(
                id,
                DeviceIdentity {
                    vendor_id: 0x1234,
                    device_id: 0x1111,
                    class_code: 0x03,
                    subclass: 0x00,
                    prog_if: 0x00,
                }
            );
        }
    }
}

#[test]
fn bar_sizing_finds_sixteen_mebibyte_region() {
    let mut port = vga_slot(true);
    let region = size_and_assign_bar(
        &mut port,
        0,
        1,
        0,
        PCI_BAR0_OFFSET,
        0x5000_0000,
        RegionPurpose::Framebuffer,
    );
    assert_eq!(region.size, 0x0100_0000);
    assert_eq!(region.base, 0x5000_0000);
    assert_eq!(region.purpose, RegionPurpose::Framebuffer);
    // the BAR now holds the assigned base, not the sizing mask
    let readback = read_config(&mut port, 0, 1, 0, PCI_BAR0_OFFSET);
    assert_eq!(readback & 0xFFFF_FFF0, 0x5000_0000);
}

#[test]
fn bar_sizing_minimum_granularity_is_sixteen() {
    let mut port = SimConfigSpace::new(0, 1, 0, true, 0x1111_1234, 0x0300_0000, 0xFFFF_FFF0, 0);
    let region =
        size_and_assign_bar(&mut port, 0, 1, 0, PCI_BAR0_OFFSET, 0x4000_0000, RegionPurpose::IoPorts);
    assert_eq!(region.size, 16);
}

#[test]
fn bar_sizing_unused_bar_yields_size_zero() {
    // a BAR that latches nothing reads back zero: size zero, not an error
    let mut port = SimConfigSpace::new(0, 1, 0, true, 0x1111_1234, 0x0300_0000, 0, 0);
    let region =
        size_and_assign_bar(&mut port, 0, 1, 0, PCI_BAR2_OFFSET, 0x4000_0000, RegionPurpose::IoPorts);
    assert_eq!(region.size, 0);
}

#[test]
fn enable_memory_space_sets_only_that_bit() {
    let mut port = vga_slot(true);
    enable_memory_space(&mut port, 0, 1, 0);
    assert_eq!(port.command, 0x2);
    // a second enable preserves what is already set
    port.command = 0x405;
    enable_memory_space(&mut port, 0, 1, 0);
    assert_eq!(port.command, 0x407);
    assert_eq!(read_config(&mut port, 0, 1, 0, PCI_COMMAND_OFFSET), 0x407);
}
