//! Boot-time display bring-up: scan, size, program.
//!
//! One pass over the fixed slot: probe the device, size and assign both BAR
//! regions, enable memory space only after assignment, then program legacy
//! mode 13h. Every stage that can fail degrades to a reported outcome; the
//! contracts pin, for each outcome, exactly which accesses were performed
//! and which register value decided the outcome.

use vstd::prelude::*;
use crate::pci::{
    bar_sizing_post, enable_post, probe_post, size_and_assign_bar, enable_memory_space,
    probe_device, CfgOp, ConfigPort, DeviceIdentity, DeviceRegion, ProbeResult, RegionPurpose,
    PCI_BAR0_OFFSET, PCI_BAR2_OFFSET,
};
use crate::vga::{set_mode13, mode_sequence, VbePort, MODE13_WIDTH, MODE13_HEIGHT, MODE13_BPP,
    VBE_ID_MAGIC, VBE_INDEX_ID};

verus! {

/// Whether an identity names a VGA-compatible display controller.
pub open spec fn display_class(id: DeviceIdentity) -> bool {
    id.class_code == 3 && id.subclass == 0 && id.prog_if == 0
}

/// Tests an identity for the VGA-compatible display class.
pub fn is_display_class(id: &DeviceIdentity) -> (r: bool)
    ensures
        r == display_class(*id),
{
    id.class_code == 3 && id.subclass == 0 && id.prog_if == 0
}

/// `a` rounded up to the next multiple of 16.
pub open spec fn align16(a: int) -> int {
    ((a + 15) / 16) * 16
}

/// The configuration-space history a completed scan leaves behind: the probe
/// reads, the framebuffer BAR sizing triple, the I/O-port BAR sizing triple,
/// and the command-register read/write pair — ten accesses, in exactly that
/// order.
pub open spec fn scan_cfg_post(
    h0: Seq<CfgOp>,
    h: Seq<CfgOp>,
    bus: u8,
    device: u8,
    function: u8,
    fb_candidate: u32,
    identity: DeviceIdentity,
    fb_region: DeviceRegion,
    io_region: DeviceRegion,
) -> bool {
    let n = h0.len() as int;
    &&& h.len() == h0.len() + 10
    &&& probe_post(h0, h.take(n + 2), bus, device, function, ProbeResult::Present(identity))
    &&& bar_sizing_post(
        h.take(n + 2),
        h.take(n + 5),
        bus,
        device,
        function,
        PCI_BAR0_OFFSET,
        fb_candidate,
        fb_region,
    )
    &&& bar_sizing_post(
        h.take(n + 5),
        h.take(n + 8),
        bus,
        device,
        function,
        PCI_BAR2_OFFSET,
        io_region.base,
        io_region,
    )
    &&& enable_post(h.take(n + 8), h, bus, device, function)
}

/// How far bring-up got, and with what.
#[derive(PartialEq, Eq, Structural, Clone, Copy, Debug)]
pub enum BootOutcome {
    /// The slot answered with an all-ones vendor id: no device. Execution
    /// continues without a framebuffer.
    NoDevice,
    /// A device answered but is not a VGA-compatible display controller;
    /// nothing beyond the probe was touched.
    WrongClass(DeviceIdentity),
    /// The framebuffer BAR answered with a region too large to lay the
    /// I/O-port region above it inside the 32-bit address space.
    AddressSpaceExhausted { identity: DeviceIdentity, fb_region: DeviceRegion },
    /// Both regions were sized and assigned, but the display's
    /// identification register did not answer with the magic value, so
    /// mode-setting was aborted with nothing written to the mode registers.
    VgaMismatch { identity: DeviceIdentity, fb_region: DeviceRegion, io_region: DeviceRegion },
    /// The display is up in mode 13h behind the assigned regions.
    Display { identity: DeviceIdentity, fb_region: DeviceRegion, io_region: DeviceRegion },
}

/// Brings the display at the fixed slot up: probe, class check, BAR sizing
/// for the framebuffer and I/O-port regions (the second laid immediately
/// above the first, rounded to the BAR granularity), memory-space enable —
/// strictly after assignment — and finally the mode 13h register sequence.
///
/// When no device answers, and when the device is of the wrong class, the
/// mode registers and the framebuffer stage are skipped entirely.
pub fn bring_up<C: ConfigPort, V: VbePort>(
    cfg: &mut C,
    vbe: &mut V,
    bus: u8,
    device: u8,
    function: u8,
    fb_candidate: u32,
) -> (r: BootOutcome)
    requires
        fb_candidate & 0xF == 0,
    ensures
        ({
            let h0 = old(cfg).history();
            let h = final(cfg).history();
            let n = h0.len() as int;
            match r {
                BootOutcome::NoDevice => {
                    &&& probe_post(h0, h, bus, device, function, ProbeResult::Absent)
                    &&& final(vbe).writes() == old(vbe).writes()
                    &&& final(vbe).reads() == old(vbe).reads()
                },
                BootOutcome::WrongClass(id) => {
                    &&& probe_post(h0, h, bus, device, function, ProbeResult::Present(id))
                    &&& !display_class(id)
                    &&& final(vbe).writes() == old(vbe).writes()
                    &&& final(vbe).reads() == old(vbe).reads()
                },
                BootOutcome::AddressSpaceExhausted { identity, fb_region } => {
                    &&& probe_post(
                        h0,
                        h.take(n + 2),
                        bus,
                        device,
                        function,
                        ProbeResult::Present(identity),
                    )
                    &&& bar_sizing_post(
                        h.take(n + 2),
                        h,
                        bus,
                        device,
                        function,
                        PCI_BAR0_OFFSET,
                        fb_candidate,
                        fb_region,
                    )
                    &&& display_class(identity)
                    &&& align16(fb_candidate + fb_region.size) > u32::MAX
                    &&& final(vbe).writes() == old(vbe).writes()
                    &&& final(vbe).reads() == old(vbe).reads()
                },
                BootOutcome::VgaMismatch { identity, fb_region, io_region } => {
                    &&& scan_cfg_post(
                        h0,
                        h,
                        bus,
                        device,
                        function,
                        fb_candidate,
                        identity,
                        fb_region,
                        io_region,
                    )
                    &&& display_class(identity)
                    &&& fb_region.base == fb_candidate
                    &&& fb_region.purpose == RegionPurpose::Framebuffer
                    &&& io_region.base as int == align16(fb_candidate + fb_region.size)
                    &&& io_region.base >= fb_candidate + fb_region.size
                    &&& io_region.purpose == RegionPurpose::IoPorts
                    &&& final(vbe).writes() == old(vbe).writes()
                    &&& final(vbe).reads().len() == old(vbe).reads().len() + 1
                    &&& final(vbe).reads().last().0 == VBE_INDEX_ID
                    &&& final(vbe).reads().last().1 != VBE_ID_MAGIC
                },
                BootOutcome::Display { identity, fb_region, io_region } => {
                    &&& scan_cfg_post(
                        h0,
                        h,
                        bus,
                        device,
                        function,
                        fb_candidate,
                        identity,
                        fb_region,
                        io_region,
                    )
                    &&& display_class(identity)
                    &&& fb_region.base == fb_candidate
                    &&& fb_region.purpose == RegionPurpose::Framebuffer
                    &&& io_region.base as int == align16(fb_candidate + fb_region.size)
                    &&& io_region.base >= fb_candidate + fb_region.size
                    &&& io_region.purpose == RegionPurpose::IoPorts
                    &&& final(vbe).writes() == old(vbe).writes() + mode_sequence(
                        MODE13_WIDTH,
                        MODE13_HEIGHT,
                        MODE13_BPP,
                    )
                    &&& final(vbe).reads().len() == old(vbe).reads().len() + 1
                    &&& final(vbe).reads().last().0 == VBE_INDEX_ID
                    &&& final(vbe).reads().last().1 == VBE_ID_MAGIC
                },
            }
        }),
{
    let ghost h0 = cfg.history();
    let probe = probe_device(cfg, bus, device, function);
    let identity = match probe {
        ProbeResult::Absent => {
            return BootOutcome::NoDevice;
        },
        ProbeResult::Present(id) => id,
    };
    if !is_display_class(&identity) {
        return BootOutcome::WrongClass(identity);
    }
    let ghost h1 = cfg.history();
    let fb_region = size_and_assign_bar(
        cfg,
        bus,
        device,
        function,
        PCI_BAR0_OFFSET,
        fb_candidate,
        RegionPurpose::Framebuffer,
    );
    let ghost h2 = cfg.history();
    let sum: u64 = fb_candidate as u64 + fb_region.size as u64;
    let io64: u64 = ((sum + 15) / 16) * 16;
    if io64 > 0xFFFF_FFFF {
        return BootOutcome::AddressSpaceExhausted { identity, fb_region };
    }
    let io_candidate: u32 = io64 as u32;
    proof {
        assert(io64 % 16 == 0) by (nonlinear_arith)
            requires
                io64 == ((sum + 15) / 16) * 16,
        ;
        assert(io_candidate & 0xF == 0 && io_candidate == io64) by (bit_vector)
            requires
                io64 % 16 == 0 && io64 <= 0xFFFF_FFFF && io_candidate == io64 as u32,
        ;
        assert(sum <= io64) by (nonlinear_arith)
            requires
                io64 == ((sum + 15) / 16) * 16,
        ;
    }
    let io_region = size_and_assign_bar(
        cfg,
        bus,
        device,
        function,
        PCI_BAR2_OFFSET,
        io_candidate,
        RegionPurpose::IoPorts,
    );
    let ghost h3 = cfg.history();
    enable_memory_space(cfg, bus, device, function);
    let ghost h4 = cfg.history();
    proof {
        let n = h0.len() as int;
        assert(h4.take(n + 2) =~= h1);
        assert(h4.take(n + 5) =~= h2);
        assert(h4.take(n + 8) =~= h3);
    }
    match set_mode13(vbe) {
        Err(_) => BootOutcome::VgaMismatch { identity, fb_region, io_region },
        Ok(()) => BootOutcome::Display { identity, fb_region, io_region },
    }
}

} // verus!
