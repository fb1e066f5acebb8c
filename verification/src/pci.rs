//! PCI configuration scanner.
//!
//! Configuration space is reached through a port that performs one volatile
//! 32-bit access per call and keeps a ghost history of every access, so the
//! contracts below pin down the exact sequence of reads and writes each
//! protocol step performs — ordering is the only correctness-critical
//! sequencing constraint of the BAR-sizing idiom.

use vstd::prelude::*;

verus! {

/// Base of the flat memory-mapped configuration-space window.
pub const PCI_ECAM_BASE: usize = 0x3000_0000;

/// Offset of the vendor/device identification word.
pub const PCI_ID_OFFSET: u16 = 0x00;

/// Offset of the command register.
pub const PCI_COMMAND_OFFSET: u16 = 0x04;

/// Offset of the class/subclass/prog-if word.
pub const PCI_CLASS_OFFSET: u16 = 0x08;

/// Offset of the first base address register.
pub const PCI_BAR0_OFFSET: u16 = 0x10;

/// Offset of the third base address register.
pub const PCI_BAR2_OFFSET: u16 = 0x18;

/// Memory-space-enable bit of the command register.
pub const PCI_COMMAND_MEMORY_SPACE: u32 = 0x2;

/// Flag bits written back into a BAR together with the assigned base.
pub const PCI_BAR_FLAGS: u32 = 0x8;

/// The flat configuration-space address of one register: the ECAM window
/// base combined with the bus, device and function numbers and the
/// word-aligned register offset.
pub open spec fn config_addr_spec(bus: u8, device: u8, function: u8, offset: u16) -> usize {
    PCI_ECAM_BASE | ((bus as usize) << 20) | ((device as usize) << 15) | ((function as usize) << 12)
        | ((offset as usize) & 0xFFC)
}

/// Computes the flat configuration-space address of one register.
pub fn config_addr(bus: u8, device: u8, function: u8, offset: u16) -> (a: usize)
    ensures
        a == config_addr_spec(bus, device, function, offset),
{
    PCI_ECAM_BASE | ((bus as usize) << 20) | ((device as usize) << 15) | ((function as usize) << 12)
        | ((offset as usize) & 0xFFC)
}

/// One volatile configuration-space access, as recorded in a port's history.
pub enum CfgOp {
    /// A 32-bit read that returned `value`.
    Read { addr: usize, value: u32 },
    /// A 32-bit write of `value`.
    Write { addr: usize, value: u32 },
}

/// A window onto PCI configuration space. Each call performs exactly one
/// volatile, ordered 32-bit access; the ghost history records every access in
/// order, with the value a read returned, so protocol functions can promise
/// the exact access sequence they perform.
pub trait ConfigPort: Sized {
    /// Every access performed so far, oldest first.
    spec fn history(&self) -> Seq<CfgOp>;

    /// Performs one volatile 32-bit read. Nothing is promised about the value
    /// the hardware returns.
    fn read32(&mut self, addr: usize) -> (r: u32)
        ensures
            final(self).history() == old(self).history().push(CfgOp::Read { addr, value: r }),
    ;

    /// Performs one volatile 32-bit write.
    fn write32(&mut self, addr: usize, value: u32)
        ensures
            final(self).history() == old(self).history().push(CfgOp::Write { addr, value }),
    ;
}

/// Reads one 32-bit configuration word of the given function.
pub fn read_config<P: ConfigPort>(
    port: &mut P,
    bus: u8,
    device: u8,
    function: u8,
    offset: u16,
) -> (r: u32)
    ensures
        final(port).history() == old(port).history().push(
            CfgOp::Read { addr: config_addr_spec(bus, device, function, offset), value: r },
        ),
{
    let addr = config_addr(bus, device, function, offset);
    port.read32(addr)
}

/// Writes one 32-bit configuration word of the given function.
pub fn write_config<P: ConfigPort>(
    port: &mut P,
    bus: u8,
    device: u8,
    function: u8,
    offset: u16,
    value: u32,
)
    ensures
        final(port).history() == old(port).history().push(
            CfgOp::Write { addr: config_addr_spec(bus, device, function, offset), value },
        ),
{
    let addr = config_addr(bus, device, function, offset);
    port.write32(addr, value)
}

/// Identity registers of a present device, sampled once from configuration
/// space.
#[derive(PartialEq, Eq, Structural, Clone, Copy, Debug)]
pub struct DeviceIdentity {
    pub vendor_id: u16,
    pub device_id: u16,
    pub class_code: u8,
    pub subclass: u8,
    pub prog_if: u8,
}

/// The identity encoded by the vendor/device word and the class word.
pub open spec fn identity_of(id_word: u32, class_word: u32) -> DeviceIdentity {
    DeviceIdentity {
        vendor_id: (id_word & 0xFFFF) as u16,
        device_id: ((id_word >> 16) & 0xFFFF) as u16,
        class_code: ((class_word >> 24) & 0xFF) as u8,
        subclass: ((class_word >> 16) & 0xFF) as u8,
        prog_if: ((class_word >> 8) & 0xFF) as u8,
    }
}

/// Outcome of probing one (bus, device, function) slot. An all-ones vendor id
/// is the configuration-space contract for "no device at that slot" — not an
/// error.
pub enum ProbeResult {
    Absent,
    Present(DeviceIdentity),
}

impl ProbeResult {
    /// Whether the slot holds a device.
    pub open spec fn is_present(&self) -> bool {
        self is Present
    }
}

/// What `probe_device` promises of the history it leaves behind: one read of
/// the identification word when the slot is empty, that read followed by one
/// read of the class word when a device answered — and an identity populated
/// exactly from those two words, never partially.
pub open spec fn probe_post(
    h0: Seq<CfgOp>,
    h1: Seq<CfgOp>,
    bus: u8,
    device: u8,
    function: u8,
    r: ProbeResult,
) -> bool {
    let n = h0.len() as int;
    match r {
        ProbeResult::Absent => {
            &&& h1.len() == h0.len() + 1
            &&& h1.take(n) == h0
            &&& (h1[n] matches CfgOp::Read { addr, value } && addr == config_addr_spec(
                bus,
                device,
                function,
                PCI_ID_OFFSET,
            ) && value & 0xFFFF == 0xFFFF)
        },
        ProbeResult::Present(id) => {
            &&& h1.len() == h0.len() + 2
            &&& h1.take(n) == h0
            &&& (h1[n] matches CfgOp::Read { addr, value } && addr == config_addr_spec(
                bus,
                device,
                function,
                PCI_ID_OFFSET,
            ) && value & 0xFFFF != 0xFFFF && (h1[n + 1] matches CfgOp::Read {
                addr: class_addr,
                value: class_word,
            } && class_addr == config_addr_spec(bus, device, function, PCI_CLASS_OFFSET) && id
                == identity_of(value, class_word)))
        },
    }
}

/// Probes one slot: reads the identification word and, when a device
/// answered, the class word, returning the fully populated identity. A slot
/// whose vendor id reads back all-ones is reported absent, with nothing else
/// touched.
pub fn probe_device<P: ConfigPort>(port: &mut P, bus: u8, device: u8, function: u8) -> (r:
    ProbeResult)
    ensures
        probe_post(old(port).history(), final(port).history(), bus, device, function, r),
{
    let ghost h0 = port.history();
    let id_word = read_config(port, bus, device, function, PCI_ID_OFFSET);
    if id_word & 0xFFFF == 0xFFFF {
        proof {
            assert(final(port).history().take(h0.len() as int) =~= h0);
        }
        ProbeResult::Absent
    } else {
        let class_word = read_config(port, bus, device, function, PCI_CLASS_OFFSET);
        let vendor_id = (id_word & 0xFFFF) as u16;
        let device_id = ((id_word >> 16) & 0xFFFF) as u16;
        let class_code = ((class_word >> 24) & 0xFF) as u8;
        let subclass = ((class_word >> 16) & 0xFF) as u8;
        let prog_if = ((class_word >> 8) & 0xFF) as u8;
        proof {
            assert(final(port).history().take(h0.len() as int) =~= h0);
        }
        ProbeResult::Present(
            DeviceIdentity { vendor_id, device_id, class_code, subclass, prog_if },
        )
    }
}

/// The region size a BAR sizing readback encodes: the low four flag bits
/// masked off, the rest inverted and incremented, truncated to 32 bits. An
/// unused BAR reads back zero and so yields size zero — a valid result.
pub open spec fn bar_size_spec(readback: u32) -> u32 {
    (((!(readback & 0xFFFF_FFF0u32)) as u64 + 1) as u32)
}

/// A readback in the shape every implemented memory BAR answers with: ones
/// from the top of the word down to the bit of its power-of-two size, which
/// is at least the 16-byte granularity.
pub open spec fn well_formed_bar_mask(readback: u32) -> bool {
    exists|s: u32| 4 <= s < 32 && readback & 0xFFFF_FFF0u32 == (0xFFFF_FFFFu32 << s)
}

/// Whether `x` is a power of two that fits in 32 bits.
pub open spec fn is_power_of_two(x: u32) -> bool {
    exists|k: u32| k < 32 && x == (1u32 << k)
}

/// The size decoded from any well-formed BAR sizing readback is a power of
/// two and at least 16, the minimum memory BAR granularity.
pub proof fn lemma_bar_size_power_of_two(readback: u32)
    requires
        well_formed_bar_mask(readback),
    ensures
        is_power_of_two(bar_size_spec(readback)),
        bar_size_spec(readback) >= 16,
{
    let s = choose|s: u32| 4 <= s < 32 && readback & 0xFFFF_FFF0u32 == (0xFFFF_FFFFu32 << s);
    assert((((!(readback & 0xFFFF_FFF0u32)) as u64 + 1) as u32) == (1u32 << s) && (1u32 << s)
        >= 16) by (bit_vector)
        requires
            4 <= s < 32 && readback & 0xFFFF_FFF0u32 == (0xFFFF_FFFFu32 << s),
    ;
    assert(s < 32 && bar_size_spec(readback) == (1u32 << s));
}

/// The purpose a discovered region serves.
#[derive(PartialEq, Eq, Structural, Clone, Copy, Debug)]
pub enum RegionPurpose {
    Framebuffer,
    IoPorts,
}

/// An address range discovered for one BAR slot: computed once during boot
/// and immutable afterwards. The base carries no flag bits; the size is what
/// the sizing readback encoded.
#[derive(PartialEq, Eq, Structural, Clone, Copy, Debug)]
pub struct DeviceRegion {
    pub base: u32,
    pub size: u32,
    pub purpose: RegionPurpose,
}

/// What `size_and_assign_bar` promises of the history it leaves behind: the
/// all-ones write, one readback whose masked inversion is the returned size,
/// then the write assigning the candidate base with the flag bits set — in
/// exactly that order, with nothing else touched.
pub open spec fn bar_sizing_post(
    h0: Seq<CfgOp>,
    h1: Seq<CfgOp>,
    bus: u8,
    device: u8,
    function: u8,
    bar_offset: u16,
    candidate_base: u32,
    r: DeviceRegion,
) -> bool {
    let n = h0.len() as int;
    let a = config_addr_spec(bus, device, function, bar_offset);
    &&& h1.len() == h0.len() + 3
    &&& h1.take(n) == h0
    &&& h1[n] == (CfgOp::Write { addr: a, value: 0xFFFF_FFFFu32 })
    &&& (h1[n + 1] matches CfgOp::Read { addr: read_addr, value: readback } && read_addr == a
        && r.size == bar_size_spec(readback))
    &&& h1[n + 2] == (CfgOp::Write { addr: a, value: candidate_base | PCI_BAR_FLAGS })
    &&& r.base == candidate_base
}

/// Runs the standard BAR-sizing idiom on one BAR slot: writes all-ones, reads
/// back the address mask, decodes the region size from it, and assigns
/// `candidate_base` with the flag bits preserved. A size of zero reports an
/// unused BAR, not an error. The caller chooses non-overlapping candidate
/// bases for successive BARs.
pub fn size_and_assign_bar<P: ConfigPort>(
    port: &mut P,
    bus: u8,
    device: u8,
    function: u8,
    bar_offset: u16,
    candidate_base: u32,
    purpose: RegionPurpose,
) -> (r: DeviceRegion)
    requires
        candidate_base & 0xF == 0,
    ensures
        bar_sizing_post(
            old(port).history(),
            final(port).history(),
            bus,
            device,
            function,
            bar_offset,
            candidate_base,
            r,
        ),
        r.purpose == purpose,
{
    let ghost h0 = port.history();
    write_config(port, bus, device, function, bar_offset, 0xFFFF_FFFF);
    let readback = read_config(port, bus, device, function, bar_offset);
    let inverted: u32 = !(readback & 0xFFFF_FFF0);
    let size: u32 = #[verifier::truncate] ((inverted as u64 + 1) as u32);
    write_config(port, bus, device, function, bar_offset, candidate_base | PCI_BAR_FLAGS);
    proof {
        assert(final(port).history().take(h0.len() as int) =~= h0);
    }
    DeviceRegion { base: candidate_base, size, purpose }
}

/// What `enable_memory_space` promises of the history it leaves behind: one
/// read of the command register followed by one write of the same value with
/// the memory-space-enable bit set and every other bit preserved.
pub open spec fn enable_post(
    h0: Seq<CfgOp>,
    h1: Seq<CfgOp>,
    bus: u8,
    device: u8,
    function: u8,
) -> bool {
    let n = h0.len() as int;
    let a = config_addr_spec(bus, device, function, PCI_COMMAND_OFFSET);
    &&& h1.len() == h0.len() + 2
    &&& h1.take(n) == h0
    &&& (h1[n] matches CfgOp::Read { addr, value } && addr == a && h1[n + 1] == (CfgOp::Write {
        addr: a,
        value: value | PCI_COMMAND_MEMORY_SPACE,
    }))
}

/// Sets the memory-space-enable bit of the command register, preserving all
/// other bits. Must run only after BAR assignment, so that no unassigned
/// address is made live.
pub fn enable_memory_space<P: ConfigPort>(port: &mut P, bus: u8, device: u8, function: u8)
    ensures
        enable_post(old(port).history(), final(port).history(), bus, device, function),
{
    let ghost h0 = port.history();
    let cmd = read_config(port, bus, device, function, PCI_COMMAND_OFFSET);
    write_config(port, bus, device, function, PCI_COMMAND_OFFSET, cmd | PCI_COMMAND_MEMORY_SPACE);
    proof {
        assert(final(port).history().take(h0.len() as int) =~= h0);
    }
}

} // verus!
