//! In-memory devices implementing the port traits.
//!
//! The protocols in this crate are verified against the port contracts
//! alone; these simulated devices give the ports a concrete, fully checked
//! implementation, so the whole bring-up pipeline can run and be exercised
//! in ordinary memory — a fake transport records and replays bytes, a fake
//! configuration window answers like a single fixed device, a fake register
//! file latches what the mode programmer wrote.

use vstd::prelude::*;
use crate::console::Transport;
use crate::pci::{
    config_addr, CfgOp, ConfigPort, PCI_BAR0_OFFSET, PCI_BAR2_OFFSET, PCI_CLASS_OFFSET,
    PCI_COMMAND_OFFSET, PCI_ID_OFFSET,
};
use crate::vga::{
    VbePort, VBE_INDEX_BPP, VBE_INDEX_ENABLE, VBE_INDEX_ID, VBE_INDEX_XRES, VBE_INDEX_YRES,
};

verus! {

/// A configuration-space window behind which a single device sits, or none.
/// Reads outside the modelled registers, and every read while no device is
/// present, answer all-ones, as an empty slot does. A BAR latches only the
/// bits its size mask keeps writable, which is what makes the sizing idiom
/// come back with the region size.
pub struct SimConfigSpace {
    /// Bus number the device answers at.
    pub bus: u8,
    /// Device number the device answers at.
    pub device: u8,
    /// Function number the device answers at.
    pub function: u8,
    /// Whether any device sits behind the window.
    pub present: bool,
    /// The identification word: vendor id in the low half, device id above.
    pub id_word: u32,
    /// The class word: class, subclass, prog-if from the top byte down.
    pub class_word: u32,
    /// The command register.
    pub command: u32,
    /// The latched first BAR.
    pub bar0: u32,
    /// Which bits of the first BAR are writable: ones from the top down to
    /// the bit of the backing region's size.
    pub bar0_mask: u32,
    /// The latched third BAR.
    pub bar2: u32,
    /// Which bits of the third BAR are writable.
    pub bar2_mask: u32,
    /// Every access performed, in order.
    pub accesses: Ghost<Seq<CfgOp>>,
}

impl SimConfigSpace {
    /// A window with the given device behind it, no access performed yet,
    /// command register and BARs zeroed.
    pub fn new(
        bus: u8,
        device: u8,
        function: u8,
        present: bool,
        id_word: u32,
        class_word: u32,
        bar0_mask: u32,
        bar2_mask: u32,
    ) -> (s: Self)
        ensures
            s.history() == Seq::<CfgOp>::empty(),
            s == (SimConfigSpace {
                bus,
                device,
                function,
                present,
                id_word,
                class_word,
                command: 0u32,
                bar0: 0u32,
                bar0_mask,
                bar2: 0u32,
                bar2_mask,
                accesses: s.accesses,
            }),
    {
        SimConfigSpace {
            bus,
            device,
            function,
            present,
            id_word,
            class_word,
            command: 0,
            bar0: 0,
            bar0_mask,
            bar2: 0,
            bar2_mask,
            accesses: Ghost(Seq::empty()),
        }
    }
}

impl ConfigPort for SimConfigSpace {
    closed spec fn history(&self) -> Seq<CfgOp> {
        self.accesses@
    }

    fn read32(&mut self, addr: usize) -> (r: u32) {
        let v: u32 = if !self.present {
            0xFFFF_FFFF
        } else if addr == config_addr(self.bus, self.device, self.function, PCI_ID_OFFSET) {
            self.id_word
        } else if addr == config_addr(self.bus, self.device, self.function, PCI_CLASS_OFFSET) {
            self.class_word
        } else if addr == config_addr(self.bus, self.device, self.function, PCI_COMMAND_OFFSET) {
            self.command
        } else if addr == config_addr(self.bus, self.device, self.function, PCI_BAR0_OFFSET) {
            self.bar0
        } else if addr == config_addr(self.bus, self.device, self.function, PCI_BAR2_OFFSET) {
            self.bar2
        } else {
            0xFFFF_FFFF
        };
        proof {
            self.accesses@ = self.accesses@.push(CfgOp::Read { addr, value: v });
        }
        v
    }

    fn write32(&mut self, addr: usize, value: u32) {
        if self.present {
            if addr == config_addr(self.bus, self.device, self.function, PCI_COMMAND_OFFSET) {
                self.command = value;
            } else if addr == config_addr(self.bus, self.device, self.function, PCI_BAR0_OFFSET) {
                self.bar0 = value & self.bar0_mask;
            } else if addr == config_addr(self.bus, self.device, self.function, PCI_BAR2_OFFSET) {
                self.bar2 = value & self.bar2_mask;
            }
        }
        proof {
            self.accesses@ = self.accesses@.push(CfgOp::Write { addr, value });
        }
    }
}

/// An extended-register file behind an index/data pair. The identification
/// register answers with whatever the device was built with and ignores
/// writes; the mode registers latch what was last written.
pub struct SimVbeDevice {
    /// What the identification register answers.
    pub id: u16,
    /// The latched x-resolution register.
    pub xres: u16,
    /// The latched y-resolution register.
    pub yres: u16,
    /// The latched bits-per-pixel register.
    pub bpp: u16,
    /// The latched enable register.
    pub enable: u16,
    /// Every register write performed, in order.
    pub written: Ghost<Seq<(u16, u16)>>,
    /// Every register read performed, in order.
    pub answered: Ghost<Seq<(u16, u16)>>,
}

impl SimVbeDevice {
    /// A register file whose identification register answers `id`, every
    /// mode register zeroed, no access performed yet.
    pub fn new(id: u16) -> (s: Self)
        ensures
            s.writes() == Seq::<(u16, u16)>::empty(),
            s.reads() == Seq::<(u16, u16)>::empty(),
            s == (SimVbeDevice {
                id,
                xres: 0u16,
                yres: 0u16,
                bpp: 0u16,
                enable: 0u16,
                written: s.written,
                answered: s.answered,
            }),
    {
        SimVbeDevice {
            id,
            xres: 0,
            yres: 0,
            bpp: 0,
            enable: 0,
            written: Ghost(Seq::empty()),
            answered: Ghost(Seq::empty()),
        }
    }
}

impl VbePort for SimVbeDevice {
    closed spec fn writes(&self) -> Seq<(u16, u16)> {
        self.written@
    }

    closed spec fn reads(&self) -> Seq<(u16, u16)> {
        self.answered@
    }

    fn write_reg(&mut self, index: u16, value: u16) {
        if index == VBE_INDEX_XRES {
            self.xres = value;
        } else if index == VBE_INDEX_YRES {
            self.yres = value;
        } else if index == VBE_INDEX_BPP {
            self.bpp = value;
        } else if index == VBE_INDEX_ENABLE {
            self.enable = value;
        }
        proof {
            self.written@ = self.written@.push((index, value));
        }
    }

    fn read_reg(&mut self, index: u16) -> (r: u16) {
        let v: u16 = if index == VBE_INDEX_ID {
            self.id
        } else if index == VBE_INDEX_XRES {
            self.xres
        } else if index == VBE_INDEX_YRES {
            self.yres
        } else if index == VBE_INDEX_BPP {
            self.bpp
        } else if index == VBE_INDEX_ENABLE {
            self.enable
        } else {
            0
        };
        proof {
            self.answered@ = self.answered@.push((index, v));
        }
        v
    }
}

/// A transport that records every byte sent and replays a scripted input:
/// each poll hands out the next scripted byte until the script runs dry,
/// then reports no data.
pub struct SimTransport {
    /// The scripted input, handed out front to back.
    pub incoming: Vec<u8>,
    /// How much of the script was handed out already.
    pub cursor: usize,
    /// Every byte sent, in order.
    pub outgoing: Vec<u8>,
    /// The answer of every poll, in order.
    pub poll_log: Ghost<Seq<Option<u8>>>,
}

impl SimTransport {
    /// A transport with the given input script, nothing sent and nothing
    /// polled yet.
    pub fn new(incoming: Vec<u8>) -> (t: Self)
        ensures
            t.sent() == Seq::<u8>::empty(),
            t.polled() == Seq::<Option<u8>>::empty(),
            t.incoming@ == incoming@,
            t.cursor == 0,
    {
        SimTransport { incoming, cursor: 0, outgoing: Vec::new(), poll_log: Ghost(Seq::empty()) }
    }

    /// The bytes sent so far, for inspection.
    pub fn output(&self) -> (r: &Vec<u8>)
        ensures
            r@ == self.sent(),
    {
        &self.outgoing
    }
}

impl Transport for SimTransport {
    closed spec fn sent(&self) -> Seq<u8> {
        self.outgoing@
    }

    closed spec fn polled(&self) -> Seq<Option<u8>> {
        self.poll_log@
    }

    fn put_byte(&mut self, b: u8) {
        self.outgoing.push(b);
    }

    fn get_byte(&mut self) -> (r: Option<u8>) {
        let r: Option<u8> = if self.cursor < self.incoming.len() {
            let c = self.incoming[self.cursor];
            self.cursor = self.cursor + 1;
            Some(c)
        } else {
            None
        };
        proof {
            self.poll_log@ = self.poll_log@.push(r);
        }
        r
    }
}

} // verus!
