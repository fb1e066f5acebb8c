//! Hardware bring-up layer for a small kernel, modelled over explicit port
//! interfaces: a PCI configuration scanner with BAR auto-sizing, a legacy
//! 256-color VGA mode programmer, a palette-indexed framebuffer writer, and a
//! byte-oriented console transport.

use vstd::prelude::*;

pub mod boot;
pub mod console;
pub mod framebuffer;
pub mod pci;
pub mod sim;
pub mod stdout;
pub mod vga;

verus! {

/// Returns a console façade over the given transport, mirroring the
/// crate-root convenience accessor for standard output.
pub fn stdout<T: crate::console::Transport>(transport: T) -> (s: crate::console::StdOut<T>)
    ensures
        s.sent() == transport.sent(),
{
    crate::console::StdOut::new(transport)
}

} // verus!
