//! VGA mode programmer.
//!
//! The display's extended registers are reached through an index/data
//! register pair at fixed offsets from the discovered I/O-port region. The
//! port trait records every register access in order, so `set_mode` can
//! promise the exact programming sequence: identification check first, then
//! resolution, depth, and only then the enable write — enabling before the
//! other fields are set would program a corrupted mode.

use vstd::prelude::*;

verus! {

/// Identification register index.
pub const VBE_INDEX_ID: u16 = 0;

/// X-resolution register index.
pub const VBE_INDEX_XRES: u16 = 1;

/// Y-resolution register index.
pub const VBE_INDEX_YRES: u16 = 2;

/// Bits-per-pixel register index.
pub const VBE_INDEX_BPP: u16 = 3;

/// Enable register index.
pub const VBE_INDEX_ENABLE: u16 = 4;

/// Magic value the identification register answers with when the expected
/// device sits behind the register pair.
pub const VBE_ID_MAGIC: u16 = 0xB0C5;

/// Enable-register bit that turns the mode on.
pub const VBE_ENABLED: u16 = 0x1;

/// Enable-register bit that selects the linear framebuffer.
pub const VBE_LINEAR_FRAMEBUFFER: u16 = 0x2;

/// Width of legacy mode 13h.
pub const MODE13_WIDTH: u16 = 320;

/// Height of legacy mode 13h.
pub const MODE13_HEIGHT: u16 = 200;

/// Bits per pixel of legacy mode 13h.
pub const MODE13_BPP: u16 = 8;

/// The display's extended registers, reached through an index/data pair.
/// Each call selects one register and performs one ordered access on it; the
/// ghost histories record every register write and every register read in
/// order, with the value a read returned.
pub trait VbePort: Sized {
    /// Every register write performed so far, oldest first, as (index, value).
    spec fn writes(&self) -> Seq<(u16, u16)>;

    /// Every register read performed so far, oldest first, as (index, value).
    spec fn reads(&self) -> Seq<(u16, u16)>;

    /// Writes one extended register.
    fn write_reg(&mut self, index: u16, value: u16)
        ensures
            final(self).writes() == old(self).writes().push((index, value)),
            final(self).reads() == old(self).reads(),
    ;

    /// Reads one extended register. Nothing is promised about the value the
    /// hardware returns.
    fn read_reg(&mut self, index: u16) -> (r: u16)
        ensures
            final(self).reads() == old(self).reads().push((index, r)),
            final(self).writes() == old(self).writes(),
    ;
}

/// Why mode-setting was aborted.
#[derive(PartialEq, Eq, Structural, Clone, Copy, Debug)]
pub enum ModeError {
    /// The identification register did not answer with the magic value: the
    /// wrong device, or an unready bus. Fatal for mode-setting.
    IdMismatch,
}

/// The exact register sequence that programs a mode: resolution and depth
/// first, the enable write with the linear-framebuffer flag strictly last.
pub open spec fn mode_sequence(width: u16, height: u16, bpp: u16) -> Seq<(u16, u16)> {
    seq![
        (VBE_INDEX_XRES, width),
        (VBE_INDEX_YRES, height),
        (VBE_INDEX_BPP, bpp),
        (VBE_INDEX_ENABLE, VBE_ENABLED | VBE_LINEAR_FRAMEBUFFER),
    ]
}

/// Programs the display into the requested mode. First reads the
/// identification register: on the magic answer it writes exactly
/// [`mode_sequence`] in order; on any other answer it aborts with nothing
/// written, reporting the mismatch rather than silently ignoring it.
pub fn set_mode<V: VbePort>(port: &mut V, width: u16, height: u16, bpp: u16) -> (r: Result<
    (),
    ModeError,
>)
    ensures
        final(port).reads().len() == old(port).reads().len() + 1,
        final(port).reads().take(old(port).reads().len() as int) == old(port).reads(),
        final(port).reads().last().0 == VBE_INDEX_ID,
        r is Ok <==> final(port).reads().last().1 == VBE_ID_MAGIC,
        r is Ok ==> final(port).writes() == old(port).writes() + mode_sequence(
            width,
            height,
            bpp,
        ),
        r is Err ==> final(port).writes() == old(port).writes() && r == Err::<
            (),
            ModeError,
        >(ModeError::IdMismatch),
{
    let ghost r0 = port.reads();
    let id = port.read_reg(VBE_INDEX_ID);
    proof {
        assert(port.reads().take(r0.len() as int) =~= r0);
    }
    if id != VBE_ID_MAGIC {
        return Err(ModeError::IdMismatch);
    }
    let ghost w0 = port.writes();
    port.write_reg(VBE_INDEX_XRES, width);
    port.write_reg(VBE_INDEX_YRES, height);
    port.write_reg(VBE_INDEX_BPP, bpp);
    port.write_reg(VBE_INDEX_ENABLE, VBE_ENABLED | VBE_LINEAR_FRAMEBUFFER);
    proof {
        assert(final(port).writes() =~= w0 + mode_sequence(width, height, bpp));
    }
    Ok(())
}

/// Programs legacy mode 13h: 320 by 200 pixels, 256 indexed colors, linear
/// framebuffer.
pub fn set_mode13<V: VbePort>(port: &mut V) -> (r: Result<(), ModeError>)
    ensures
        final(port).reads().len() == old(port).reads().len() + 1,
        final(port).reads().take(old(port).reads().len() as int) == old(port).reads(),
        final(port).reads().last().0 == VBE_INDEX_ID,
        r is Ok <==> final(port).reads().last().1 == VBE_ID_MAGIC,
        r is Ok ==> final(port).writes() == old(port).writes() + mode_sequence(
            MODE13_WIDTH,
            MODE13_HEIGHT,
            MODE13_BPP,
        ),
        r is Err ==> final(port).writes() == old(port).writes() && r == Err::<
            (),
            ModeError,
        >(ModeError::IdMismatch),
{
    set_mode(port, MODE13_WIDTH, MODE13_HEIGHT, MODE13_BPP)
}

} // verus!
