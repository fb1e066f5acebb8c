//! Console transport and façade.
//!
//! The privileged environment exchanges one byte at a time with the kernel.
//! The [`Transport`] trait captures that capability together with a ghost
//! history of everything sent and every poll made, so that callers can state
//! exactly which bytes left in which order.

use vstd::prelude::*;
use vstd::string::StringSliceAdditionalSpecFns;

verus! {

/// Extension id selecting a privileged-call operation.
#[derive(PartialEq, Eq, Structural)]
pub struct Eid(pub usize);

impl Eid {
    /// Transmit one console byte.
    pub const CONSOLE_PUTCHAR: usize = 1;

    /// Request one console byte.
    pub const CONSOLE_GETCHAR: usize = 2;

    /// Request environment termination.
    pub const SHUTDOWN: usize = 8;
}

/// A stateless capability to exchange single bytes with the surrounding
/// environment. Every transfer is synchronous: there is no buffering and no
/// queue. The two ghost histories record, in order, each byte handed out and
/// the answer of each poll, so a contract can promise that `'A'` reaches the
/// environment strictly before `'B'`.
pub trait Transport: Sized {
    /// Every byte transmitted so far, oldest first.
    spec fn sent(&self) -> Seq<u8>;

    /// The answer of every poll made so far, oldest first. `None` stands for
    /// the out-of-range sentinel the call contract reserves for "no data".
    spec fn polled(&self) -> Seq<Option<u8>>;

    /// Transmits one byte; always succeeds from the caller's point of view.
    fn put_byte(&mut self, b: u8)
        ensures
            final(self).sent() == old(self).sent().push(b),
            final(self).polled() == old(self).polled(),
    ;

    /// Requests one byte without spinning: a single invocation returns either
    /// with data or with "no data". Nothing is promised about which.
    fn get_byte(&mut self) -> (r: Option<u8>)
        ensures
            final(self).polled() == old(self).polled().push(r),
            final(self).sent() == old(self).sent(),
    ;
}

/// Outputs a single byte to the console.
pub fn putchar<T: Transport>(t: &mut T, ch: u8)
    ensures
        final(t).sent() == old(t).sent().push(ch),
        final(t).polled() == old(t).polled(),
{
    t.put_byte(ch);
}

/// Reads a single byte from the console; `None` when no input is pending.
pub fn getchar<T: Transport>(t: &mut T) -> (r: Option<u8>)
    ensures
        final(t).polled() == old(t).polled().push(r),
        final(t).sent() == old(t).sent(),
{
    t.get_byte()
}

/// Maps a raw privileged-call return value to a console byte. Values above
/// the byte range are the "no data" sentinel.
pub open spec fn console_byte_of(raw: usize) -> Option<u8> {
    if raw <= 255 {
        Some(raw as u8)
    } else {
        None
    }
}

/// Decodes the register value a get-character call handed back.
pub fn decode_console_byte(raw: usize) -> (r: Option<u8>)
    ensures
        r == console_byte_of(raw),
{
    if raw <= 255 {
        Some(raw as u8)
    } else {
        None
    }
}

/// What one poll echoes back: the byte itself, unless the poll reported no
/// data or handed back a literal zero, which stands for "no actual character".
pub open spec fn echo_of(p: Option<u8>) -> Seq<u8> {
    match p {
        Some(c) => if c != 0 {
            seq![c]
        } else {
            Seq::empty()
        },
        None => Seq::empty(),
    }
}

/// One turn of the interactive read loop: polls for a byte and echoes it back
/// unless the poll reported no data or a literal zero byte.
pub fn echo_once<T: Transport>(t: &mut T) -> (r: Option<u8>)
    ensures
        final(t).polled() == old(t).polled().push(r),
        final(t).sent() == old(t).sent() + echo_of(r),
{
    let r = t.get_byte();
    match r {
        Some(c) => {
            if c != 0 {
                t.put_byte(c);
                proof {
                    assert(final(t).sent() =~= old(t).sent() + echo_of(r));
                }
            } else {
                proof {
                    assert(final(t).sent() =~= old(t).sent() + echo_of(r));
                }
            }
        }
        None => {
            proof {
                assert(final(t).sent() =~= old(t).sent() + echo_of(r));
            }
        }
    }
    r
}

/// Everything a run of polls echoes back, in poll order.
pub open spec fn echoes_of(ps: Seq<Option<u8>>) -> Seq<u8>
    decreases ps.len(),
{
    if ps.len() == 0 {
        Seq::empty()
    } else {
        echoes_of(ps.drop_last()) + echo_of(ps.last())
    }
}

/// Runs the interactive read loop for at most `max_polls` turns: each turn
/// polls for a byte and echoes every non-zero byte back, in order. Stops
/// early the first time the environment reports no data — so a run that used
/// fewer than `max_polls` turns ends on an empty poll. (The kernel's own
/// loop never stops polling; a bound is what makes one run of it a value.)
pub fn echo_poll_run<T: Transport>(t: &mut T, max_polls: usize) -> (polls: usize)
    ensures
        polls <= max_polls,
        final(t).polled().len() == old(t).polled().len() + polls,
        final(t).polled().take(old(t).polled().len() as int) == old(t).polled(),
        final(t).sent() == old(t).sent() + echoes_of(
            final(t).polled().skip(old(t).polled().len() as int),
        ),
        polls < max_polls ==> final(t).polled().last() is None,
{
    let ghost n0 = t.polled().len() as int;
    let mut polls: usize = 0;
    let mut stopped = false;
    while polls < max_polls && !stopped
        invariant
            polls <= max_polls,
            t.polled().len() == n0 + polls,
            t.polled().take(n0) == old(t).polled(),
            n0 == old(t).polled().len(),
            t.sent() == old(t).sent() + echoes_of(t.polled().skip(n0)),
            stopped ==> polls > 0 && t.polled().last() is None,
        decreases max_polls - polls,
    {
        let ghost p_entry = t.polled();
        let r = echo_once(t);
        proof {
            let run = p_entry.skip(n0).push(r);
            assert(t.polled().skip(n0) =~= run);
            assert(run.drop_last() =~= p_entry.skip(n0));
            assert(echoes_of(run) == echoes_of(p_entry.skip(n0)) + echo_of(r));
            assert(old(t).sent() + echoes_of(run) =~= (old(t).sent() + echoes_of(
                p_entry.skip(n0),
            )) + echo_of(r));
            assert(t.polled().take(n0) =~= old(t).polled());
        }
        if r.is_none() {
            stopped = true;
        }
        polls = polls + 1;
    }
    polls
}

/// Standard-output façade over a transport: multi-byte writes are transported
/// byte by byte, in order, with no buffering.
pub struct StdOut<T: Transport> {
    transport: T,
}

impl<T: Transport> StdOut<T> {
    /// Every byte this façade has transmitted, oldest first.
    pub closed spec fn sent(&self) -> Seq<u8> {
        self.transport.sent()
    }

    /// Wraps a transport.
    pub fn new(transport: T) -> (s: Self)
        ensures
            s.sent() == transport.sent(),
    {
        StdOut { transport }
    }

    /// Hands the transport back out.
    pub fn into_transport(self) -> (t: T)
        ensures
            t.sent() == self.sent(),
    {
        self.transport
    }

    /// Transmits every byte of `bytes` in order: the environment receives
    /// `bytes[0]` strictly before `bytes[1]`, and so on.
    pub fn write_bytes(&mut self, bytes: &[u8])
        ensures
            final(self).sent() == old(self).sent() + bytes@,
    {
        let n = bytes.len();
        let mut i: usize = 0;
        while i < n
            invariant
                i <= n,
                n == bytes@.len(),
                self.sent() == old(self).sent() + bytes@.take(i as int),
            decreases n - i,
        {
            self.transport.put_byte(bytes[i]);
            proof {
                assert(old(self).sent() + bytes@.take(i as int + 1) =~= (old(self).sent()
                    + bytes@.take(i as int)).push(bytes@[i as int]));
            }
            i = i + 1;
        }
        proof {
            assert(bytes@.take(n as int) =~= bytes@);
        }
    }

    /// Transmits the bytes of `s` in order.
    pub fn write_str(&mut self, s: &str)
        ensures
            final(self).sent() == old(self).sent() + s.spec_bytes(),
    {
        self.write_bytes(s.as_bytes());
    }

    /// Transmits `value` as exactly `digits` lowercase hexadecimal digits,
    /// most significant first, zero-padded on the left.
    pub fn write_hex(&mut self, value: u32, digits: usize)
        ensures
            final(self).sent() == old(self).sent() + hex_bytes(value, digits as nat),
        decreases digits,
    {
        if digits > 0 {
            self.write_hex(value >> 4, digits - 1);
            proof {
                assert(value & 0xF < 16) by (bit_vector);
            }
            let d = (value & 0xF) as u8;
            let ch = if d < 10 {
                d + 0x30
            } else {
                d - 10 + 0x61
            };
            self.transport.put_byte(ch);
            proof {
                assert(value >> 4 == value / 16 && value & 0xF == value % 16 && value % 16
                    < 16) by (bit_vector);
                assert(old(self).sent() + hex_bytes(value as u32, digits as nat) =~= (old(
                    self,
                ).sent() + hex_bytes(value as u32 / 16, (digits - 1) as nat)).push(
                    hex_digit((value % 16) as u8),
                ));
            }
        } else {
            proof {
                assert(old(self).sent() + hex_bytes(value, digits as nat) =~= old(self).sent());
            }
        }
    }
}

/// The ASCII byte of one lowercase hexadecimal digit.
pub open spec fn hex_digit(d: u8) -> u8
    recommends
        d < 16,
{
    if d < 10 {
        (d + 0x30) as u8
    } else {
        (d + 0x57) as u8
    }
}

/// `value` written as exactly `digits` lowercase hexadecimal digits, most
/// significant first, zero-padded on the left and truncated to the lowest
/// `digits` digits.
pub open spec fn hex_bytes(value: u32, digits: nat) -> Seq<u8>
    decreases digits,
{
    if digits == 0 {
        Seq::empty()
    } else {
        hex_bytes(value / 16, (digits - 1) as nat).push(hex_digit((value % 16) as u8))
    }
}

/// Returns a console façade over the given transport.
pub fn stdout<T: Transport>(transport: T) -> (s: StdOut<T>)
    ensures
        s.sent() == transport.sent(),
{
    StdOut::new(transport)
}

} // verus!
