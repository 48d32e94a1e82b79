//! The raw input mode: which line-discipline flags are cleared and set so
//! that keys arrive one byte at a time, unechoed, with a short read timeout.
use vstd::prelude::*;

verus! {

/// The parts of the terminal's attributes that raw mode changes.
#[derive(Clone, Copy, Debug, PartialEq, Eq, Structural)]
pub struct ModeFlags {
    pub input: u32,
    pub output: u32,
    pub control: u32,
    pub local: u32,
    /// Fewest bytes a read waits for.
    pub min_bytes: u8,
    /// Longest a read waits, in tenths of a second.
    pub read_timeout: u8,
}

/// The platform's values of the flags that raw mode touches.
#[derive(Clone, Copy, Debug, PartialEq, Eq, Structural)]
pub struct ModeBits {
    /// Break raises an interrupt.
    pub brkint: u32,
    /// Carriage return is read as newline.
    pub icrnl: u32,
    /// Parity checking.
    pub inpck: u32,
    /// The eighth bit is stripped.
    pub istrip: u32,
    /// Software flow control on output.
    pub ixon: u32,
    /// Output post-processing.
    pub opost: u32,
    /// Eight-bit characters.
    pub cs8: u32,
    /// Echo of input.
    pub echo: u32,
    /// Canonical, line-buffered input.
    pub icanon: u32,
    /// Extended input processing.
    pub iexten: u32,
    /// Signal-generating characters.
    pub isig: u32,
}

pub open spec fn input_off(b: ModeBits) -> u32 {
    b.brkint | b.icrnl | b.inpck | b.istrip | b.ixon
}

pub open spec fn local_off(b: ModeBits) -> u32 {
    b.echo | b.icanon | b.iexten | b.isig
}

/// The raw-mode settings derived from the `current` settings: break, CR-to-NL, parity,
/// stripping and flow control off on input; post-processing off on output;
/// eight-bit characters; echo, canonical mode, extended processing and
/// signals off; reads return after at most one tenth of a second, with no
/// byte if none came.
pub fn raw_mode_flags(current: ModeFlags, bits: ModeBits) -> (r: ModeFlags)
    ensures
        r.input == current.input & !input_off(bits),
        r.output == current.output & !bits.opost,
        r.control == current.control | bits.cs8,
        r.local == current.local & !local_off(bits),
        r.min_bytes == 0,
        r.read_timeout == 1,
{
    ModeFlags {
        input: current.input & !(bits.brkint | bits.icrnl | bits.inpck | bits.istrip | bits.ixon),
        output: current.output & !bits.opost,
        control: current.control | bits.cs8,
        local: current.local & !(bits.echo | bits.icanon | bits.iexten | bits.isig),
        min_bytes: 0,
        read_timeout: 1,
    }
}

/// In raw mode every flag that raw mode turns off is clear, the eight-bit
/// flag is set, and every other bit is as it was.
pub proof fn raw_mode_keeps_other_bits(current: ModeFlags, bits: ModeBits, r: ModeFlags, m: u32)
    requires
        r.input == current.input & !input_off(bits),
        r.local == current.local & !local_off(bits),
        r.control == current.control | bits.cs8,
    ensures
        r.input & input_off(bits) == 0,
        r.local & local_off(bits) == 0,
        r.control & bits.cs8 == bits.cs8,
        m & input_off(bits) == 0 ==> r.input & m == current.input & m,
        m & local_off(bits) == 0 ==> r.local & m == current.local & m,
{
    let (ri, oi, ki) = (r.input, current.input, input_off(bits));
    let (rl, ol, kl) = (r.local, current.local, local_off(bits));
    let (rc, oc, c8) = (r.control, current.control, bits.cs8);
    assert(ri & ki == 0 && (m & ki == 0 ==> ri & m == oi & m)) by (bit_vector)
        requires
            ri == oi & !ki,
    ;
    assert(rl & kl == 0 && (m & kl == 0 ==> rl & m == ol & m)) by (bit_vector)
        requires
            rl == ol & !kl,
    ;
    assert(rc & c8 == c8) by (bit_vector)
        requires
            rc == oc | c8,
    ;
}

} // verus!
