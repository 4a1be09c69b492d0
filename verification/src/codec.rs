//! Command encoding: the fixed-layout byte buffers the device firmware
//! interprets, and the control-transfer parameters they are sent with.

use vstd::prelude::*;

verus! {

/// One color of a lighting zone: three independent 8-bit channels.
#[derive(Clone, Copy, Debug, PartialEq, Eq, Structural)]
pub struct Color {
    pub r: u8,
    pub g: u8,
    pub b: u8,
}

/// The byte at offset `i` of the light-level command buffer.
pub open spec fn light_buffer_byte(level: u8, i: int) -> u8 {
    if i == 0 {
        0x0c
    } else if i == 2 {
        level
    } else {
        0
    }
}

/// The 64-byte light-level command: opcode `0x0c`, the level at offset 2,
/// zero padding elsewhere.
pub open spec fn light_buffer(level: u8) -> Seq<u8> {
    Seq::new(64, |i: int| light_buffer_byte(level, i))
}

/// The byte at offset `i` of the dual-zone color command buffer. The fixed
/// non-zero bytes are the opcode/zone framing constants the firmware expects;
/// only offsets 4..=6 and 16..=18 vary with the input.
pub open spec fn color_buffer_byte(c1: Color, c2: Color, i: int) -> u8 {
    if i == 0 {
        0x0e
    } else if i == 2 {
        0x02
    } else if i == 4 {
        c1.r
    } else if i == 5 {
        c1.g
    } else if i == 6 {
        c1.b
    } else if i == 7 {
        0xff
    } else if i == 8 {
        0x32
    } else if i == 9 {
        0xc8
    } else if i == 13 {
        0x01
    } else if i == 16 {
        c2.r
    } else if i == 17 {
        c2.g
    } else if i == 18 {
        c2.b
    } else if i == 19 {
        0xff
    } else if i == 20 {
        0x32
    } else if i == 21 {
        0xc8
    } else if i == 24 {
        0x01
    } else if i == 25 {
        0x01
    } else if i == 27 {
        0x01
    } else {
        0
    }
}

/// The 524-byte dual-zone color command.
pub open spec fn color_buffer(c1: Color, c2: Color) -> Seq<u8> {
    Seq::new(524, |i: int| color_buffer_byte(c1, c2, i))
}

/// The byte at offset `i` of the acknowledgement buffer.
pub open spec fn ack_buffer_byte(i: int) -> u8 {
    if i == 0 {
        0x0d
    } else {
        0
    }
}

/// The 64-byte acknowledgement buffer: opcode `0x0d`, zero padding.
pub open spec fn ack_buffer() -> Seq<u8> {
    Seq::new(64, |i: int| ack_buffer_byte(i))
}

/// A vector of `n` zero bytes, the canvas every command is painted on.
fn zeroed(n: usize) -> (r: Vec<u8>)
    ensures
        r@.len() == n,
        forall|i: int| 0 <= i < n ==> r@[i] == 0u8,
{
    let mut v: Vec<u8> = Vec::new();
    let mut k: usize = 0;
    while k < n
        invariant
            k <= n,
            v@.len() == k,
            forall|i: int| 0 <= i < k ==> v@[i] == 0u8,
        decreases n - k,
    {
        v.push(0u8);
        k = k + 1;
    }
    v
}

/// Encode the "set light level" command for `level`.
pub fn encode_light(level: u8) -> (r: Vec<u8>)
    ensures
        r@ == light_buffer(level),
{
    let mut buf = zeroed(64);
    buf[0] = 0x0c;
    buf[2] = level;
    proof {
        assert(buf@ =~= light_buffer(level));
    }
    buf
}

/// Encode the "set colors" command for zone colors `c1` and `c2`.
pub fn encode_colors(c1: Color, c2: Color) -> (r: Vec<u8>)
    ensures
        r@ == color_buffer(c1, c2),
{
    let mut buf = zeroed(524);
    buf[0] = 0x0e;
    buf[2] = 0x02;
    buf[4] = c1.r;
    buf[5] = c1.g;
    buf[6] = c1.b;
    buf[7] = 0xff;
    buf[8] = 0x32;
    buf[9] = 0xc8;
    buf[13] = 0x01;
    buf[16] = c2.r;
    buf[17] = c2.g;
    buf[18] = c2.b;
    buf[19] = 0xff;
    buf[20] = 0x32;
    buf[21] = 0xc8;
    buf[24] = 0x01;
    buf[25] = 0x01;
    buf[27] = 0x01;
    proof {
        assert(buf@ =~= color_buffer(c1, c2));
    }
    buf
}

/// Encode the acknowledgement that trails every substantive command.
pub fn encode_ack() -> (r: Vec<u8>)
    ensures
        r@ == ack_buffer(),
{
    let mut buf = zeroed(64);
    buf[0] = 0x0d;
    proof {
        assert(buf@ =~= ack_buffer());
    }
    buf
}

} // verus!
