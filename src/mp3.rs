//! The four-byte header of an MPEG audio frame.

use vstd::prelude::*;

verus! {

/// The header of an MPEG-1 Layer III frame without CRC, at 160 kbit/s and 44100 Hz,
/// unpadded, joint stereo without mode extension, not copyrighted, a copy, with no
/// emphasis. Read from the most significant bit: 11 bits of frame sync, 2 of version,
/// 2 of layer, 1 of protection, 4 of bit rate index, 2 of sampling rate index, 1 of
/// padding, 1 private, 2 of channel mode, 2 of mode extension, 1 of copyright, 1 of
/// copy flag and 2 of emphasis.
pub fn mp3_frame_header() -> (r: u32)
    ensures
        r >> 21 == 0x7ff,
        (r >> 19) & 0x3 == 0x3,
        (r >> 17) & 0x3 == 0x1,
        (r >> 16) & 0x1 == 0x1,
        (r >> 12) & 0xf == 0xa,
        (r >> 10) & 0x3 == 0x0,
        (r >> 9) & 0x1 == 0x0,
        (r >> 8) & 0x1 == 0x0,
        (r >> 6) & 0x3 == 0x1,
        (r >> 4) & 0x3 == 0x0,
        r & 0xf == 0x0,
{
    let sync: u32 = 0x7ff;
    let version: u32 = (sync << 2u32) | 0x3;
    let layer: u32 = (version << 2u32) | 0x1;
    let protection: u32 = (layer << 1u32) | 0x1;
    let bit_rate: u32 = (protection << 4u32) | 0xa;
    let sampling: u32 = bit_rate << 2u32;
    let padding_private: u32 = sampling << 2u32;
    let mode: u32 = (padding_private << 2u32) | 0x1;
    let mode_extension: u32 = mode << 2u32;
    let header: u32 = mode_extension << 4u32;
    assert(header == 0xfffb_a040) by (bit_vector)
        requires
            sync == 0x7ff,
            version == (sync << 2u32) | 0x3,
            layer == (version << 2u32) | 0x1,
            protection == (layer << 1u32) | 0x1,
            bit_rate == (protection << 4u32) | 0xa,
            sampling == bit_rate << 2u32,
            padding_private == sampling << 2u32,
            mode == (padding_private << 2u32) | 0x1,
            mode_extension == mode << 2u32,
            header == mode_extension << 4u32,
    ;
    assert({
        &&& header >> 21 == 0x7ff
        &&& (header >> 19) & 0x3 == 0x3
        &&& (header >> 17) & 0x3 == 0x1
        &&& (header >> 16) & 0x1 == 0x1
        &&& (header >> 12) & 0xf == 0xa
        &&& (header >> 10) & 0x3 == 0x0
        &&& (header >> 9) & 0x1 == 0x0
        &&& (header >> 8) & 0x1 == 0x0
        &&& (header >> 6) & 0x3 == 0x1
        &&& (header >> 4) & 0x3 == 0x0
        &&& header & 0xf == 0x0
    }) by (bit_vector)
        requires
            header == 0xfffb_a040,
    ;
    header
}

} // verus!
