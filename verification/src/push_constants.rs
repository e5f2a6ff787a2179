//! The push-constant block handed to the fragment stage on every draw.
//!
//! The GPU consumes the block as raw bytes; the fields are IEEE 754 single
//! bit patterns, so the verified core can lay the bytes out exactly without
//! ever holding a floating-point value itself.

use vstd::prelude::*;
use vstd::bytes::{spec_u32_to_le_bytes, u32_to_le_bytes};

verus! {

/// An RGBA color; each channel carries the bit pattern of an IEEE 754
/// single-precision value, as the GPU reads it.
#[derive(Clone, Copy, Debug, PartialEq, Eq, Structural)]
pub struct Color(pub u32, pub u32, pub u32, pub u32);

/// The hard ceiling the GPU API puts on a push-constant block, in bytes.
pub const PUSH_CONSTANT_CEILING: usize = 128;

/// The exact size of the encoded block, in bytes: six 32-bit words.
pub const PUSH_CONSTANT_SIZE: usize = 24;

/// The per-draw parameters of the divider, as the fragment stage consumes
/// them: position first, then the pre-normalized width, then the color.
/// All fields are IEEE 754 single bit patterns.
#[derive(Clone, Copy, Debug, PartialEq, Eq, Structural)]
pub struct PushConstantBuffer {
    /// Horizontal divider position, normalized to `[0, 1]`.
    pub divider_pos: u32,
    /// Divider width divided by the output width (normalized device pixels).
    pub divider_width: u32,
    /// Divider color.
    pub color: Color,
}

/// The byte image of a push-constant block: each 32-bit field in order,
/// little endian, with no padding.
pub open spec fn spec_encode(b: PushConstantBuffer) -> Seq<u8> {
    spec_u32_to_le_bytes(b.divider_pos) + spec_u32_to_le_bytes(b.divider_width)
        + spec_u32_to_le_bytes(b.color.0) + spec_u32_to_le_bytes(b.color.1)
        + spec_u32_to_le_bytes(b.color.2) + spec_u32_to_le_bytes(b.color.3)
}

impl PushConstantBuffer {
    /// Encodes the block into the exact byte image the fragment stage reads:
    /// `divider_pos` at offset 0, `divider_width` at offset 4, the four color
    /// channels at offsets 8, 12, 16 and 20; 24 bytes in all, well under the
    /// 128-byte ceiling.
    pub fn encode(&self) -> (r: Vec<u8>)
        ensures
            r@ == spec_encode(*self),
            r@.len() == PUSH_CONSTANT_SIZE,
            r@.len() <= PUSH_CONSTANT_CEILING,
    {
        proof {
            vstd::bytes::lemma_auto_spec_u32_to_from_le_bytes();
        }
        let mut r: Vec<u8> = Vec::new();
        let mut word = u32_to_le_bytes(self.divider_pos);
        r.append(&mut word);
        let mut word = u32_to_le_bytes(self.divider_width);
        r.append(&mut word);
        let mut word = u32_to_le_bytes(self.color.0);
        r.append(&mut word);
        let mut word = u32_to_le_bytes(self.color.1);
        r.append(&mut word);
        let mut word = u32_to_le_bytes(self.color.2);
        r.append(&mut word);
        let mut word = u32_to_le_bytes(self.color.3);
        r.append(&mut word);
        assert(r@ =~= spec_encode(*self));
        r
    }
}

/// The encoded block always fits the GPU API's 128-byte push-constant
/// ceiling, whatever the field values are.
pub proof fn lemma_push_block_fits_ceiling(b: PushConstantBuffer)
    ensures
        spec_encode(b).len() == PUSH_CONSTANT_SIZE,
        spec_encode(b).len() <= PUSH_CONSTANT_CEILING,
{
    vstd::bytes::lemma_auto_spec_u32_to_from_le_bytes();
}

} // verus!
