//! Push-constant byte layout.

use frame_compare::push_constants::{Color, PushConstantBuffer, PUSH_CONSTANT_SIZE};

#[test]
fn encoded_block_layout() {
    // The block is 24 bytes, under the 128-byte ceiling, laid out as
    // divider_pos at 0, divider_width at 4, the color channels at 8..24,
    // each little endian.
    let pos = 0.5f32.to_bits();
    let width = (4.0f32 / 100.0f32).to_bits();
    let color = Color(
        0.1f32.to_bits(),
        0.2f32.to_bits(),
        0.3f32.to_bits(),
        0.4f32.to_bits(),
    );
    let block = PushConstantBuffer { divider_pos: pos, divider_width: width, color };
    let bytes = block.encode();
    assert_eq!(bytes.len(), PUSH_CONSTANT_SIZE);
    assert_eq!(bytes.len(), 24);
    assert!(bytes.len() <= 128);
    let mut expect: Vec<u8> = Vec::new();
    for v in [pos, width, color.0, color.1, color.2, color.3] {
        expect.extend_from_slice(&v.to_le_bytes());
    }
    assert_eq!(bytes, expect);
}

#[test]
fn encoded_block_field_offsets() {
    let block = PushConstantBuffer {
        divider_pos: 0x0102_0304,
        divider_width: 0x1112_1314,
        color: Color(0x2122_2324, 0x3132_3334, 0x4142_4344, 0x5152_5354),
    };
    let bytes = block.encode();
    assert_eq!(&bytes[0..4], &[0x04, 0x03, 0x02, 0x01]);
    assert_eq!(&bytes[4..8], &[0x14, 0x13, 0x12, 0x11]);
    assert_eq!(&bytes[8..12], &[0x24, 0x23, 0x22, 0x21]);
    assert_eq!(&bytes[12..16], &[0x34, 0x33, 0x32, 0x31]);
    assert_eq!(&bytes[16..20], &[0x44, 0x43, 0x42, 0x41]);
    assert_eq!(&bytes[20..24], &[0x54, 0x53, 0x52, 0x51]);
}

#[test]
fn encoded_zero_block() {
    let block = PushConstantBuffer {
        divider_pos: 0,
        divider_width: 0,
        color: Color(0, 0, 0, 0),
    };
    assert_eq!(block.encode(), vec![0u8; 24]);
}
