use cord::ipc::utils::{
    decode, decode_opcode, encode, frame_of, header_bytes, payload_length, HEADER_LEN,
};

#[test]
fn header_has_eight_bytes() {
    assert_eq!(HEADER_LEN, 8);
    assert_eq!(encode(0, 0).len(), 8);
    assert_eq!(header_bytes(7, 9).len(), 8);
}

#[test]
fn header_is_little_endian() {
    assert_eq!(encode(1, 0x0102_0304), [1, 0, 0, 0, 4, 3, 2, 1]);
    assert_eq!(encode(0xdead_beef, 2), [0xef, 0xbe, 0xad, 0xde, 2, 0, 0, 0]);
    assert_eq!(encode(0, 0), [0; 8]);
    assert_eq!(encode(u32::MAX, u32::MAX), [0xff; 8]);
}

#[test]
fn header_agrees_with_the_standard_conversion() {
    for &(opcode, length) in &[(0u32, 0u32), (1, 27), (2, 256), (3, 65_536), (77, 16_777_216)] {
        let mut expected = Vec::new();
        expected.extend_from_slice(&opcode.to_le_bytes());
        expected.extend_from_slice(&length.to_le_bytes());
        assert_eq!(encode(opcode, length).to_vec(), expected);
        assert_eq!(header_bytes(opcode, length), expected);
    }
}

#[test]
fn decode_gives_the_length_back() {
    for &length in &[0u32, 1, 100, 255, 256, 65_535, 65_536, 16_777_215, 16_777_216, u32::MAX] {
        for &opcode in &[0u32, 1, 2, 0x0102_0304, u32::MAX] {
            let header = encode(opcode, length);
            assert_eq!(decode(&header), length);
            assert_eq!(decode_opcode(&header), opcode);
        }
    }
}

#[test]
fn decode_reads_the_second_half() {
    assert_eq!(decode(&[9, 9, 9, 9, 100, 0, 0, 0]), 100);
    assert_eq!(decode(&[9, 9, 9, 9, 0, 1, 0, 0]), 256);
    assert_eq!(decode(&[9, 9, 9, 9, 0, 0, 0, 1]), 16_777_216);
    assert_eq!(decode_opcode(&[2, 0, 0, 0, 100, 0, 0, 0]), 2);
}

#[test]
fn encoding_what_was_decoded_gives_the_header_back() {
    let header = [0x12, 0x34, 0x56, 0x78, 0x9a, 0xbc, 0xde, 0xf0];
    assert_eq!(encode(decode_opcode(&header), decode(&header)), header);
}

#[test]
fn frame_is_header_then_payload() {
    let frame = frame_of(1, Some(b"hello")).unwrap();
    assert_eq!(frame, vec![1, 0, 0, 0, 5, 0, 0, 0, b'h', b'e', b'l', b'l', b'o']);
}

#[test]
fn frame_without_payload_is_the_header_alone() {
    assert_eq!(frame_of(1, None).unwrap(), vec![1, 0, 0, 0, 0, 0, 0, 0]);
    assert_eq!(frame_of(2, Some(&[])).unwrap(), vec![2, 0, 0, 0, 0, 0, 0, 0]);
}

#[test]
fn frame_states_the_length_of_a_longer_payload() {
    let payload = vec![7u8; 300];
    let frame = frame_of(1, Some(&payload)).unwrap();
    assert_eq!(frame.len(), 308);
    assert_eq!(&frame[..8], &[1, 0, 0, 0, 44, 1, 0, 0]);
    assert_eq!(&frame[8..], &payload[..]);
}

#[test]
fn header_states_lengths_up_to_the_largest_of_32_bits() {
    assert_eq!(payload_length(0), Some(0));
    assert_eq!(payload_length(100), Some(100));
    assert_eq!(payload_length(u32::MAX as usize), Some(u32::MAX));
    assert_eq!(payload_length(u32::MAX as usize + 1), None);
    assert_eq!(payload_length(usize::MAX), None);
}
