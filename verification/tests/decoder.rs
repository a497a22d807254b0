use examine_memory::address::validate_address;
use examine_memory::decoder::{
    decode_row, decode_rows, read_word, signed_view, ByteOrder, SampleBuffer, TableRow,
};

fn buffer(bytes: &[u8], order: ByteOrder) -> SampleBuffer {
    SampleBuffer { bytes: bytes.to_vec(), order }
}

fn row(address: usize, unsigned: u32, signed: i32) -> TableRow {
    TableRow { address, unsigned, signed }
}

#[test]
fn decodes_three_little_endian_words_at_the_example_address() {
    let base = validate_address("0xD34DB33F0").unwrap();
    let sample = buffer(&[1, 0, 0, 0, 2, 0, 0, 0, 3, 0, 0, 0], ByteOrder::LittleEndian);
    assert_eq!(
        decode_rows(&sample, base, 3),
        vec![row(0xD34DB33F0, 1, 1), row(0xD34DB33F4, 2, 2), row(0xD34DB33F8, 3, 3)]
    );
}

#[test]
fn decodes_big_endian_words() {
    let sample = buffer(&[0, 0, 0, 1, 0x12, 0x34, 0x56, 0x78], ByteOrder::BigEndian);
    assert_eq!(
        decode_rows(&sample, 0x1000, 2),
        vec![row(0x1000, 1, 1), row(0x1004, 0x12345678, 0x12345678)]
    );
}

#[test]
fn byte_order_decides_the_value() {
    assert_eq!(read_word(ByteOrder::LittleEndian, 0x78, 0x56, 0x34, 0x12), 0x12345678);
    assert_eq!(read_word(ByteOrder::BigEndian, 0x78, 0x56, 0x34, 0x12), 0x78563412);
    assert_eq!(read_word(ByteOrder::LittleEndian, 0xFF, 0xFF, 0xFF, 0xFF), u32::MAX);
    assert_eq!(read_word(ByteOrder::BigEndian, 0xFF, 0xFF, 0xFF, 0xFF), u32::MAX);
    assert_eq!(read_word(ByteOrder::LittleEndian, 0, 0, 0, 0), 0);
}

#[test]
fn reads_words_as_the_standard_conversions_do() {
    let mut seed: u32 = 0x2545F491;
    for _ in 0..200 {
        seed = seed.wrapping_mul(1664525).wrapping_add(1013904223);
        let bytes = seed.to_be_bytes();
        assert_eq!(
            read_word(ByteOrder::LittleEndian, bytes[0], bytes[1], bytes[2], bytes[3]),
            u32::from_le_bytes(bytes)
        );
        assert_eq!(
            read_word(ByteOrder::BigEndian, bytes[0], bytes[1], bytes[2], bytes[3]),
            u32::from_be_bytes(bytes)
        );
        assert_eq!(signed_view(seed), i32::from_ne_bytes(seed.to_ne_bytes()));
    }
}

#[test]
fn signed_view_is_twos_complement() {
    assert_eq!(signed_view(0), 0);
    assert_eq!(signed_view(1), 1);
    assert_eq!(signed_view(0x7FFF_FFFF), i32::MAX);
    assert_eq!(signed_view(0x8000_0000), i32::MIN);
    assert_eq!(signed_view(0xFFFF_FFFF), -1);
    assert_eq!(signed_view(0xFFFF_FFFE), -2);
}

#[test]
fn decodes_negative_values() {
    let sample = buffer(&[0xFF, 0xFF, 0xFF, 0xFF, 0, 0, 0, 0x80], ByteOrder::LittleEndian);
    assert_eq!(
        decode_rows(&sample, 0x2000, 2),
        vec![row(0x2000, 0xFFFF_FFFF, -1), row(0x2004, 0x8000_0000, i32::MIN)]
    );
}

#[test]
fn empty_buffer_gives_rows_of_zeros() {
    let sample = SampleBuffer::empty(ByteOrder::LittleEndian);
    assert_eq!(
        decode_rows(&sample, 0xD34DB33F0, 3),
        vec![row(0xD34DB33F0, 0, 0), row(0xD34DB33F4, 0, 0), row(0xD34DB33F8, 0, 0)]
    );
}

#[test]
fn rows_beyond_the_buffer_are_zero() {
    let sample = buffer(&[7, 0, 0, 0, 9, 9], ByteOrder::LittleEndian);
    assert_eq!(
        decode_rows(&sample, 0x3000, 3),
        vec![row(0x3000, 7, 7), row(0x3004, 0, 0), row(0x3008, 0, 0)]
    );
}

#[test]
fn a_word_short_by_one_byte_is_zero() {
    let sample = buffer(&[1, 2, 3], ByteOrder::LittleEndian);
    assert_eq!(decode_row(&sample, 0, 0), row(0, 0, 0));
    let sample = buffer(&[1, 2, 3, 4, 5, 6, 7], ByteOrder::LittleEndian);
    assert_eq!(decode_row(&sample, 0, 0), row(0, 0x04030201, 0x04030201));
    assert_eq!(decode_row(&sample, 0, 1), row(4, 0, 0));
}

#[test]
fn always_as_many_rows_as_asked_for() {
    let sample = buffer(&[1, 0, 0, 0], ByteOrder::LittleEndian);
    for count in [0usize, 1, 2, 10, 500, 1000] {
        let rows = decode_rows(&sample, 0x4000, count);
        assert_eq!(rows.len(), count);
        for (i, row) in rows.iter().enumerate() {
            assert_eq!(row.address, 0x4000 + 4 * i);
        }
    }
}

#[test]
fn rows_the_buffer_has_but_nobody_asked_for_are_left_out() {
    let sample = buffer(&[1, 0, 0, 0, 2, 0, 0, 0, 3, 0, 0, 0], ByteOrder::LittleEndian);
    assert_eq!(decode_rows(&sample, 0x5000, 1), vec![row(0x5000, 1, 1)]);
    assert_eq!(decode_rows(&sample, 0x5000, 0), vec![]);
}

#[test]
fn each_row_is_what_decoding_it_alone_gives() {
    let sample = buffer(&[1, 2, 3, 4, 5, 6, 7, 8, 9, 10], ByteOrder::BigEndian);
    let rows = decode_rows(&sample, 0x6000, 5);
    for (i, row) in rows.iter().enumerate() {
        assert_eq!(*row, decode_row(&sample, 0x6000, i));
    }
}

#[test]
fn addresses_wrap_at_the_end_of_the_address_space() {
    let sample = SampleBuffer::empty(ByteOrder::LittleEndian);
    let base = usize::MAX - 3;
    assert_eq!(
        decode_rows(&sample, base, 3),
        vec![row(usize::MAX - 3, 0, 0), row(0, 0, 0), row(4, 0, 0)]
    );
    assert_eq!(decode_row(&sample, 8, usize::MAX).address, 4);
}

#[test]
fn decoding_does_not_depend_on_an_earlier_call() {
    let sample = buffer(&[5, 0, 0, 0], ByteOrder::LittleEndian);
    let first = decode_rows(&sample, 0x7000, 2);
    let second = decode_rows(&sample, 0x7000, 2);
    assert_eq!(first, second);
}

#[test]
fn native_order_is_the_order_of_this_machine() {
    let expected = if 1u32.to_ne_bytes()[0] == 1 {
        ByteOrder::LittleEndian
    } else {
        ByteOrder::BigEndian
    };
    assert_eq!(ByteOrder::native(), expected);
    let bytes = 0x0A0B0C0Du32.to_ne_bytes();
    assert_eq!(read_word(ByteOrder::native(), bytes[0], bytes[1], bytes[2], bytes[3]), 0x0A0B0C0D);
}

#[test]
fn the_probe_reading_tells_the_order() {
    assert_eq!(ByteOrder::of_probe(1), ByteOrder::LittleEndian);
    assert_eq!(ByteOrder::of_probe(0x0100_0000), ByteOrder::BigEndian);
    assert_eq!(ByteOrder::of_probe(u32::from_le_bytes([1, 0, 0, 0])), ByteOrder::LittleEndian);
    assert_eq!(ByteOrder::of_probe(u32::from_be_bytes([1, 0, 0, 0])), ByteOrder::BigEndian);
    assert_eq!(ByteOrder::of_probe(u32::from_ne_bytes([1, 0, 0, 0])), ByteOrder::native());
    assert_eq!(
        ByteOrder::of_probe(read_word(ByteOrder::BigEndian, 1, 0, 0, 0)),
        ByteOrder::BigEndian
    );
}
