use rustables::attr::{
    begin_nested, end_nested, read_attributes, write_attribute, AttributeReader,
};
use rustables::bytes::{
    get_le16, get_le32, push_be16, push_be32, push_be64, push_le16, push_le32, read_be16,
    read_be32, read_be64, read_u8,
};
use rustables::sys::{NLA_F_NESTED, NLA_MAX_PAYLOAD};
use rustables::{BuilderError, DecodeError};

#[test]
fn big_endian_numbers_are_written_most_significant_byte_first() {
    let mut buf = Vec::new();
    push_be16(&mut buf, 0x1234);
    push_be32(&mut buf, 0x0102_0304);
    push_be64(&mut buf, 0x1122_3344_5566_7788);
    assert_eq!(
        buf,
        vec![0x12, 0x34, 1, 2, 3, 4, 0x11, 0x22, 0x33, 0x44, 0x55, 0x66, 0x77, 0x88]
    );
    assert_eq!(buf[0..2].to_vec(), 0x1234u16.to_be_bytes().to_vec());
    assert_eq!(buf[2..6].to_vec(), 0x0102_0304u32.to_be_bytes().to_vec());
    assert_eq!(buf[6..14].to_vec(), 0x1122_3344_5566_7788u64.to_be_bytes().to_vec());
}

#[test]
fn little_endian_numbers_are_written_least_significant_byte_first() {
    let mut buf = Vec::new();
    push_le16(&mut buf, 0x1234);
    push_le32(&mut buf, 0x0102_0304);
    assert_eq!(buf, vec![0x34, 0x12, 4, 3, 2, 1]);
    assert_eq!(get_le16(&buf, 0), 0x1234);
    assert_eq!(get_le32(&buf, 2), 0x0102_0304);
}

#[test]
fn numbers_are_read_back_as_written() {
    for v in [0u64, 1, 255, 256, 65535, 65536, 0xffff_ffff, 0x1_0000_0000, u64::MAX] {
        let mut buf = Vec::new();
        push_be64(&mut buf, v);
        assert_eq!(read_be64(&buf), Ok(v));
    }
    for v in [0u32, 1, 255, 256, 0x00ff_ff00, 0x8000_0000, u32::MAX] {
        let mut buf = Vec::new();
        push_be32(&mut buf, v);
        assert_eq!(read_be32(&buf), Ok(v));
        let mut le = Vec::new();
        push_le32(&mut le, v);
        assert_eq!(get_le32(&le, 0), v);
    }
    for v in [0u16, 1, 255, 256, 0x8000, u16::MAX] {
        let mut buf = Vec::new();
        push_be16(&mut buf, v);
        assert_eq!(read_be16(&buf), Ok(v));
    }
    assert_eq!(read_u8(&[7]), Ok(7));
}

#[test]
fn a_number_of_another_width_is_refused() {
    assert_eq!(read_u8(&[]), Err(DecodeError::InvalidDataSize));
    assert_eq!(read_u8(&[1, 2]), Err(DecodeError::InvalidDataSize));
    assert_eq!(read_be16(&[1]), Err(DecodeError::InvalidDataSize));
    assert_eq!(read_be32(&[1, 2, 3]), Err(DecodeError::InvalidDataSize));
    assert_eq!(read_be32(&[1, 2, 3, 4, 5]), Err(DecodeError::InvalidDataSize));
    assert_eq!(read_be64(&[0; 4]), Err(DecodeError::InvalidDataSize));
}

#[test]
fn an_attribute_is_header_payload_and_padding() {
    let mut buf = Vec::new();
    write_attribute(&mut buf, 3, &[0xaa, 0xbb, 0xcc, 0xdd, 0xee]).unwrap();
    assert_eq!(buf, vec![9, 0, 3, 0, 0xaa, 0xbb, 0xcc, 0xdd, 0xee, 0, 0, 0]);
}

#[test]
fn an_attribute_is_appended_to_what_the_buffer_holds() {
    let mut buf = vec![1, 2, 3];
    write_attribute(&mut buf, 0x0102, &[]).unwrap();
    assert_eq!(buf, vec![1, 2, 3, 4, 0, 2, 1]);
}

#[test]
fn the_size_of_an_attribute_is_rounded_up_to_four() {
    for n in 0usize..=17 {
        let payload = vec![0x5a; n];
        let mut buf = Vec::new();
        write_attribute(&mut buf, 1, &payload).unwrap();
        assert_eq!(buf.len(), (4 + n + 3) / 4 * 4);
        assert_eq!(buf.len() % 4, 0);
        assert_eq!(get_le16(&buf, 0) as usize, 4 + n);
        assert_eq!(buf[4..4 + n].to_vec(), payload);
        assert!(buf[4 + n..].iter().all(|b| *b == 0));
    }
}

#[test]
fn the_second_attribute_is_found_after_the_padding_of_the_first() {
    for n in 0usize..=9 {
        let first = vec![0x11; n];
        let second = vec![0x22, 0x33];
        let mut buf = Vec::new();
        write_attribute(&mut buf, 5, &first).unwrap();
        write_attribute(&mut buf, 6, &second).unwrap();
        let attrs = read_attributes(&buf).unwrap();
        assert_eq!(attrs.len(), 2);
        assert_eq!(attrs[0].0, 5);
        assert_eq!(attrs[0].1.to_vec(), first);
        assert_eq!(attrs[1].0, 6);
        assert_eq!(attrs[1].1.to_vec(), second);
    }
}

#[test]
fn the_longest_payload_fits_and_one_byte_more_does_not() {
    let mut buf = Vec::new();
    let longest = vec![1u8; NLA_MAX_PAYLOAD];
    assert_eq!(write_attribute(&mut buf, 1, &longest), Ok(()));
    assert_eq!(buf.len(), 65536);
    assert_eq!(get_le16(&buf, 0), 65535);

    let mut other = vec![9u8, 9];
    let too_long = vec![1u8; NLA_MAX_PAYLOAD + 1];
    assert_eq!(write_attribute(&mut other, 1, &too_long), Err(BuilderError::AttributeTooLarge));
    assert_eq!(other, vec![9, 9]);
}

#[test]
fn a_nested_attribute_gets_its_length_when_it_is_closed() {
    let mut buf = vec![0xff];
    let start = begin_nested(&mut buf, 4);
    assert_eq!(start, 1);
    write_attribute(&mut buf, 1, &[7]).unwrap();
    write_attribute(&mut buf, 2, &[8, 9]).unwrap();
    end_nested(&mut buf, start).unwrap();
    let nested = 4u16 | NLA_F_NESTED;
    let mut expected = vec![0xff, 20, 0];
    expected.extend(nested.to_le_bytes());
    expected.extend([5, 0, 1, 0, 7, 0, 0, 0]);
    expected.extend([6, 0, 2, 0, 8, 9, 0, 0]);
    assert_eq!(buf, expected);
}

#[test]
fn an_empty_nested_attribute_is_a_header_alone() {
    let mut buf = Vec::new();
    let start = begin_nested(&mut buf, 2);
    end_nested(&mut buf, start).unwrap();
    assert_eq!(buf, vec![4, 0, 2, 0x80]);
}

#[test]
fn a_nested_attribute_that_is_too_long_is_refused() {
    let mut buf = Vec::new();
    let start = begin_nested(&mut buf, 2);
    buf.extend(vec![0u8; NLA_MAX_PAYLOAD + 1]);
    assert_eq!(end_nested(&mut buf, start), Err(BuilderError::AttributeTooLarge));
}

#[test]
fn the_flags_of_a_type_are_not_part_of_the_code() {
    let mut buf = Vec::new();
    write_attribute(&mut buf, 7 | 0x8000, &[1]).unwrap();
    write_attribute(&mut buf, 7 | 0x4000, &[2]).unwrap();
    write_attribute(&mut buf, 0x3fff, &[3]).unwrap();
    let attrs = read_attributes(&buf).unwrap();
    assert_eq!(attrs[0].0, 7);
    assert_eq!(attrs[1].0, 7);
    assert_eq!(attrs[2].0, 0x3fff);
}

#[test]
fn an_empty_stream_has_no_attribute() {
    assert_eq!(read_attributes(&[]).unwrap().len(), 0);
    let mut reader = AttributeReader::new(&[]);
    assert!(reader.is_done());
    assert_eq!(reader.next(), Ok(None));
}

#[test]
fn a_cut_header_is_refused() {
    assert_eq!(read_attributes(&[4, 0, 1]), Err(DecodeError::BufTooSmall));
    assert_eq!(read_attributes(&[8, 0, 1, 0, 1, 2, 3, 4, 4]), Err(DecodeError::BufTooSmall));
}

#[test]
fn a_length_shorter_than_the_header_is_refused() {
    assert_eq!(read_attributes(&[3, 0, 1, 0]), Err(DecodeError::InvalidAttributeLength));
    assert_eq!(read_attributes(&[0, 0, 1, 0]), Err(DecodeError::InvalidAttributeLength));
}

#[test]
fn a_length_past_the_end_is_refused() {
    assert_eq!(read_attributes(&[9, 0, 1, 0, 1, 2, 3, 4]), Err(DecodeError::AttributeTooLong));
    assert_eq!(read_attributes(&[5, 0, 1, 0]), Err(DecodeError::AttributeTooLong));
}

#[test]
fn padding_past_the_end_is_refused() {
    assert_eq!(read_attributes(&[5, 0, 1, 0, 9]), Err(DecodeError::MissingPadding));
    assert_eq!(read_attributes(&[6, 0, 1, 0, 9, 9, 0]), Err(DecodeError::MissingPadding));
}

#[test]
fn what_stands_in_the_padding_is_ignored() {
    let attrs = read_attributes(&[5, 0, 1, 0, 9, 0xde, 0xad, 0xbe, 4, 0, 2, 0]).unwrap();
    assert_eq!(attrs.len(), 2);
    assert_eq!(attrs[0].1.to_vec(), vec![9]);
    assert_eq!(attrs[1].0, 2);
    assert_eq!(attrs[1].1.len(), 0);
}

#[test]
fn a_reader_yields_one_attribute_at_a_time_and_can_start_again() {
    let mut buf = Vec::new();
    write_attribute(&mut buf, 1, &[1]).unwrap();
    write_attribute(&mut buf, 2, &[2, 2]).unwrap();
    let mut reader = AttributeReader::new(&buf);
    let (code, payload) = reader.next().unwrap().unwrap();
    assert_eq!((code, payload.to_vec()), (1, vec![1]));
    assert!(!reader.is_done());
    let (code, payload) = reader.next().unwrap().unwrap();
    assert_eq!((code, payload.to_vec()), (2, vec![2, 2]));
    assert!(reader.is_done());
    assert_eq!(reader.next(), Ok(None));
    reader.restart();
    let (code, payload) = reader.next().unwrap().unwrap();
    assert_eq!((code, payload.to_vec()), (1, vec![1]));
}

#[test]
fn a_reader_does_not_move_past_an_error() {
    let buf = [4u8, 0, 1, 0, 2, 0, 0, 0];
    let mut reader = AttributeReader::new(&buf);
    assert!(reader.next().unwrap().is_some());
    assert_eq!(reader.next(), Err(DecodeError::InvalidAttributeLength));
    assert_eq!(reader.next(), Err(DecodeError::InvalidAttributeLength));
    assert!(!reader.is_done());
}
