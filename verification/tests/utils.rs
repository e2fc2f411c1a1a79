use mumble_client::utils::BufferParser;
use std::convert::TryInto;

#[test]
fn test_util_buffer() {
    let data: Vec<u8> = vec![0x0, 0x0, 0x0, 0x0, 0x0, 0x2, 0x32, 0x33];
    let mut buffer_parser = BufferParser::new(&data);

    let message_type = u16::from_be_bytes(buffer_parser.read(2).try_into().unwrap());
    let message_size = u32::from_be_bytes(buffer_parser.read(4).try_into().unwrap());
    let data: Vec<u8> = buffer_parser.read(message_size as usize).to_vec();

    assert_eq!(message_type, 0);
    assert_eq!(message_size, 2);
    assert_eq!(data, vec![0x32, 0x33]);
}

#[test]
fn read_stops_at_the_end_of_the_buffer() {
    let data: Vec<u8> = vec![1, 2, 3];
    let mut parser = BufferParser::new(&data);
    assert_eq!(parser.read(2), &[1, 2]);
    assert_eq!(parser.read(5), &[3]);
    assert_eq!(parser.read(1), &[] as &[u8]);
    assert_eq!(parser.read(usize::MAX), &[] as &[u8]);
}

#[test]
fn reset_and_set_position_move_the_cursor() {
    let data: Vec<u8> = vec![10, 20, 30, 40];
    let mut parser = BufferParser::new(&data);
    assert_eq!(parser.read_until_end(), &[10, 20, 30, 40]);
    assert_eq!(parser.read_until_end(), &[] as &[u8]);
    parser.reset();
    assert_eq!(parser.read(1), &[10]);
    parser.set_position(2);
    assert_eq!(parser.read(usize::MAX), &[30, 40]);
    parser.set_position(4);
    assert_eq!(parser.read_until_end(), &[] as &[u8]);
}
