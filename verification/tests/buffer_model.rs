//! Tests of the request/reply buffer model: sizing, payload
//! extraction, the out-of-range guards, and the responder address.

use winping::buffer::{ECHO_REPLY4_SIZE, ECHO_REPLY6_SIZE, REPLY_BASE_SIZE};
use winping::{Buffer, Ip4Addr, Ip6Addr, IpAddress};

fn filled_v4_buffer(payload: &[u8], addr: Ip4Addr) -> Buffer {
    let mut buf = Buffer::with_data(payload.to_vec());
    buf.init_for_send();
    let area_len = buf.reply_data_len() as usize;
    let mut area = vec![0u8; area_len];
    area[ECHO_REPLY4_SIZE..ECHO_REPLY4_SIZE + payload.len()].copy_from_slice(payload);
    buf.set_reply_area(area);
    buf.set_filled4(payload.len() as u16, addr);
    buf
}

#[test]
fn new_buffer_is_empty() {
    let buf = Buffer::new();
    assert!(buf.request_data.is_empty());
    assert!(buf.reply_data().is_empty());
    assert_eq!(buf.responding_ip(), None);
}

#[test]
fn with_data_keeps_request() {
    let buf = Buffer::with_data(vec![1, 2, 3]);
    assert_eq!(buf.request_data, vec![1, 2, 3]);
    assert!(buf.reply_data().is_empty());
}

#[test]
fn init_sizes_area_in_chunks() {
    let mut buf = Buffer::new();
    buf.init_for_send();
    // the fixed part is already chunk-aligned
    assert_eq!(buf.reply_data_len() as usize, REPLY_BASE_SIZE);

    let mut buf = Buffer::with_data(vec![0u8; 1]);
    buf.init_for_send();
    assert_eq!(buf.reply_data_len() as usize, REPLY_BASE_SIZE + 8);

    let mut buf = Buffer::with_data(vec![0u8; 8]);
    buf.init_for_send();
    assert_eq!(buf.reply_data_len() as usize, REPLY_BASE_SIZE + 8);

    let mut buf = Buffer::with_data(vec![0u8; 9]);
    buf.init_for_send();
    assert_eq!(buf.reply_data_len() as usize, REPLY_BASE_SIZE + 16);
}

#[test]
fn round_trip_payload_extracted_v4() {
    let payload: Vec<u8> = (0u16..=255).map(|x| x as u8).collect();
    let addr = Ip4Addr::new(127, 0, 0, 1);
    let buf = filled_v4_buffer(&payload, addr);
    assert_eq!(buf.reply_data(), &payload[..]);
    assert_eq!(buf.reply_data(), &buf.request_data[..]);
    assert_eq!(buf.responding_ipv4(), Some(addr));
    assert_eq!(buf.responding_ipv6(), None);
    assert_eq!(buf.responding_ip(), Some(IpAddress::V4(addr)));
}

#[test]
fn round_trip_payload_extracted_v6() {
    let payload: Vec<u8> = (0u16..=63).map(|x| x as u8).collect();
    let addr = Ip6Addr::new(0, 0, 0, 0, 0, 0, 0, 1);
    let mut buf = Buffer::with_data(payload.clone());
    buf.init_for_send();
    let area_len = buf.reply_data_len() as usize;
    let mut area = vec![0u8; area_len];
    area[ECHO_REPLY6_SIZE..ECHO_REPLY6_SIZE + payload.len()].copy_from_slice(&payload);
    buf.set_reply_area(area);
    buf.set_filled6(addr);
    assert_eq!(buf.reply_data(), &payload[..]);
    assert_eq!(buf.responding_ipv6(), Some(addr));
    assert_eq!(buf.responding_ipv4(), None);
    assert_eq!(buf.responding_ip(), Some(IpAddress::V6(addr)));
}

#[test]
fn zero_length_reply_is_empty() {
    let buf = filled_v4_buffer(&[], Ip4Addr::new(127, 0, 0, 1));
    assert!(buf.reply_data().is_empty());
}

#[test]
fn oversized_recorded_length_yields_empty_reply() {
    let mut buf = Buffer::with_data(vec![7u8; 16]);
    buf.init_for_send();
    let area_len = buf.reply_data_len() as usize;
    // a recorded length that runs past the area must be refused
    buf.set_filled4((area_len + 1) as u16, Ip4Addr::new(127, 0, 0, 1));
    assert!(buf.reply_data().is_empty());
}

#[test]
fn init_clears_recorded_reply() {
    let payload = [9u8; 4];
    let mut buf = filled_v4_buffer(&payload, Ip4Addr::new(10, 0, 0, 1));
    assert_eq!(buf.reply_data(), &payload[..]);
    buf.init_for_send();
    assert!(buf.reply_data().is_empty());
    assert_eq!(buf.responding_ip(), None);
}
