use pineapple::nat_traversal::NatTraversalError;
use pineapple::stun::{
    build_binding_request, new_transaction_id, parse_binding_response, parse_mapped_address,
    parse_xor_mapped_address, IpAddress, StunError,
};

const TID: [u8; 12] = [1, 2, 3, 4, 5, 6, 7, 8, 9, 10, 11, 12];
const COOKIE: [u8; 4] = [0x21, 0x12, 0xA4, 0x42];

fn header(msg_type: u16, len: u16, tid: &[u8; 12]) -> Vec<u8> {
    let mut v = Vec::new();
    v.extend_from_slice(&msg_type.to_be_bytes());
    v.extend_from_slice(&len.to_be_bytes());
    v.extend_from_slice(&COOKIE);
    v.extend_from_slice(tid);
    v
}

fn attribute(attr_type: u16, value: &[u8]) -> Vec<u8> {
    let mut v = Vec::new();
    v.extend_from_slice(&attr_type.to_be_bytes());
    v.extend_from_slice(&(value.len() as u16).to_be_bytes());
    v.extend_from_slice(value);
    while v.len() % 4 != 0 {
        v.push(0);
    }
    v
}

fn response(attrs: &[Vec<u8>]) -> Vec<u8> {
    let body: Vec<u8> = attrs.concat();
    let mut v = header(0x0101, body.len() as u16, &TID);
    v.extend_from_slice(&body);
    v
}

fn xor_v4_value(addr: [u8; 4], port: u16) -> Vec<u8> {
    let mut v = vec![0, 1];
    v.extend_from_slice(&(port ^ 0x2112).to_be_bytes());
    for i in 0..4 {
        v.push(addr[i] ^ COOKIE[i]);
    }
    v
}

#[test]
fn binding_request_layout() {
    let r = build_binding_request(&TID);
    assert_eq!(r, header(0x0001, 0, &TID));
    assert_eq!(r.len(), 20);
}

#[test]
fn transaction_ids_differ() {
    let a = new_transaction_id();
    let b = new_transaction_id();
    let c = new_transaction_id();
    assert!(a != b || b != c);
}

#[test]
fn xor_mapped_ipv4_decodes_exactly() {
    let data = response(&[attribute(0x0020, &xor_v4_value([203, 0, 113, 7], 54321))]);
    let r = parse_binding_response(&data, &TID).unwrap();
    assert_eq!(r.external_ip, IpAddress::V4(vec![203, 0, 113, 7]));
    assert_eq!(r.external_port, 54321);
}

#[test]
fn xor_mapped_ipv6_uses_cookie_and_transaction() {
    let addr: [u8; 16] = [0x20, 0x01, 0x0d, 0xb8, 0, 0, 0, 0, 0, 0, 0, 0, 0, 0, 0, 1];
    let mut mask = COOKIE.to_vec();
    mask.extend_from_slice(&TID);
    let mut value = vec![0, 2];
    value.extend_from_slice(&(443u16 ^ 0x2112).to_be_bytes());
    for i in 0..16 {
        value.push(addr[i] ^ mask[i]);
    }
    let data = response(&[attribute(0x0020, &value)]);
    let r = parse_binding_response(&data, &TID).unwrap();
    assert_eq!(r.external_ip, IpAddress::V6(addr.to_vec()));
    assert_eq!(r.external_port, 443);
}

#[test]
fn mapped_address_is_fallback() {
    let value = [0u8, 1, 0x1F, 0x90, 10, 0, 0, 1];
    let data = response(&[attribute(0x8022, b"srv"), attribute(0x0001, &value)]);
    let r = parse_binding_response(&data, &TID).unwrap();
    assert_eq!(r.external_ip, IpAddress::V4(vec![10, 0, 0, 1]));
    assert_eq!(r.external_port, 8080);
    let direct = parse_mapped_address(&value).unwrap();
    assert_eq!(direct, r);
}

#[test]
fn xor_mapped_address_is_preferred() {
    let mapped = [0u8, 1, 0, 80, 1, 1, 1, 1];
    let data = response(&[
        attribute(0x0001, &mapped),
        attribute(0x0020, &xor_v4_value([2, 2, 2, 2], 90)),
    ]);
    let r = parse_binding_response(&data, &TID).unwrap();
    assert_eq!(r.external_ip, IpAddress::V4(vec![2, 2, 2, 2]));
    assert_eq!(r.external_port, 90);
}

#[test]
fn first_mapped_address_is_kept_as_fallback() {
    let first = [0u8, 1, 0, 80, 1, 1, 1, 1];
    let second = [0u8, 1, 0, 81, 3, 3, 3, 3];
    let data = response(&[attribute(0x0001, &first), attribute(0x0001, &second)]);
    let r = parse_binding_response(&data, &TID).unwrap();
    assert_eq!(r.external_ip, IpAddress::V4(vec![1, 1, 1, 1]));
    assert_eq!(r.external_port, 80);
    // A truncated attribute after a MAPPED-ADDRESS ends the walk on the fallback.
    let mut cut = header(0x0101, 16, &TID);
    cut.extend_from_slice(&attribute(0x0001, &first));
    cut.extend_from_slice(&[0x00, 0x20, 0x00, 0x08]);
    let r = parse_binding_response(&cut, &TID).unwrap();
    assert_eq!(r.external_ip, IpAddress::V4(vec![1, 1, 1, 1]));
}

#[test]
fn truncated_attribute_ends_with_error() {
    // The attribute announces 8 value bytes; only 4 follow.
    let mut short = header(0x0101, 8, &TID);
    short.extend_from_slice(&[0x00, 0x20, 0x00, 0x08, 0, 1, 0x21, 0x12]);
    assert_eq!(parse_binding_response(&short, &TID), Err(StunError::NoAddressAttribute));
    // The header announces more attribute bytes than arrived.
    let full = response(&[attribute(0x0020, &xor_v4_value([1, 2, 3, 4], 5))]);
    assert_eq!(parse_binding_response(&full[..27], &TID), Err(StunError::Truncated));
}

#[test]
fn attribute_value_past_end_is_no_address() {
    let mut data = header(0x0101, 4, &TID);
    data.extend_from_slice(&[0x00, 0x20, 0x00, 0x08]);
    assert_eq!(parse_binding_response(&data, &TID), Err(StunError::NoAddressAttribute));
}

#[test]
fn header_defects_are_reported() {
    let good = response(&[attribute(0x0020, &xor_v4_value([1, 2, 3, 4], 5))]);
    assert_eq!(parse_binding_response(&good[..19], &TID), Err(StunError::TooShort));
    let mut wrong_type = good.clone();
    wrong_type[1] = 0x11;
    assert_eq!(parse_binding_response(&wrong_type, &TID), Err(StunError::UnexpectedType(0x0111)));
    let mut wrong_cookie = good.clone();
    wrong_cookie[4] = 0;
    assert_eq!(parse_binding_response(&wrong_cookie, &TID), Err(StunError::InvalidCookie));
    let other_tid = [0u8; 12];
    assert_eq!(parse_binding_response(&good, &other_tid), Err(StunError::TransactionMismatch));
}

#[test]
fn unknown_family_and_short_values_fail() {
    assert_eq!(
        parse_xor_mapped_address(&[0, 3, 0, 0, 0, 0, 0, 0], &TID),
        Err(StunError::UnknownFamily(3))
    );
    assert_eq!(parse_xor_mapped_address(&[0, 1, 0, 0], &TID), Err(StunError::AddressTooShort));
    assert_eq!(parse_mapped_address(&[0, 2, 0, 0, 0, 0, 0, 0]), Err(StunError::AddressTooShort));
}

#[test]
fn no_address_attribute() {
    let data = response(&[attribute(0x8028, &[1, 2, 3, 4])]);
    assert_eq!(parse_binding_response(&data, &TID), Err(StunError::NoAddressAttribute));
}

#[test]
fn stun_silence_reports_timeout() {
    let e = NatTraversalError::from_stun(StunError::Timeout);
    assert_eq!(e, NatTraversalError::StunFailed("timeout".to_string()));
    assert_eq!(StunError::Truncated.reason(), "response truncated");
}
