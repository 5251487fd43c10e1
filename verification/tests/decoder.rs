use sequencer_client::decoder::{
    layout_of, Action, ActionError, Address, Uint256, MAX_L2_MESSAGE_SIZE,
};
use sequencer_client::types::{Header, L1IncomingMessageHeader};

const TARGET: [u8; 20] = [
    0x11, 0x22, 0x33, 0x44, 0x55, 0x66, 0x77, 0x88, 0x99, 0xaa, 0xbb, 0xcc, 0xdd, 0xee, 0xff, 0x01,
    0x02, 0x03, 0x04, 0x05,
];

fn word(value: u64) -> ethereum_types::U256 {
    ethereum_types::U256::from(value)
}

/// A legacy transaction: nonce, gas price, gas, to, value, data, v, r, s.
fn legacy_tx(to: Option<[u8; 20]>, value: ethereum_types::U256, data: &[u8]) -> Vec<u8> {
    let mut list = rlp::RlpStream::new_list(9);
    list.append(&7u64);
    list.append(&word(1_000_000_000));
    list.append(&21_000u64);
    match to {
        Some(bytes) => list.append(&ethereum_types::H160(bytes)),
        None => list.append_empty_data(),
    };
    list.append(&value);
    list.append(&data.to_vec());
    list.append(&27u64);
    list.append(&word(5));
    list.append(&word(6));
    list.out().to_vec()
}

/// An access-list transaction: chain id, nonce, gas price, gas, to,
/// value, data, access list, y parity, r, s.
fn access_list_tx(to: Option<[u8; 20]>, value: ethereum_types::U256, data: &[u8]) -> Vec<u8> {
    let mut list = rlp::RlpStream::new_list(11);
    list.append(&42170u64);
    list.append(&7u64);
    list.append(&word(1_000_000_000));
    list.append(&21_000u64);
    match to {
        Some(bytes) => list.append(&ethereum_types::H160(bytes)),
        None => list.append_empty_data(),
    };
    list.append(&value);
    list.append(&data.to_vec());
    list.begin_list(0);
    list.append(&1u64);
    list.append(&word(5));
    list.append(&word(6));
    list.out().to_vec()
}

/// A dynamic-fee transaction: chain id, nonce, priority fee, fee cap,
/// gas, to, value, data, access list, y parity, r, s.
fn dynamic_fee_tx(to: Option<[u8; 20]>, value: ethereum_types::U256, data: &[u8]) -> Vec<u8> {
    let mut list = rlp::RlpStream::new_list(12);
    list.append(&42170u64);
    list.append(&7u64);
    list.append(&word(2));
    list.append(&word(1_000_000_000));
    list.append(&21_000u64);
    match to {
        Some(bytes) => list.append(&ethereum_types::H160(bytes)),
        None => list.append_empty_data(),
    };
    list.append(&value);
    list.append(&data.to_vec());
    list.begin_list(0);
    list.append(&1u64);
    list.append(&word(5));
    list.append(&word(6));
    list.out().to_vec()
}

fn payload(prefix: &[u8], tx: &[u8]) -> Vec<u8> {
    let mut bytes = prefix.to_vec();
    bytes.extend_from_slice(tx);
    bytes
}

#[allow(deprecated)]
fn message(kind: i64, payload: &[u8]) -> L1IncomingMessageHeader {
    message_with_text(kind, base64::encode(payload))
}

fn message_with_text(kind: i64, text: String) -> L1IncomingMessageHeader {
    L1IncomingMessageHeader {
        header: Header {
            kind,
            sender: String::from("0xa4b000000000000000000073657175656e636572"),
            block_number: 17,
            timestamp: 1_700_000_000,
            request_id: serde_json::Value::Null,
            base_fee_l1: serde_json::Value::Null,
        },
        l2msg: text,
    }
}

#[test]
fn decodes_legacy_transaction() {
    let tx = legacy_tx(Some(TARGET), word(1000), &[0xde, 0xad, 0xbe, 0xef]);
    assert!(tx[0] > 0x7f);
    let decoded = message(3, &payload(&[4], &tx)).decode();
    assert_eq!(
        decoded,
        Some((
            Action::Call(Address { bytes: TARGET }),
            Uint256 { limbs: [1000, 0, 0, 0] },
            vec![0xde, 0xad, 0xbe, 0xef],
        ))
    );
}

#[test]
fn decodes_access_list_transaction() {
    let tx = access_list_tx(Some(TARGET), word(1000), &[1, 2, 3]);
    let decoded = message(3, &payload(&[4, 1], &tx)).decode();
    assert_eq!(
        decoded,
        Some((
            Action::Call(Address { bytes: TARGET }),
            Uint256 { limbs: [1000, 0, 0, 0] },
            vec![1, 2, 3],
        ))
    );
}

#[test]
fn decodes_dynamic_fee_transaction() {
    let tx = dynamic_fee_tx(Some(TARGET), word(1000), &[9, 8, 7, 6, 5]);
    let decoded = message(3, &payload(&[4, 2], &tx)).decode();
    assert_eq!(
        decoded,
        Some((
            Action::Call(Address { bytes: TARGET }),
            Uint256 { limbs: [1000, 0, 0, 0] },
            vec![9, 8, 7, 6, 5],
        ))
    );
}

#[test]
fn decodes_contract_creation() {
    let code = vec![0x60, 0x80, 0x60, 0x40];
    for (prefix, tx) in [
        (vec![4u8], legacy_tx(None, word(0), &code)),
        (vec![4u8, 1], access_list_tx(None, word(0), &code)),
        (vec![4u8, 2], dynamic_fee_tx(None, word(0), &code)),
    ] {
        let decoded = message(3, &payload(&prefix, &tx)).decode();
        assert_eq!(decoded, Some((Action::Create, Uint256 { limbs: [0, 0, 0, 0] }, code.clone())));
    }
}

#[test]
fn decodes_value_of_full_width() {
    let value = ethereum_types::U256([
        0x0123_4567_89ab_cdef,
        0xfedc_ba98_7654_3210,
        0x0f0f_0f0f_0f0f_0f0f,
        0x8000_0000_0000_0001,
    ]);
    let tx = dynamic_fee_tx(Some(TARGET), value, &[]);
    let decoded = message(3, &payload(&[4, 2], &tx)).decode().unwrap();
    assert_eq!(
        decoded.1,
        Uint256 {
            limbs: [
                0x0123_4567_89ab_cdef,
                0xfedc_ba98_7654_3210,
                0x0f0f_0f0f_0f0f_0f0f,
                0x8000_0000_0000_0001,
            ],
        }
    );
    assert_eq!(decoded.1.limbs, value.0);
    assert_eq!(decoded.2, Vec::<u8>::new());
}

#[test]
fn an_offset_that_does_not_fit_the_format_reads_other_fields() {
    // The fields of a legacy transaction read one place late: value as
    // destination fails, since 1000 is no address.
    let tx = legacy_tx(Some(TARGET), word(1000), &[1]);
    assert_eq!(L1IncomingMessageHeader::parse_single_tx(&tx, 1), None);
    assert_eq!(
        L1IncomingMessageHeader::parse_single_tx(&tx, 0),
        Some((Action::Call(Address { bytes: TARGET }), Uint256 { limbs: [1000, 0, 0, 0] }, vec![1]))
    );
    // An access-list transaction read as if it were a dynamic-fee one.
    let typed = access_list_tx(Some(TARGET), word(1000), &[1]);
    assert_eq!(L1IncomingMessageHeader::parse_single_tx(&typed, 2), None);
    assert_eq!(message(3, &payload(&[4, 2], &typed)).decode(), None);
}

#[test]
fn decoder_reads_only_kind_and_payload() {
    let tx = legacy_tx(Some(TARGET), word(5), &[1, 2]);
    let one = message(3, &payload(&[4], &tx));
    let mut other = one.clone();
    other.header.sender = String::from("someone else");
    other.header.block_number = 99;
    other.header.timestamp = 1;
    other.header.request_id = serde_json::Value::Bool(true);
    assert_eq!(one.decode(), other.decode());
    assert!(one.decode().is_some());
}

#[test]
fn decoding_twice_gives_the_same() {
    let tx = access_list_tx(Some(TARGET), word(77), &[4, 4, 4]);
    let valid = message(3, &payload(&[4, 1], &tx));
    let first = valid.decode();
    let second = valid.decode();
    assert!(first.is_some());
    assert_eq!(first, second);
    let invalid = message(3, &[4, 0, 1, 2]);
    assert_eq!(invalid.decode(), None);
    assert_eq!(invalid.decode(), None);
}

#[test]
fn rejects_other_kinds() {
    let tx = legacy_tx(Some(TARGET), word(1000), &[1]);
    let bytes = payload(&[4], &tx);
    assert!(message(3, &bytes).decode().is_some());
    for kind in [0i64, 1, 2, 4, 12, -3, i64::MAX, i64::MIN] {
        assert_eq!(message(kind, &bytes).decode(), None);
    }
}

#[test]
fn rejects_text_that_is_not_base64() {
    assert_eq!(message_with_text(3, String::from("%%%not base64%%%")).decode(), None);
    assert_eq!(message_with_text(3, String::from("BA=")).decode(), None);
    assert_eq!(message_with_text(3, String::from("B\u{e4}==")).decode(), None);
}

#[test]
fn rejects_short_payloads() {
    assert_eq!(message_with_text(3, String::new()).decode(), None);
    assert_eq!(message(3, &[]).decode(), None);
    assert_eq!(message(3, &[4]).decode(), None);
    assert_eq!(L1IncomingMessageHeader::parse_l2_message(&[]), None);
    assert_eq!(L1IncomingMessageHeader::parse_l2_message(&[4]), None);
    assert_eq!(L1IncomingMessageHeader::parse_l2_message(&[4, 1]), None);
    assert_eq!(L1IncomingMessageHeader::parse_l2_message(&[4, 2]), None);
    assert_eq!(L1IncomingMessageHeader::parse_l2_message(&[4, 0xc0]), None);
}

#[test]
fn rejects_other_batch_formats() {
    let tx = legacy_tx(Some(TARGET), word(1000), &[1]);
    for tag in [0u8, 1, 2, 3, 5, 6, 7, 8, 9, 0x7f, 0x80, 0xff] {
        assert_eq!(message(3, &payload(&[tag], &tx)).decode(), None);
    }
}

#[test]
fn rejects_unknown_leading_bytes() {
    let tx = dynamic_fee_tx(Some(TARGET), word(1000), &[1]);
    for leading in [0u8, 3, 4, 0x10, 0x7e, 0x7f] {
        assert_eq!(message(3, &payload(&[4, leading], &tx)).decode(), None);
    }
}

#[test]
fn rejects_truncated_and_malformed_rlp() {
    let tx = legacy_tx(Some(TARGET), word(1000), &[1, 2, 3, 4]);
    for end in 0..tx.len() {
        assert_eq!(message(3, &payload(&[4], &tx[..end])).decode(), None);
    }
    // A byte string where the list should be.
    assert_eq!(message(3, &[4, 0x83, 1, 2, 3]).decode(), None);
    // A list that is too short to have the three fields.
    let mut short = rlp::RlpStream::new_list(5);
    for n in 1u64..=5 {
        short.append(&n);
    }
    assert_eq!(message(3, &payload(&[4], &short.out().to_vec())).decode(), None);
    // A length that claims more bytes than follow.
    assert_eq!(message(3, &[4, 0xf8, 0xff, 1, 2, 3]).decode(), None);
}

#[test]
fn rejects_fields_of_the_wrong_shape() {
    let fields = |to: Vec<u8>, value: Vec<u8>, data_is_list: bool| {
        let mut list = rlp::RlpStream::new_list(9);
        list.append(&7u64);
        list.append(&1u64);
        list.append(&21_000u64);
        list.append(&to);
        list.append(&value);
        if data_is_list {
            list.begin_list(0);
        } else {
            list.append(&vec![1u8, 2]);
        }
        list.append(&27u64);
        list.append(&5u64);
        list.append(&6u64);
        payload(&[4], &list.out().to_vec())
    };
    // A well-shaped transaction, to show that each change below is what breaks it.
    assert!(message(3, &fields(TARGET.to_vec(), vec![1], false)).decode().is_some());
    // An address of 19 and of 21 bytes.
    assert_eq!(message(3, &fields(TARGET[..19].to_vec(), vec![1], false)).decode(), None);
    let mut long = TARGET.to_vec();
    long.push(0);
    assert_eq!(message(3, &fields(long, vec![1], false)).decode(), None);
    // A value of 33 bytes, and one with a leading zero.
    assert_eq!(message(3, &fields(TARGET.to_vec(), vec![1; 33], false)).decode(), None);
    assert_eq!(message(3, &fields(TARGET.to_vec(), vec![0, 1], false)).decode(), None);
    // A list where the call data should be.
    assert_eq!(message(3, &fields(TARGET.to_vec(), vec![1], true)).decode(), None);
}

#[test]
fn rejects_an_empty_list_as_destination() {
    let mut list = rlp::RlpStream::new_list(9);
    list.append(&7u64);
    list.append(&1u64);
    list.append(&21_000u64);
    list.begin_list(0);
    list.append(&1u64);
    list.append(&vec![1u8, 2]);
    list.append(&27u64);
    list.append(&5u64);
    list.append(&6u64);
    assert_eq!(message(3, &payload(&[4], &list.out().to_vec())).decode(), None);
}

#[test]
fn size_limit_is_on_the_decoded_payload() {
    // Overhead of the transaction around its call data, found by building one.
    let probe = payload(&[4, 2], &dynamic_fee_tx(Some(TARGET), word(1), &vec![0xaa; 70_000]));
    let overhead = probe.len() - 70_000;
    let fitting = vec![0xaa; MAX_L2_MESSAGE_SIZE - overhead];
    let at_limit = payload(&[4, 2], &dynamic_fee_tx(Some(TARGET), word(1), &fitting));
    assert_eq!(at_limit.len(), 262_144);
    let decoded = message(3, &at_limit).decode();
    assert_eq!(
        decoded,
        Some((Action::Call(Address { bytes: TARGET }), Uint256 { limbs: [1, 0, 0, 0] }, fitting))
    );

    let too_much = vec![0xaa; MAX_L2_MESSAGE_SIZE - overhead + 1];
    let over_limit = payload(&[4, 2], &dynamic_fee_tx(Some(TARGET), word(1), &too_much));
    assert_eq!(over_limit.len(), 262_145);
    assert_eq!(message(3, &over_limit).decode(), None);
    // The same bytes are a transaction, were it not for the limit.
    assert!(L1IncomingMessageHeader::parse_l2_message(&over_limit).is_some());
}

#[test]
fn text_longer_than_the_limit_can_hold_a_payload_within_it() {
    let data = vec![0x55; 200_000];
    let bytes = payload(&[4], &legacy_tx(Some(TARGET), word(3), &data));
    let msg = message(3, &bytes);
    assert!(msg.l2msg.len() > MAX_L2_MESSAGE_SIZE);
    assert!(bytes.len() <= MAX_L2_MESSAGE_SIZE);
    assert_eq!(
        msg.decode(),
        Some((Action::Call(Address { bytes: TARGET }), Uint256 { limbs: [3, 0, 0, 0] }, data))
    );
}

#[test]
fn action_of_an_item() {
    assert_eq!(Action::decode(&[0x80]), Ok(Action::Create));
    assert_eq!(Action::decode(&[0xc0]), Err(ActionError::ExpectedData));
    let mut item = vec![0x94];
    item.extend_from_slice(&TARGET);
    assert_eq!(Action::decode(&item), Ok(Action::Call(Address { bytes: TARGET })));
    assert_eq!(Action::decode(&[]), Err(ActionError::InvalidAddress));
    assert_eq!(Action::decode(&[0x01]), Err(ActionError::InvalidAddress));
    assert_eq!(Action::decode(&[0x82, 1, 2]), Err(ActionError::InvalidAddress));
    assert_eq!(Action::decode(&[0xc1, 0x80]), Err(ActionError::InvalidAddress));
    let mut cut = vec![0x94];
    cut.extend_from_slice(&TARGET[..10]);
    assert_eq!(Action::decode(&cut), Err(ActionError::InvalidAddress));
}

#[test]
fn layout_by_the_first_two_bytes() {
    assert_eq!(layout_of(&[]), None);
    assert_eq!(layout_of(&[4]), None);
    assert_eq!(layout_of(&[4, 0x80]), Some((1, 0)));
    assert_eq!(layout_of(&[4, 0xf8, 0x6b]), Some((1, 0)));
    assert_eq!(layout_of(&[4, 0xff]), Some((1, 0)));
    assert_eq!(layout_of(&[4, 1, 0xf8]), Some((2, 1)));
    assert_eq!(layout_of(&[4, 2, 0xf8]), Some((2, 2)));
    assert_eq!(layout_of(&[4, 0, 0xf8]), None);
    assert_eq!(layout_of(&[4, 3, 0xf8]), None);
    assert_eq!(layout_of(&[4, 0x7f, 0xf8]), None);
    assert_eq!(layout_of(&[3, 2, 0xf8]), None);
    assert_eq!(layout_of(&[5, 0xf8, 0xf8]), None);
}

#[test]
fn fields_are_taken_by_position() {
    // Nine byte strings, each telling its own place.
    let mut list = rlp::RlpStream::new_list(9);
    for place in 0u8..9 {
        if place == 3 || place == 4 || place == 5 {
            list.append(&vec![0xa0 + place; 20]);
        } else {
            list.append(&vec![place + 1]);
        }
    }
    let bytes = list.out().to_vec();
    let limbs_of = |byte: u8| ethereum_types::U256::from_big_endian(&[byte; 20]).0;
    assert_eq!(
        L1IncomingMessageHeader::parse_single_tx(&bytes, 0),
        Some((Action::Call(Address { bytes: [0xa3; 20] }), Uint256 { limbs: limbs_of(0xa4) }, vec![
            0xa5;
            20
        ]))
    );
    // One place late, the destination is field 4 and the value field 5;
    // the call data is then field 6.
    assert_eq!(
        L1IncomingMessageHeader::parse_single_tx(&bytes, 1),
        Some((Action::Call(Address { bytes: [0xa4; 20] }), Uint256 { limbs: limbs_of(0xa5) }, vec![
            7
        ]))
    );
    // Two places late the destination would be field 5, the value field 6.
    assert_eq!(
        L1IncomingMessageHeader::parse_single_tx(&bytes, 2),
        Some((Action::Call(Address { bytes: [0xa5; 20] }), Uint256 { limbs: [7, 0, 0, 0] }, vec![8]))
    );
    // Three places late the destination would be field 6, which is no address.
    assert_eq!(L1IncomingMessageHeader::parse_single_tx(&bytes, 3), None);
    // Past the end there is no field at all.
    assert_eq!(L1IncomingMessageHeader::parse_single_tx(&bytes, 6), None);
}
