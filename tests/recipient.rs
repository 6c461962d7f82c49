use stateroom_server::ids::{ClientId, MessageRecipient};

#[test]
fn broadcast_encodes_to_zero() {
    assert_eq!(MessageRecipient::Broadcast.encode_u32(), 0);
}

#[test]
fn everyone_except_encodes_with_tag_one() {
    assert_eq!(MessageRecipient::EveryoneExcept(ClientId(5)).encode_u32(), 0x4000_0005);
}

#[test]
fn client_encodes_with_tag_two() {
    assert_eq!(MessageRecipient::Client(ClientId(7)).encode_u32(), 0x8000_0007);
}

#[test]
fn reserved_tag_does_not_decode() {
    assert_eq!(MessageRecipient::decode_u32(0xC000_0001), None);
    assert_eq!(MessageRecipient::decode_u32(u32::MAX), None);
}

#[test]
fn broadcast_ignores_id_bits() {
    assert_eq!(MessageRecipient::decode_u32(0x0000_0042), Some(MessageRecipient::Broadcast));
}

#[test]
fn recipients_round_trip_through_words() {
    let all = vec![
        MessageRecipient::Broadcast,
        MessageRecipient::EveryoneExcept(ClientId(0)),
        MessageRecipient::EveryoneExcept(ClientId(1)),
        MessageRecipient::EveryoneExcept(ClientId(0x3FFF_FFFF)),
        MessageRecipient::Client(ClientId(1)),
        MessageRecipient::Client(ClientId(12345)),
        MessageRecipient::Client(ClientId(0x3FFF_FFFF)),
    ];
    for r in all {
        assert_eq!(MessageRecipient::decode_u32(r.encode_u32()), Some(r));
    }
}

#[test]
fn recipient_from_integer_is_a_client() {
    assert_eq!(MessageRecipient::from(9u32), MessageRecipient::Client(ClientId(9)));
    assert_eq!(ClientId::new(4).value(), 4);
}
