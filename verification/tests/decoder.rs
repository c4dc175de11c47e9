use credix_permissioned_market::instruction::{decode_instruction, DecodeError, DexInstruction, Side};

#[test]
fn decodes_new_order_with_exact_little_endian_fields() {
    let mut d = vec![10u8, 1];
    d.extend_from_slice(&0x0102030405060708u64.to_le_bytes());
    d.extend_from_slice(&7u64.to_le_bytes());
    d.extend_from_slice(&0xFFFF_FFFF_FFFF_FFFFu64.to_le_bytes());
    assert_eq!(
        decode_instruction(&d, 0),
        Ok(DexInstruction::NewOrderV3 {
            side: Side::Ask,
            limit_price: 0x0102030405060708,
            max_qty: 7,
            client_order_id: 0xFFFF_FFFF_FFFF_FFFF,
        })
    );
}

#[test]
fn decodes_new_order_bid_side() {
    let mut d = vec![10u8, 0];
    d.extend_from_slice(&1u64.to_le_bytes());
    d.extend_from_slice(&2u64.to_le_bytes());
    d.extend_from_slice(&3u64.to_le_bytes());
    assert_eq!(
        decode_instruction(&d, 0),
        Ok(DexInstruction::NewOrderV3 {
            side: Side::Bid,
            limit_price: 1,
            max_qty: 2,
            client_order_id: 3,
        })
    );
}

#[test]
fn decodes_cancel_order_with_wide_order_id() {
    let mut d = vec![11u8, 0];
    d.extend_from_slice(&0x0102030405060708090A0B0C0D0E0F10u128.to_le_bytes());
    assert_eq!(
        decode_instruction(&d, 0),
        Ok(DexInstruction::CancelOrderV2 {
            side: Side::Bid,
            order_id: 0x0102030405060708090A0B0C0D0E0F10,
        })
    );
}

#[test]
fn decodes_cancel_order_by_client_id() {
    let mut d = vec![12u8];
    d.extend_from_slice(&99u64.to_le_bytes());
    assert_eq!(
        decode_instruction(&d, 0),
        Ok(DexInstruction::CancelOrderByClientIdV2 { client_id: 99 })
    );
}

#[test]
fn decodes_bare_opcodes() {
    assert_eq!(decode_instruction(&vec![5], 0), Ok(DexInstruction::SettleFunds));
    assert_eq!(decode_instruction(&vec![14], 0), Ok(DexInstruction::CloseOpenOrders));
    assert_eq!(decode_instruction(&vec![15], 0), Ok(DexInstruction::InitOpenOrders));
}

#[test]
fn decodes_prune_and_consume_events_limits() {
    let mut d = vec![16u8];
    d.extend_from_slice(&770u16.to_le_bytes());
    assert_eq!(decode_instruction(&d, 0), Ok(DexInstruction::Prune { limit: 770 }));
    let mut d2 = vec![17u8];
    d2.extend_from_slice(&5u16.to_le_bytes());
    assert_eq!(
        decode_instruction(&d2, 0),
        Ok(DexInstruction::ConsumeEventsPermissioned { limit: 5 })
    );
}

#[test]
fn decodes_from_an_offset_past_header_bytes() {
    assert_eq!(decode_instruction(&vec![0xAA, 0xBB, 15], 2), Ok(DexInstruction::InitOpenOrders));
}

#[test]
fn unknown_discriminants_are_told_apart_from_malformed_payloads() {
    assert_eq!(decode_instruction(&vec![99], 0), Err(DecodeError::UnknownOpcode));
    assert_eq!(decode_instruction(&vec![255, 1], 0), Err(DecodeError::UnknownOpcode));
    assert_eq!(decode_instruction(&vec![], 0), Err(DecodeError::Malformed));
    assert_eq!(decode_instruction(&vec![10], 0), Err(DecodeError::Malformed));
    assert_eq!(decode_instruction(&vec![15, 0], 0), Err(DecodeError::Malformed));
}

#[test]
fn bad_side_byte_is_malformed() {
    let mut d = vec![10u8, 2];
    d.extend_from_slice(&1u64.to_le_bytes());
    d.extend_from_slice(&2u64.to_le_bytes());
    d.extend_from_slice(&3u64.to_le_bytes());
    assert_eq!(decode_instruction(&d, 0), Err(DecodeError::Malformed));
}

#[test]
fn truncated_limits_are_malformed() {
    assert_eq!(decode_instruction(&vec![16, 1], 0), Err(DecodeError::Malformed));
    assert_eq!(decode_instruction(&vec![17], 0), Err(DecodeError::Malformed));
}
