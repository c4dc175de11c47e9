//! The instruction decoder.
//!
//! After every middleware has peeled its private header bytes, the remaining
//! bytes are `[opcode discriminant] [opcode payload]`, with the payload laid
//! out little-endian.  [`decode_instruction`] turns them into a
//! [`DexInstruction`] and tells a malformed payload apart from an opcode
//! discriminant no middleware knows, since the two route differently.

use vstd::prelude::*;

use crate::BOOTSTRAP_SENTINEL;

verus! {

/// Which side of the book an order stands on.
#[derive(Clone, Copy, PartialEq, Eq, Structural, Debug)]
pub enum Side {
    Bid,
    Ask,
}

/// A decoded order-book instruction: the opcode plus its payload.
#[derive(Clone, Copy, PartialEq, Eq, Structural, Debug)]
pub enum DexInstruction {
    InitOpenOrders,
    NewOrderV3 { side: Side, limit_price: u64, max_qty: u64, client_order_id: u64 },
    CancelOrderV2 { side: Side, order_id: u128 },
    CancelOrderByClientIdV2 { client_id: u64 },
    SettleFunds,
    CloseOpenOrders,
    Prune { limit: u16 },
    ConsumeEventsPermissioned { limit: u16 },
}

/// Why a byte buffer failed to decode: the discriminant is outside the known
/// opcode space (which routes to the fallback hooks), or the buffer is
/// malformed (which aborts the call).
#[derive(Clone, Copy, PartialEq, Eq, Structural, Debug)]
pub enum DecodeError {
    UnknownOpcode,
    Malformed,
}

pub const SETTLE_FUNDS_OPCODE: u8 = 5;
pub const NEW_ORDER_V3_OPCODE: u8 = 10;
pub const CANCEL_ORDER_V2_OPCODE: u8 = 11;
pub const CANCEL_ORDER_BY_CLIENT_ID_V2_OPCODE: u8 = 12;
pub const CLOSE_OPEN_ORDERS_OPCODE: u8 = 14;
pub const INIT_OPEN_ORDERS_OPCODE: u8 = 15;
pub const PRUNE_OPCODE: u8 = 16;
pub const CONSUME_EVENTS_PERMISSIONED_OPCODE: u8 = 17;

/// The discriminant under which an instruction travels on the wire.
pub open spec fn opcode_of(ix: DexInstruction) -> u8 {
    match ix {
        DexInstruction::InitOpenOrders => INIT_OPEN_ORDERS_OPCODE,
        DexInstruction::NewOrderV3 { .. } => NEW_ORDER_V3_OPCODE,
        DexInstruction::CancelOrderV2 { .. } => CANCEL_ORDER_V2_OPCODE,
        DexInstruction::CancelOrderByClientIdV2 { .. } => CANCEL_ORDER_BY_CLIENT_ID_V2_OPCODE,
        DexInstruction::SettleFunds => SETTLE_FUNDS_OPCODE,
        DexInstruction::CloseOpenOrders => CLOSE_OPEN_ORDERS_OPCODE,
        DexInstruction::Prune { .. } => PRUNE_OPCODE,
        DexInstruction::ConsumeEventsPermissioned { .. } => CONSUME_EVENTS_PERMISSIONED_OPCODE,
    }
}

/// Whether a discriminant byte belongs to the known opcode space.
pub open spec fn is_known_opcode(b: u8) -> bool {
    ||| b == SETTLE_FUNDS_OPCODE
    ||| b == NEW_ORDER_V3_OPCODE
    ||| b == CANCEL_ORDER_V2_OPCODE
    ||| b == CANCEL_ORDER_BY_CLIENT_ID_V2_OPCODE
    ||| b == CLOSE_OPEN_ORDERS_OPCODE
    ||| b == INIT_OPEN_ORDERS_OPCODE
    ||| b == PRUNE_OPCODE
    ||| b == CONSUME_EVENTS_PERMISSIONED_OPCODE
}

/// The bootstrap sentinel lies outside the opcode space, so growing the
/// opcode space must keep this lemma provable.
pub proof fn lemma_sentinel_outside_opcode_space()
    ensures
        !is_known_opcode(BOOTSTRAP_SENTINEL),
        forall|ix: DexInstruction| opcode_of(ix) != BOOTSTRAP_SENTINEL,
{
}

/// The little-endian value of a byte string: the first byte is the least
/// significant.
pub open spec fn le_bytes(s: Seq<u8>) -> nat
    decreases s.len(),
{
    if s.len() == 0 {
        0
    } else {
        (s[0] + 256 * le_bytes(s.subrange(1, s.len() as int))) as nat
    }
}

/// 256 to the power `n`.
pub open spec fn pow256(n: nat) -> nat
    decreases n,
{
    if n == 0 {
        1
    } else {
        256 * pow256((n - 1) as nat)
    }
}

/// A byte string of length `n` holds a value below `pow256(n)`.
pub proof fn lemma_le_bytes_bound(s: Seq<u8>)
    ensures
        le_bytes(s) < pow256(s.len() as nat),
    decreases s.len(),
{
    if s.len() > 0 {
        lemma_le_bytes_bound(s.subrange(1, s.len() as int));
    }
}

proof fn lemma_pow256_mono(a: nat, b: nat)
    requires
        a <= b,
    ensures
        pow256(a) <= pow256(b),
    decreases b,
{
    if a < b {
        lemma_pow256_mono(a, (b - 1) as nat);
    }
}

proof fn lemma_pow256_16()
    ensures
        pow256(16) == 0x1_0000_0000_0000_0000_0000_0000_0000_0000nat,
{
    reveal_with_fuel(pow256, 17);
}

/// Reads the `n`-byte little-endian value at `off`.
fn read_le(data: &Vec<u8>, off: usize, n: usize) -> (r: u128)
    requires
        off + n <= data@.len(),
        n <= 16,
    ensures
        r == le_bytes(data@.subrange(off as int, (off + n) as int)),
{
    let len: usize = data.len();
    let mut acc: u128 = 0;
    let mut i: usize = n;
    while i > 0
        invariant
            i <= n,
            n <= 16,
            off + n <= len,
            len == data@.len(),
            acc == le_bytes(data@.subrange((off + i) as int, (off + n) as int)),
        decreases i,
    {
        i = i - 1;
        proof {
            let tail = data@.subrange((off + i) as int, (off + n) as int);
            let rest = data@.subrange((off + i + 1) as int, (off + n) as int);
            assert(tail.subrange(1, tail.len() as int) =~= rest);
            lemma_le_bytes_bound(rest);
            lemma_pow256_mono((n - i) as nat, 16);
            lemma_pow256_16();
        }
        acc = acc * 256 + data[off + i] as u128;
    }
    acc
}

/// The 8-byte little-endian value at `i` inside `s`, as a machine word.
pub open spec fn le64_at(s: Seq<u8>, i: int) -> u64 {
    le_bytes(s.subrange(i, i + 8)) as u64
}

/// The 16-byte little-endian value at `i` inside `s`, as a machine word.
pub open spec fn le128_at(s: Seq<u8>, i: int) -> u128 {
    le_bytes(s.subrange(i, i + 16)) as u128
}

/// The 2-byte little-endian value at `i` inside `s`, as a machine word.
pub open spec fn le16_at(s: Seq<u8>, i: int) -> u16 {
    le_bytes(s.subrange(i, i + 2)) as u16
}

/// The side a payload byte selects; only 0 and 1 are valid on the wire.
pub open spec fn side_of_byte(b: u8) -> Side {
    if b == 0 {
        Side::Bid
    } else {
        Side::Ask
    }
}

/// What decoding a whole post-header buffer yields.  The first byte is the
/// discriminant; the rest must be exactly the payload the opcode declares.
pub open spec fn spec_decode(bytes: Seq<u8>) -> Result<DexInstruction, DecodeError> {
    if bytes.len() == 0 {
        Err(DecodeError::Malformed)
    } else if !is_known_opcode(bytes[0]) {
        Err(DecodeError::UnknownOpcode)
    } else {
        let d = bytes[0];
        let p = bytes.subrange(1, bytes.len() as int);
        if d == INIT_OPEN_ORDERS_OPCODE {
            if p.len() == 0 { Ok(DexInstruction::InitOpenOrders) } else { Err(DecodeError::Malformed) }
        } else if d == SETTLE_FUNDS_OPCODE {
            if p.len() == 0 { Ok(DexInstruction::SettleFunds) } else { Err(DecodeError::Malformed) }
        } else if d == CLOSE_OPEN_ORDERS_OPCODE {
            if p.len() == 0 { Ok(DexInstruction::CloseOpenOrders) } else { Err(DecodeError::Malformed) }
        } else if d == NEW_ORDER_V3_OPCODE {
            if p.len() == 25 && (p[0] == 0 || p[0] == 1) {
                Ok(DexInstruction::NewOrderV3 {
                    side: side_of_byte(p[0]),
                    limit_price: le64_at(p, 1),
                    max_qty: le64_at(p, 9),
                    client_order_id: le64_at(p, 17),
                })
            } else {
                Err(DecodeError::Malformed)
            }
        } else if d == CANCEL_ORDER_V2_OPCODE {
            if p.len() == 17 && (p[0] == 0 || p[0] == 1) {
                Ok(DexInstruction::CancelOrderV2 {
                    side: side_of_byte(p[0]),
                    order_id: le128_at(p, 1),
                })
            } else {
                Err(DecodeError::Malformed)
            }
        } else if d == CANCEL_ORDER_BY_CLIENT_ID_V2_OPCODE {
            if p.len() == 8 {
                Ok(DexInstruction::CancelOrderByClientIdV2 { client_id: le64_at(p, 0) })
            } else {
                Err(DecodeError::Malformed)
            }
        } else if d == PRUNE_OPCODE {
            if p.len() == 2 {
                Ok(DexInstruction::Prune { limit: le16_at(p, 0) })
            } else {
                Err(DecodeError::Malformed)
            }
        } else {
            if p.len() == 2 {
                Ok(DexInstruction::ConsumeEventsPermissioned { limit: le16_at(p, 0) })
            } else {
                Err(DecodeError::Malformed)
            }
        }
    }
}

/// Decodes the bytes of `data` from `off` on as `[discriminant] [payload]`.
pub fn decode_instruction(data: &Vec<u8>, off: usize) -> (r: Result<DexInstruction, DecodeError>)
    requires
        off <= data@.len(),
    ensures
        r == spec_decode(data@.subrange(off as int, data@.len() as int)),
{
    let ghost bytes = data@.subrange(off as int, data@.len() as int);
    let rem: usize = data.len() - off;
    if rem == 0 {
        return Err(DecodeError::Malformed);
    }
    let d = data[off];
    assert(d == bytes[0]);
    let ghost p = bytes.subrange(1, bytes.len() as int);
    let plen: usize = rem - 1;
    let poff: usize = off + 1;
    assert(p.len() == plen);
    if d == INIT_OPEN_ORDERS_OPCODE || d == SETTLE_FUNDS_OPCODE || d == CLOSE_OPEN_ORDERS_OPCODE {
        if plen == 0 {
            if d == INIT_OPEN_ORDERS_OPCODE {
                Ok(DexInstruction::InitOpenOrders)
            } else if d == SETTLE_FUNDS_OPCODE {
                Ok(DexInstruction::SettleFunds)
            } else {
                Ok(DexInstruction::CloseOpenOrders)
            }
        } else {
            Err(DecodeError::Malformed)
        }
    } else if d == NEW_ORDER_V3_OPCODE {
        if plen == 25 && (data[poff] == 0 || data[poff] == 1) {
            assert(p[0] == data@[poff as int]);
            let side = if data[poff] == 0 { Side::Bid } else { Side::Ask };
            let limit_price = read_le(data, poff + 1, 8) as u64;
            let max_qty = read_le(data, poff + 9, 8) as u64;
            let client_order_id = read_le(data, poff + 17, 8) as u64;
            proof {
                assert(data@.subrange((poff + 1) as int, (poff + 9) as int) =~= p.subrange(1, 9));
                assert(data@.subrange((poff + 9) as int, (poff + 17) as int) =~= p.subrange(9, 17));
                assert(data@.subrange((poff + 17) as int, (poff + 25) as int) =~= p.subrange(17, 25));
            }
            Ok(DexInstruction::NewOrderV3 { side, limit_price, max_qty, client_order_id })
        } else {
            Err(DecodeError::Malformed)
        }
    } else if d == CANCEL_ORDER_V2_OPCODE {
        if plen == 17 && (data[poff] == 0 || data[poff] == 1) {
            assert(p[0] == data@[poff as int]);
            let side = if data[poff] == 0 { Side::Bid } else { Side::Ask };
            let order_id = read_le(data, poff + 1, 16);
            proof {
                assert(data@.subrange((poff + 1) as int, (poff + 17) as int) =~= p.subrange(1, 17));
            }
            Ok(DexInstruction::CancelOrderV2 { side, order_id })
        } else {
            Err(DecodeError::Malformed)
        }
    } else if d == CANCEL_ORDER_BY_CLIENT_ID_V2_OPCODE {
        if plen == 8 {
            let client_id = read_le(data, poff, 8) as u64;
            proof {
                assert(data@.subrange(poff as int, (poff + 8) as int) =~= p.subrange(0, 8));
            }
            Ok(DexInstruction::CancelOrderByClientIdV2 { client_id })
        } else {
            Err(DecodeError::Malformed)
        }
    } else if d == PRUNE_OPCODE || d == CONSUME_EVENTS_PERMISSIONED_OPCODE {
        if plen == 2 {
            let limit = read_le(data, poff, 2) as u16;
            proof {
                assert(data@.subrange(poff as int, (poff + 2) as int) =~= p.subrange(0, 2));
            }
            if d == PRUNE_OPCODE {
                Ok(DexInstruction::Prune { limit })
            } else {
                Ok(DexInstruction::ConsumeEventsPermissioned { limit })
            }
        } else {
            Err(DecodeError::Malformed)
        }
    } else {
        Err(DecodeError::UnknownOpcode)
    }
}

} // verus!
