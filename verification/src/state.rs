//! The records that the messaging program keeps on the ledger.
//!
//! The adapter reads them and never writes them. A stored record is its
//! fields in declaration order at their fixed widths, integers
//! least-significant byte first, and nothing else.

use crate::error::DecodeError;
use crate::wire::{
    le_bytes, le_value, lemma_le_bytes_len, lemma_le_bytes_of_le_value,
    lemma_le_value_bound, lemma_le_value_of_le_bytes, lemma_pow256_widths, push_u32_le,
    push_u64_le, read_u32_le, read_u64_le,
};
use vstd::prelude::*;

verus! {

/// The configuration of the messaging program, set once when it is initialised.
#[derive(Clone, Copy, Debug, PartialEq, Eq)]
pub struct BridgeConfig {
    /// Period for which a guardian set stays valid after it has been replaced.
    pub guardian_set_expiration_time: u32,
    /// Amount of lamports that must be paid to the protocol to post a message.
    pub fee: u64,
}

/// The state of the messaging program.
#[derive(Clone, Copy, Debug, PartialEq, Eq)]
pub struct BridgeData {
    /// The current guardian set index, which decides the signature sets to accept.
    pub guardian_set_index: u32,
    /// Lamports in the collection account.
    pub last_lamports: u64,
    /// The configuration of the messaging program.
    pub config: BridgeConfig,
}

/// Length of a stored [`BridgeData`].
pub const BRIDGE_DATA_LEN: usize = 24;

/// The stored form of a record.
pub open spec fn encode_bridge_data(record: BridgeData) -> Seq<u8> {
    le_bytes(record.guardian_set_index as nat, 4) + le_bytes(record.last_lamports as nat, 8)
        + le_bytes(record.config.guardian_set_expiration_time as nat, 4) + le_bytes(
        record.config.fee as nat,
        8,
    )
}

/// The record that a buffer stores, or the reason why it stores none.
pub open spec fn decode_bridge_data(bytes: Seq<u8>) -> Result<BridgeData, DecodeError> {
    if bytes.len() < BRIDGE_DATA_LEN {
        Err(DecodeError::UnexpectedEnd)
    } else if bytes.len() > BRIDGE_DATA_LEN {
        Err(DecodeError::TrailingBytes)
    } else {
        Ok(
            BridgeData {
                guardian_set_index: le_value(bytes.subrange(0, 4)) as u32,
                last_lamports: le_value(bytes.subrange(4, 12)) as u64,
                config: BridgeConfig {
                    guardian_set_expiration_time: le_value(bytes.subrange(12, 16)) as u32,
                    fee: le_value(bytes.subrange(16, 24)) as u64,
                },
            },
        )
    }
}

impl BridgeData {
    /// Reads a record from a buffer that must hold it exactly.
    pub fn try_from_slice(data: &[u8]) -> (r: Result<BridgeData, DecodeError>)
        ensures
            r == decode_bridge_data(data@),
    {
        let len: usize = data.len();
        if len < BRIDGE_DATA_LEN {
            return Err(DecodeError::UnexpectedEnd);
        }
        if len > BRIDGE_DATA_LEN {
            return Err(DecodeError::TrailingBytes);
        }
        let guardian_set_index: u32 = read_u32_le(data, 0);
        let last_lamports: u64 = read_u64_le(data, 4);
        let guardian_set_expiration_time: u32 = read_u32_le(data, 12);
        let fee: u64 = read_u64_le(data, 16);
        Ok(
            BridgeData {
                guardian_set_index,
                last_lamports,
                config: BridgeConfig { guardian_set_expiration_time, fee },
            },
        )
    }

    /// The stored form of the record.
    pub fn to_vec(&self) -> (bytes: Vec<u8>)
        ensures
            bytes@ == encode_bridge_data(*self),
    {
        let mut bytes: Vec<u8> = Vec::new();
        push_u32_le(&mut bytes, self.guardian_set_index);
        push_u64_le(&mut bytes, self.last_lamports);
        push_u32_le(&mut bytes, self.config.guardian_set_expiration_time);
        push_u64_le(&mut bytes, self.config.fee);
        bytes
    }
}

/// A stored record is 24 bytes long.
pub proof fn lemma_bridge_data_len(record: BridgeData)
    ensures
        encode_bridge_data(record).len() == BRIDGE_DATA_LEN,
{
    lemma_le_bytes_len(record.guardian_set_index as nat, 4);
    lemma_le_bytes_len(record.last_lamports as nat, 8);
    lemma_le_bytes_len(record.config.guardian_set_expiration_time as nat, 4);
    lemma_le_bytes_len(record.config.fee as nat, 8);
}

/// Every record is read back from its stored form.
pub proof fn lemma_decode_encode_bridge_data(record: BridgeData)
    ensures
        decode_bridge_data(encode_bridge_data(record)) == Ok::<BridgeData, DecodeError>(record),
{
    let bytes = encode_bridge_data(record);
    lemma_bridge_data_len(record);
    lemma_pow256_widths();
    lemma_le_bytes_len(record.guardian_set_index as nat, 4);
    lemma_le_bytes_len(record.last_lamports as nat, 8);
    lemma_le_bytes_len(record.config.guardian_set_expiration_time as nat, 4);
    lemma_le_bytes_len(record.config.fee as nat, 8);
    assert(bytes.subrange(0, 4) =~= le_bytes(record.guardian_set_index as nat, 4));
    assert(bytes.subrange(4, 12) =~= le_bytes(record.last_lamports as nat, 8));
    assert(bytes.subrange(12, 16) =~= le_bytes(
        record.config.guardian_set_expiration_time as nat,
        4,
    ));
    assert(bytes.subrange(16, 24) =~= le_bytes(record.config.fee as nat, 8));
    lemma_le_value_of_le_bytes(record.guardian_set_index as nat, 4);
    lemma_le_value_of_le_bytes(record.last_lamports as nat, 8);
    lemma_le_value_of_le_bytes(record.config.guardian_set_expiration_time as nat, 4);
    lemma_le_value_of_le_bytes(record.config.fee as nat, 8);
}

/// A buffer that stores a record is the stored form of that record.
pub proof fn lemma_encode_decode_bridge_data(bytes: Seq<u8>)
    requires
        decode_bridge_data(bytes) is Ok,
    ensures
        encode_bridge_data(decode_bridge_data(bytes)->Ok_0) == bytes,
{
    let a = bytes.subrange(0, 4);
    let b = bytes.subrange(4, 12);
    let c = bytes.subrange(12, 16);
    let d = bytes.subrange(16, 24);
    lemma_pow256_widths();
    lemma_le_value_bound(a);
    lemma_le_value_bound(b);
    lemma_le_value_bound(c);
    lemma_le_value_bound(d);
    lemma_le_bytes_of_le_value(a);
    lemma_le_bytes_of_le_value(b);
    lemma_le_bytes_of_le_value(c);
    lemma_le_bytes_of_le_value(d);
    assert(a + b + c + d =~= bytes);
}

} // verus!
