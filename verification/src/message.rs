//! The transfer message that `Send` hands to the messaging protocol.

use crate::instruction::SendArgs;
use vstd::prelude::*;

verus! {

/// The chains that the bridge connects, by name.
#[derive(Clone, Copy, Debug, PartialEq, Eq)]
pub enum Chain {
    Solana,
    Ethereum,
}

/// The chain that the adapter runs on, where the transferred asset is native.
pub const HOST_CHAIN: Chain = Chain::Solana;

/// The chain that every transfer of the adapter is addressed to.
pub const TARGET_CHAIN: Chain = Chain::Ethereum;

/// The number by which the messaging protocol knows a chain.
pub open spec fn chain_id(chain: Chain) -> u16 {
    match chain {
        Chain::Solana => 1,
        Chain::Ethereum => 2,
    }
}

impl Chain {
    /// The number by which the messaging protocol knows the chain.
    pub fn id(self) -> (id: u16)
        ensures
            id == chain_id(self),
    {
        match self {
            Chain::Solana => 1,
            Chain::Ethereum => 2,
        }
    }
}

/// The payload of a native-asset transfer message.
#[derive(Clone, Copy, Debug, PartialEq, Eq)]
pub struct TransferNativeData {
    pub nonce: u32,
    pub amount: u64,
    /// What the relayer of the message may keep.
    pub fee: u64,
    pub target_address: [u8; 32],
    pub target_chain: u16,
}

/// The mathematical value of a [`TransferNativeData`].
pub struct TransferMessage {
    pub nonce: u32,
    pub amount: u64,
    pub fee: u64,
    pub target_address: Seq<u8>,
    pub target_chain: u16,
}

impl View for TransferNativeData {
    type V = TransferMessage;

    open spec fn view(&self) -> TransferMessage {
        TransferMessage {
            nonce: self.nonce,
            amount: self.amount,
            fee: self.fee,
            target_address: self.target_address@,
            target_chain: self.target_chain,
        }
    }
}

/// The message of a `Send`: nonce, amount and address are the command's, the
/// relayer fee is zero and the target is always [`TARGET_CHAIN`].
pub open spec fn transfer_message(
    destination_address: Seq<u8>,
    transfer_nonce: u32,
    amount: u64,
) -> TransferMessage {
    TransferMessage {
        nonce: transfer_nonce,
        amount,
        fee: 0,
        target_address: destination_address,
        target_chain: chain_id(TARGET_CHAIN),
    }
}

impl TransferNativeData {
    /// Builds the message of a `Send` with the given arguments.
    pub fn new(args: &SendArgs) -> (data: TransferNativeData)
        ensures
            data@ == transfer_message(
                args.destination_address@,
                args.transfer_nonce,
                args.amount,
            ),
            data.nonce == args.transfer_nonce,
            data.amount == args.amount,
            data.fee == 0,
            data.target_address == args.destination_address,
            data.target_chain == chain_id(Chain::Ethereum),
    {
        TransferNativeData {
            nonce: args.transfer_nonce,
            amount: args.amount,
            fee: 0,
            target_address: args.destination_address,
            target_chain: TARGET_CHAIN.id(),
        }
    }
}

} // verus!
