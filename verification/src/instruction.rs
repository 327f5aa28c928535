//! The commands of the adapter and their binary encoding.
//!
//! An encoded command is one discriminant byte followed by the fields of the
//! selected variant in declaration order, each at its fixed width, integers
//! least-significant byte first. Nothing pads the fields and nothing may
//! follow them: a buffer is the encoding of at most one command, and a
//! command has exactly one encoding.

use crate::error::DecodeError;
use crate::wire::{
    le_bytes, le_value, lemma_le_bytes_len, lemma_le_bytes_of_le_value,
    lemma_le_value_bound, lemma_le_value_of_le_bytes, lemma_pow256_widths, push_bytes32,
    push_u32_le, push_u64_le, read_bytes32, read_u32_le, read_u64_le,
};
use vstd::prelude::*;

verus! {

/// A route that a transfer can take across chains.
#[derive(Clone, Copy, Debug, PartialEq, Eq)]
pub enum Waypoint {
    OrcaWormholeTerraUST,
    WormholeBinanceWsUSDC,
    WormholeEthereumWsUSDC,
}

/// The arguments of [`RosenBridgeInstruction::Send`].
#[derive(Clone, Copy, Debug, PartialEq, Eq)]
pub struct SendArgs {
    /// The recipient's address slot on the foreign chain.
    pub destination_address: [u8; 32],
    /// Distinguishes this transfer from others of the same sender.
    pub transfer_nonce: u32,
    /// Token units to transfer, unscaled.
    pub amount: u64,
}

/// The arguments of [`RosenBridgeInstruction::Prepare`].
#[derive(Clone, Copy, Debug, PartialEq, Eq)]
pub struct PrepareArgs {
    /// Token units that the bridge may spend, unscaled.
    pub amount: u64,
}

/// A command as the caller submits it.
#[derive(Clone, Copy, Debug, PartialEq, Eq)]
pub enum RosenBridgeInstruction {
    /// Pay the protocol fee and let the bridge spend `amount` tokens.
    Prepare(PrepareArgs),
    /// Emit a transfer message addressed to the foreign chain.
    Send(SendArgs),
}

/// The mathematical value of a command.
pub enum Command {
    Prepare { amount: u64 },
    Send { destination_address: Seq<u8>, transfer_nonce: u32, amount: u64 },
}

impl Command {
    /// A foreign address fills its slot of 32 bytes exactly.
    pub open spec fn wf(self) -> bool {
        self matches Command::Send { destination_address, .. } ==> destination_address.len()
            == ADDRESS_LEN
    }
}

impl View for RosenBridgeInstruction {
    type V = Command;

    open spec fn view(&self) -> Command {
        match *self {
            RosenBridgeInstruction::Prepare(args) => Command::Prepare { amount: args.amount },
            RosenBridgeInstruction::Send(args) => Command::Send {
                destination_address: args.destination_address@,
                transfer_nonce: args.transfer_nonce,
                amount: args.amount,
            },
        }
    }
}

/// The discriminant of `Prepare`.
pub const TAG_PREPARE: u8 = 0;

/// The discriminant of `Send`.
pub const TAG_SEND: u8 = 1;

/// Width of a foreign-chain address slot.
pub const ADDRESS_LEN: usize = 32;

/// Length of an encoded `Prepare`: discriminant and amount.
pub const PREPARE_LEN: usize = 9;

/// Length of an encoded `Send`: discriminant, address, nonce and amount.
pub const SEND_LEN: usize = 45;

/// The encoding of a command.
pub open spec fn encode(command: Command) -> Seq<u8> {
    match command {
        Command::Prepare { amount } => seq![TAG_PREPARE] + le_bytes(amount as nat, 8),
        Command::Send { destination_address, transfer_nonce, amount } => seq![TAG_SEND]
            + destination_address + le_bytes(transfer_nonce as nat, 4) + le_bytes(
            amount as nat,
            8,
        ),
    }
}

/// The command that a buffer encodes, or the reason why it encodes none.
///
/// The discriminant is read first, so an unknown one is reported whatever
/// follows it. After that the buffer must hold the variant's fields and
/// nothing more.
pub open spec fn decode(bytes: Seq<u8>) -> Result<Command, DecodeError> {
    if bytes.len() == 0 {
        Err(DecodeError::UnexpectedEnd)
    } else if bytes[0] == TAG_PREPARE {
        if bytes.len() < PREPARE_LEN {
            Err(DecodeError::UnexpectedEnd)
        } else if bytes.len() > PREPARE_LEN {
            Err(DecodeError::TrailingBytes)
        } else {
            Ok(Command::Prepare { amount: le_value(bytes.subrange(1, 9)) as u64 })
        }
    } else if bytes[0] == TAG_SEND {
        if bytes.len() < SEND_LEN {
            Err(DecodeError::UnexpectedEnd)
        } else if bytes.len() > SEND_LEN {
            Err(DecodeError::TrailingBytes)
        } else {
            Ok(
                Command::Send {
                    destination_address: bytes.subrange(1, 33),
                    transfer_nonce: le_value(bytes.subrange(33, 37)) as u32,
                    amount: le_value(bytes.subrange(37, 45)) as u64,
                },
            )
        }
    } else {
        Err(DecodeError::UnknownDiscriminant(bytes[0]))
    }
}

impl RosenBridgeInstruction {
    /// Decodes a command from a buffer that must hold it exactly.
    pub fn try_from_slice(data: &[u8]) -> (r: Result<RosenBridgeInstruction, DecodeError>)
        ensures
            r matches Ok(instruction) ==> decode(data@) == Ok::<Command, DecodeError>(
                instruction@,
            ),
            r matches Err(e) ==> decode(data@) == Err::<Command, DecodeError>(e),
    {
        let len: usize = data.len();
        if len == 0 {
            return Err(DecodeError::UnexpectedEnd);
        }
        let tag: u8 = data[0];
        if tag == TAG_PREPARE {
            if len < PREPARE_LEN {
                return Err(DecodeError::UnexpectedEnd);
            }
            if len > PREPARE_LEN {
                return Err(DecodeError::TrailingBytes);
            }
            let amount: u64 = read_u64_le(data, 1);
            Ok(RosenBridgeInstruction::Prepare(PrepareArgs { amount }))
        } else if tag == TAG_SEND {
            if len < SEND_LEN {
                return Err(DecodeError::UnexpectedEnd);
            }
            if len > SEND_LEN {
                return Err(DecodeError::TrailingBytes);
            }
            let destination_address: [u8; 32] = read_bytes32(data, 1);
            let transfer_nonce: u32 = read_u32_le(data, 33);
            let amount: u64 = read_u64_le(data, 37);
            Ok(
                RosenBridgeInstruction::Send(
                    SendArgs { destination_address, transfer_nonce, amount },
                ),
            )
        } else {
            Err(DecodeError::UnknownDiscriminant(tag))
        }
    }

    /// Encodes the command.
    pub fn to_vec(&self) -> (bytes: Vec<u8>)
        ensures
            bytes@ == encode(self@),
    {
        let mut bytes: Vec<u8> = Vec::new();
        match self {
            RosenBridgeInstruction::Prepare(args) => {
                bytes.push(TAG_PREPARE);
                push_u64_le(&mut bytes, args.amount);
            },
            RosenBridgeInstruction::Send(args) => {
                bytes.push(TAG_SEND);
                push_bytes32(&mut bytes, &args.destination_address);
                push_u32_le(&mut bytes, args.transfer_nonce);
                push_u64_le(&mut bytes, args.amount);
            },
        }
        bytes
    }
}

/// An encoded command is as long as its variant's fields and one discriminant byte.
pub proof fn lemma_encoded_len(command: Command)
    requires
        command.wf(),
    ensures
        command is Prepare ==> encode(command).len() == PREPARE_LEN,
        command is Send ==> encode(command).len() == SEND_LEN,
{
    match command {
        Command::Prepare { amount } => {
            lemma_le_bytes_len(amount as nat, 8);
        },
        Command::Send { destination_address, transfer_nonce, amount } => {
            lemma_le_bytes_len(transfer_nonce as nat, 4);
            lemma_le_bytes_len(amount as nat, 8);
        },
    }
}

/// Decoding inverts encoding: every command is decoded from its encoding.
pub proof fn lemma_decode_encode(command: Command)
    requires
        command.wf(),
    ensures
        decode(encode(command)) == Ok::<Command, DecodeError>(command),
{
    let bytes = encode(command);
    lemma_encoded_len(command);
    lemma_pow256_widths();
    match command {
        Command::Prepare { amount } => {
            assert(bytes.subrange(1, 9) =~= le_bytes(amount as nat, 8));
            lemma_le_value_of_le_bytes(amount as nat, 8);
        },
        Command::Send { destination_address, transfer_nonce, amount } => {
            lemma_le_bytes_len(transfer_nonce as nat, 4);
            lemma_le_bytes_len(amount as nat, 8);
            assert(bytes.subrange(1, 33) =~= destination_address);
            assert(bytes.subrange(33, 37) =~= le_bytes(transfer_nonce as nat, 4));
            assert(bytes.subrange(37, 45) =~= le_bytes(amount as nat, 8));
            lemma_le_value_of_le_bytes(transfer_nonce as nat, 4);
            lemma_le_value_of_le_bytes(amount as nat, 8);
        },
    }
}

/// Encoding inverts decoding: a buffer that decodes is the encoding of the
/// command it decodes to, so no two buffers hold the same command.
pub proof fn lemma_encode_decode(bytes: Seq<u8>)
    requires
        decode(bytes) is Ok,
    ensures
        decode(bytes)->Ok_0.wf(),
        encode(decode(bytes)->Ok_0) == bytes,
{
    let command = decode(bytes)->Ok_0;
    lemma_pow256_widths();
    match command {
        Command::Prepare { amount } => {
            let field = bytes.subrange(1, 9);
            lemma_le_value_bound(field);
            lemma_le_bytes_of_le_value(field);
            assert(encode(command) =~= bytes);
        },
        Command::Send { destination_address, transfer_nonce, amount } => {
            let nonce_field = bytes.subrange(33, 37);
            let amount_field = bytes.subrange(37, 45);
            lemma_le_value_bound(nonce_field);
            lemma_le_value_bound(amount_field);
            lemma_le_bytes_of_le_value(nonce_field);
            lemma_le_bytes_of_le_value(amount_field);
            assert(encode(command) =~= bytes);
        },
    }
}

/// A buffer cut short of a command's encoding is rejected as ending too early.
pub proof fn lemma_truncated_is_rejected(command: Command, n: int)
    requires
        command.wf(),
        0 <= n < encode(command).len(),
    ensures
        decode(encode(command).take(n)) == Err::<Command, DecodeError>(
            DecodeError::UnexpectedEnd,
        ),
{
    lemma_encoded_len(command);
}

/// A command's encoding followed by anything at all is rejected for its trailing bytes.
pub proof fn lemma_extended_is_rejected(command: Command, extra: Seq<u8>)
    requires
        command.wf(),
        extra.len() > 0,
    ensures
        decode(encode(command) + extra) == Err::<Command, DecodeError>(
            DecodeError::TrailingBytes,
        ),
{
    lemma_encoded_len(command);
}

/// The value of an instruction is well formed: every instruction has an encoding.
pub proof fn lemma_view_is_well_formed(instruction: RosenBridgeInstruction)
    ensures
        instruction@.wf(),
{
}

/// Two instructions with the same mathematical value are the same instruction.
pub proof fn lemma_view_is_injective(a: RosenBridgeInstruction, b: RosenBridgeInstruction)
    requires
        a@ == b@,
    ensures
        a == b,
{
    match (a, b) {
        (RosenBridgeInstruction::Send(x), RosenBridgeInstruction::Send(y)) => {
            assert(x.destination_address =~= y.destination_address);
        },
        _ => {},
    }
}

} // verus!
