//! The sub-calls that the adapter asks the host ledger to issue.

use crate::message::{TransferMessage, TransferNativeData};
use crate::wire::le_bytes;
use solana_program::program_error::ProgramError;
use solana_program::{pubkey, system_instruction};
use spl_token::instruction::approve;
use vstd::prelude::*;

verus! {

/// The address of an account on the host ledger.
pub type Pubkey = [u8; 32];

/// The address of the host ledger's system program.
pub const SYSTEM_PROGRAM_ID: Pubkey = [
    0, 0, 0, 0, 0, 0, 0, 0, 0, 0, 0, 0, 0, 0, 0, 0, 0, 0, 0, 0, 0, 0, 0, 0, 0, 0, 0, 0, 0, 0, 0, 0,
];

/// The address of the token-custody program.
pub const SPL_TOKEN_PROGRAM_ID: Pubkey = [
    6, 221, 246, 225, 215, 101, 161, 147, 217, 203, 225, 70, 206, 235, 121, 172, 28, 180, 133,
    237, 95, 91, 55, 145, 58, 140, 245, 133, 126, 255, 0, 169,
];

/// How an instruction uses one account.
#[derive(Clone, Copy, Debug, PartialEq, Eq)]
pub struct AccountMeta {
    pub pubkey: Pubkey,
    /// The instruction needs this account's signature.
    pub is_signer: bool,
    /// The instruction may change this account.
    pub is_writable: bool,
}

/// An instruction addressed to a program of the host ledger.
#[derive(Clone, Debug, PartialEq, Eq)]
pub struct Instruction {
    /// The program that executes the instruction.
    pub program_id: Pubkey,
    /// The accounts that the program may touch.
    pub accounts: Vec<AccountMeta>,
    /// The payload, in the program's own encoding.
    pub data: Vec<u8>,
}

/// The mathematical value of an [`Instruction`].
pub struct InstructionView {
    pub program_id: Pubkey,
    pub accounts: Seq<AccountMeta>,
    pub data: Seq<u8>,
}

impl View for Instruction {
    type V = InstructionView;

    open spec fn view(&self) -> InstructionView {
        InstructionView {
            program_id: self.program_id,
            accounts: self.accounts@,
            data: self.data@,
        }
    }
}

impl AccountMeta {
    /// The use of the account `pubkey` with the given rights.
    pub fn new(pubkey: Pubkey, is_signer: bool, is_writable: bool) -> (meta: AccountMeta)
        ensures
            meta == (AccountMeta { pubkey, is_signer, is_writable }),
    {
        AccountMeta { pubkey, is_signer, is_writable }
    }
}

/// The host ledger's own error type, `solana_program::program_error::ProgramError`.
/// Nothing is known of a value of it.
#[verifier::external_type_specification]
#[verifier::external_body]
pub struct ExProgramError(ProgramError);

/// The system program's instruction that moves `lamports` from `from` to `to`.
///
/// `from` pays and therefore signs; both balances change. The payload is the
/// instruction's index, 2, as four bytes, then the amount as eight.
pub open spec fn system_transfer(from: Pubkey, to: Pubkey, lamports: u64) -> InstructionView {
    InstructionView {
        program_id: SYSTEM_PROGRAM_ID,
        accounts: seq![
            AccountMeta { pubkey: from, is_signer: true, is_writable: true },
            AccountMeta { pubkey: to, is_signer: false, is_writable: true },
        ],
        data: le_bytes(2, 4) + le_bytes(lamports as nat, 8),
    }
}

/// A signer of a multi-signature owner, as an approval lists it.
pub open spec fn cosigner(pubkey: Pubkey) -> AccountMeta {
    AccountMeta { pubkey, is_signer: true, is_writable: false }
}

/// The token program's instruction by which `owner` lets `delegate` spend
/// `amount` tokens of the token account `source`.
///
/// Only `source` changes. `owner` signs in person unless `signers` sign for
/// it. The payload is the instruction's index, 4, as one byte, then the
/// amount as eight.
pub open spec fn token_approve(
    token_program: Pubkey,
    source: Pubkey,
    delegate: Pubkey,
    owner: Pubkey,
    signers: Seq<Pubkey>,
    amount: u64,
) -> InstructionView {
    InstructionView {
        program_id: token_program,
        accounts: seq![
            AccountMeta { pubkey: source, is_signer: false, is_writable: true },
            AccountMeta { pubkey: delegate, is_signer: false, is_writable: false },
            AccountMeta { pubkey: owner, is_signer: signers.len() == 0, is_writable: false },
        ] + signers.map_values(|key: Pubkey| cosigner(key)),
        data: seq![4u8] + le_bytes(amount as nat, 8),
    }
}

/// Calls `solana_program::system_instruction::transfer` and hands its
/// instruction back field by field.
///
/// Believed of it: the instruction is [`system_transfer`] of the arguments.
#[verifier::external_body]
pub(crate) fn system_transfer_instruction(from: &Pubkey, to: &Pubkey, lamports: u64) -> (ix:
    Instruction)
    ensures
        ix@ == system_transfer(*from, *to, lamports),
{
    let ix = system_instruction::transfer(&(*from).into(), &(*to).into(), lamports);
    Instruction {
        program_id: ix.program_id.to_bytes(),
        accounts: ix.accounts.iter().map(
            |m| AccountMeta::new(m.pubkey.to_bytes(), m.is_signer, m.is_writable),
        ).collect(),
        data: ix.data,
    }
}

/// Calls `spl_token::instruction::approve` and hands its instruction back
/// field by field.
///
/// Believed of it: it succeeds exactly when `token_program` is
/// [`SPL_TOKEN_PROGRAM_ID`], and the instruction is then [`token_approve`] of
/// the arguments.
#[verifier::external_body]
pub(crate) fn token_approve_instruction(
    token_program: &Pubkey,
    source: &Pubkey,
    delegate: &Pubkey,
    owner: &Pubkey,
    signers: &Vec<Pubkey>,
    amount: u64,
) -> (r: Result<Instruction, ProgramError>)
    ensures
        r is Ok <==> *token_program == SPL_TOKEN_PROGRAM_ID,
        r matches Ok(ix) ==> ix@ == token_approve(
            *token_program,
            *source,
            *delegate,
            *owner,
            signers@,
            amount,
        ),
{
    let keys: Vec<pubkey::Pubkey> = signers.iter().map(|k| (*k).into()).collect();
    let keys: Vec<&pubkey::Pubkey> = keys.iter().collect();
    let (program, source, delegate) = ((*token_program).into(), (*source).into(), (*delegate).into());
    let ix = approve(&program, &source, &delegate, &(*owner).into(), &keys, amount)?;
    Ok(Instruction {
        program_id: ix.program_id.to_bytes(),
        accounts: ix.accounts.iter().map(
            |m| AccountMeta::new(m.pubkey.to_bytes(), m.is_signer, m.is_writable),
        ).collect(),
        data: ix.data,
    })
}

/// What the adapter asks the host ledger to do next.
///
/// `accounts` lists, by their positions in the list that the caller supplied,
/// the accounts that are handed to the called program, in the order in
/// which it receives them.
#[derive(Clone, Debug, PartialEq, Eq)]
pub enum SubCall {
    /// Issue this instruction.
    Instruction { instruction: Instruction, accounts: Vec<usize> },
    /// Issue the token bridge's native-transfer instruction for this message.
    /// The token bridge derives the remaining addresses and the encoding
    /// itself; if it cannot, the sub-call has failed before it was issued.
    TransferNative {
        token_bridge_program: Pubkey,
        bridge_program: Pubkey,
        payer: Pubkey,
        message: Pubkey,
        from: Pubkey,
        mint: Pubkey,
        /// The number of the chain on which the asset is native.
        token_chain: u16,
        data: TransferNativeData,
        accounts: Vec<usize>,
    },
}

/// The mathematical value of a [`SubCall`].
pub enum SubCallView {
    Instruction { instruction: InstructionView, accounts: Seq<usize> },
    TransferNative {
        token_bridge_program: Pubkey,
        bridge_program: Pubkey,
        payer: Pubkey,
        message: Pubkey,
        from: Pubkey,
        mint: Pubkey,
        token_chain: u16,
        data: TransferMessage,
        accounts: Seq<usize>,
    },
}

impl SubCallView {
    /// The positions of the accounts that are handed to the called program.
    pub open spec fn positions(self) -> Seq<usize> {
        match self {
            SubCallView::Instruction { accounts, .. } => accounts,
            SubCallView::TransferNative { accounts, .. } => accounts,
        }
    }
}

impl View for SubCall {
    type V = SubCallView;

    open spec fn view(&self) -> SubCallView {
        match *self {
            SubCall::Instruction { instruction, accounts } => SubCallView::Instruction {
                instruction: instruction@,
                accounts: accounts@,
            },
            SubCall::TransferNative {
                token_bridge_program,
                bridge_program,
                payer,
                message,
                from,
                mint,
                token_chain,
                data,
                accounts,
            } => SubCallView::TransferNative {
                token_bridge_program,
                bridge_program,
                payer,
                message,
                from,
                mint,
                token_chain,
                data: data@,
                accounts: accounts@,
            },
        }
    }
}

} // verus!
