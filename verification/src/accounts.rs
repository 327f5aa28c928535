//! The account-order contract: which role each supplied account plays.
//!
//! A caller hands over an ordered list of accounts. Each command has a fixed
//! list of roles, and the account at a position plays the role at that
//! position. The order is part of the adapter's interface. Accounts beyond the
//! last role are ignored; a list that ends before the last role is refused.
//! Nothing else is checked here: whether an account signed, may be written or
//! is the one it is taken for is left to the program that is called with it.

use crate::error::ProcessError;
use crate::subcall::Pubkey;
use vstd::prelude::*;

verus! {

/// An account as the adapter sees it during one invocation.
#[derive(Clone, Copy, Debug)]
pub struct Account<'a> {
    /// The account's address.
    pub key: Pubkey,
    /// The data held in the account.
    pub data: &'a [u8],
}

/// Position of the adapter's own program account in a `Prepare` list.
pub const PREPARE_PROGRAM: usize = 0;

/// Position of the account that pays the fee and owns the tokens.
pub const PREPARE_PAYER: usize = 1;

/// Position of the token account that the bridge may spend from.
pub const PREPARE_SOURCE_TOKEN_ACCOUNT: usize = 2;

/// Position of the account that collects the protocol fee.
pub const PREPARE_FEE_DESTINATION: usize = 3;

/// Position of the account that stores the bridge record.
pub const PREPARE_BRIDGE_STATE: usize = 4;

/// Position of the authority that is made delegate of the tokens.
pub const PREPARE_BRIDGE_TOKEN_AUTHORITY: usize = 5;

/// Position of the token-custody program.
pub const PREPARE_TOKEN_PROGRAM: usize = 6;

/// Position of the system program.
pub const PREPARE_SYSTEM_PROGRAM: usize = 7;

/// Number of roles of `Prepare`.
pub const PREPARE_ROLES: usize = 8;

/// Position of the adapter's own program account in a `Send` list.
pub const SEND_PROGRAM: usize = 0;

/// Position of the account that pays for the message.
pub const SEND_PAYER: usize = 1;

/// Position of the fresh account that will hold the message.
pub const SEND_MESSAGE: usize = 2;

/// Position of the token account that the tokens are taken from.
pub const SEND_SOURCE_TOKEN_ACCOUNT: usize = 3;

/// Position of the mint of the token.
pub const SEND_MINT: usize = 4;

/// Position of the token bridge's configuration.
pub const SEND_TOKEN_BRIDGE_CONFIG: usize = 5;

/// Position of the custody account of the mint.
pub const SEND_CUSTODY: usize = 6;

/// Position of the authority that spends the approved tokens.
pub const SEND_AUTHORITY_SIGNER: usize = 7;

/// Position of the authority over the custody accounts.
pub const SEND_CUSTODY_SIGNER: usize = 8;

/// Position of the messaging program's configuration.
pub const SEND_BRIDGE_CONFIG: usize = 9;

/// Position of the emitter of the message.
pub const SEND_EMITTER: usize = 10;

/// Position of the emitter's sequence tracker.
pub const SEND_SEQUENCE: usize = 11;

/// Position of the messaging program's fee collector.
pub const SEND_FEE_COLLECTOR: usize = 12;

/// Position of the token bridge program.
pub const SEND_TOKEN_BRIDGE_PROGRAM: usize = 13;

/// Position of the messaging program.
pub const SEND_BRIDGE_PROGRAM: usize = 14;

/// Position of the token-custody program.
pub const SEND_TOKEN_PROGRAM: usize = 15;

/// Position of the clock.
pub const SEND_CLOCK: usize = 16;

/// Position of the rent schedule.
pub const SEND_RENT: usize = 17;

/// Position of the system program.
pub const SEND_SYSTEM_PROGRAM: usize = 18;

/// Number of roles of `Send`.
pub const SEND_ROLES: usize = 19;

/// The accounts of a `Prepare` invocation, each under its role, in the order
/// in which the caller supplies them.
#[derive(Clone, Copy, Debug)]
pub struct PrepareAccounts<'a> {
    pub program: Account<'a>,
    pub payer: Account<'a>,
    pub source_token_account: Account<'a>,
    pub fee_destination: Account<'a>,
    pub bridge_state: Account<'a>,
    pub bridge_token_authority: Account<'a>,
    pub token_program: Account<'a>,
    pub system_program: Account<'a>,
}

/// The accounts of a `Send` invocation, each under its role, in the order in
/// which the caller supplies them.
#[derive(Clone, Copy, Debug)]
pub struct SendAccounts<'a> {
    pub program: Account<'a>,
    pub payer: Account<'a>,
    pub message: Account<'a>,
    pub source_token_account: Account<'a>,
    pub mint: Account<'a>,
    pub token_bridge_config: Account<'a>,
    pub custody: Account<'a>,
    pub authority_signer: Account<'a>,
    pub custody_signer: Account<'a>,
    pub bridge_config: Account<'a>,
    pub emitter: Account<'a>,
    pub sequence: Account<'a>,
    pub fee_collector: Account<'a>,
    pub token_bridge_program: Account<'a>,
    pub bridge_program: Account<'a>,
    pub token_program: Account<'a>,
    pub clock: Account<'a>,
    pub rent: Account<'a>,
    pub system_program: Account<'a>,
}

/// The roles of `Prepare` bound to the first eight of `accounts`.
pub open spec fn bind_prepare<'a>(accounts: Seq<Account<'a>>) -> PrepareAccounts<'a> {
    PrepareAccounts {
        program: accounts[PREPARE_PROGRAM as int],
        payer: accounts[PREPARE_PAYER as int],
        source_token_account: accounts[PREPARE_SOURCE_TOKEN_ACCOUNT as int],
        fee_destination: accounts[PREPARE_FEE_DESTINATION as int],
        bridge_state: accounts[PREPARE_BRIDGE_STATE as int],
        bridge_token_authority: accounts[PREPARE_BRIDGE_TOKEN_AUTHORITY as int],
        token_program: accounts[PREPARE_TOKEN_PROGRAM as int],
        system_program: accounts[PREPARE_SYSTEM_PROGRAM as int],
    }
}

/// The roles of `Send` bound to the first nineteen of `accounts`.
pub open spec fn bind_send<'a>(accounts: Seq<Account<'a>>) -> SendAccounts<'a> {
    SendAccounts {
        program: accounts[SEND_PROGRAM as int],
        payer: accounts[SEND_PAYER as int],
        message: accounts[SEND_MESSAGE as int],
        source_token_account: accounts[SEND_SOURCE_TOKEN_ACCOUNT as int],
        mint: accounts[SEND_MINT as int],
        token_bridge_config: accounts[SEND_TOKEN_BRIDGE_CONFIG as int],
        custody: accounts[SEND_CUSTODY as int],
        authority_signer: accounts[SEND_AUTHORITY_SIGNER as int],
        custody_signer: accounts[SEND_CUSTODY_SIGNER as int],
        bridge_config: accounts[SEND_BRIDGE_CONFIG as int],
        emitter: accounts[SEND_EMITTER as int],
        sequence: accounts[SEND_SEQUENCE as int],
        fee_collector: accounts[SEND_FEE_COLLECTOR as int],
        token_bridge_program: accounts[SEND_TOKEN_BRIDGE_PROGRAM as int],
        bridge_program: accounts[SEND_BRIDGE_PROGRAM as int],
        token_program: accounts[SEND_TOKEN_PROGRAM as int],
        clock: accounts[SEND_CLOCK as int],
        rent: accounts[SEND_RENT as int],
        system_program: accounts[SEND_SYSTEM_PROGRAM as int],
    }
}

/// The binding of the roles of `Prepare`, or the refusal of a list that is too short.
pub open spec fn resolve_prepare<'a>(accounts: Seq<Account<'a>>) -> Result<
    PrepareAccounts<'a>,
    ProcessError,
> {
    if accounts.len() < PREPARE_ROLES {
        Err(ProcessError::NotEnoughAccountKeys)
    } else {
        Ok(bind_prepare(accounts))
    }
}

/// The binding of the roles of `Send`, or the refusal of a list that is too short.
pub open spec fn resolve_send<'a>(accounts: Seq<Account<'a>>) -> Result<
    SendAccounts<'a>,
    ProcessError,
> {
    if accounts.len() < SEND_ROLES {
        Err(ProcessError::NotEnoughAccountKeys)
    } else {
        Ok(bind_send(accounts))
    }
}

impl<'a> PrepareAccounts<'a> {
    /// Binds the roles of `Prepare` to `accounts` by position.
    pub fn resolve(accounts: &[Account<'a>]) -> (r: Result<PrepareAccounts<'a>, ProcessError>)
        ensures
            r == resolve_prepare(accounts@),
    {
        if accounts.len() < PREPARE_ROLES {
            return Err(ProcessError::NotEnoughAccountKeys);
        }
        Ok(
            PrepareAccounts {
                program: accounts[PREPARE_PROGRAM],
                payer: accounts[PREPARE_PAYER],
                source_token_account: accounts[PREPARE_SOURCE_TOKEN_ACCOUNT],
                fee_destination: accounts[PREPARE_FEE_DESTINATION],
                bridge_state: accounts[PREPARE_BRIDGE_STATE],
                bridge_token_authority: accounts[PREPARE_BRIDGE_TOKEN_AUTHORITY],
                token_program: accounts[PREPARE_TOKEN_PROGRAM],
                system_program: accounts[PREPARE_SYSTEM_PROGRAM],
            },
        )
    }
}

impl<'a> SendAccounts<'a> {
    /// Binds the roles of `Send` to `accounts` by position.
    pub fn resolve(accounts: &[Account<'a>]) -> (r: Result<SendAccounts<'a>, ProcessError>)
        ensures
            r == resolve_send(accounts@),
    {
        if accounts.len() < SEND_ROLES {
            return Err(ProcessError::NotEnoughAccountKeys);
        }
        Ok(
            SendAccounts {
                program: accounts[SEND_PROGRAM],
                payer: accounts[SEND_PAYER],
                message: accounts[SEND_MESSAGE],
                source_token_account: accounts[SEND_SOURCE_TOKEN_ACCOUNT],
                mint: accounts[SEND_MINT],
                token_bridge_config: accounts[SEND_TOKEN_BRIDGE_CONFIG],
                custody: accounts[SEND_CUSTODY],
                authority_signer: accounts[SEND_AUTHORITY_SIGNER],
                custody_signer: accounts[SEND_CUSTODY_SIGNER],
                bridge_config: accounts[SEND_BRIDGE_CONFIG],
                emitter: accounts[SEND_EMITTER],
                sequence: accounts[SEND_SEQUENCE],
                fee_collector: accounts[SEND_FEE_COLLECTOR],
                token_bridge_program: accounts[SEND_TOKEN_BRIDGE_PROGRAM],
                bridge_program: accounts[SEND_BRIDGE_PROGRAM],
                token_program: accounts[SEND_TOKEN_PROGRAM],
                clock: accounts[SEND_CLOCK],
                rent: accounts[SEND_RENT],
                system_program: accounts[SEND_SYSTEM_PROGRAM],
            },
        )
    }
}

} // verus!
