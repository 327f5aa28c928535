//! The executor: what an invocation does, one sub-call at a time.
//!
//! The adapter cannot issue a sub-call itself; the host ledger does that. So
//! an invocation is a conversation. [`process_instruction`] decodes the
//! command, binds the accounts and answers with the first [`Step`]: either a
//! sub-call to issue or the invocation's result. After a sub-call the host
//! reports the outcome to [`resume`], which answers with the next step. A
//! step that finishes the invocation leaves nothing to resume, so nothing can
//! be issued after a failure.
//!
//! [`run`] is the conversation as a whole, for any outcomes the host may report.

use crate::accounts::{
    resolve_prepare, resolve_send, Account, PrepareAccounts, SendAccounts,
    PREPARE_BRIDGE_TOKEN_AUTHORITY, PREPARE_FEE_DESTINATION, PREPARE_PAYER, PREPARE_ROLES,
    PREPARE_SOURCE_TOKEN_ACCOUNT, PREPARE_SYSTEM_PROGRAM, SEND_AUTHORITY_SIGNER,
    SEND_BRIDGE_CONFIG, SEND_BRIDGE_PROGRAM, SEND_CLOCK, SEND_CUSTODY, SEND_CUSTODY_SIGNER,
    SEND_EMITTER, SEND_FEE_COLLECTOR, SEND_MESSAGE, SEND_MINT, SEND_PAYER, SEND_RENT,
    SEND_ROLES, SEND_SEQUENCE, SEND_SOURCE_TOKEN_ACCOUNT, SEND_SYSTEM_PROGRAM,
    SEND_TOKEN_BRIDGE_CONFIG, SEND_TOKEN_PROGRAM,
};
use crate::error::{DecodeError, ProcessError};
use crate::instruction::{decode, Command, PrepareArgs, RosenBridgeInstruction, SendArgs};
use crate::message::{
    chain_id, transfer_message, TransferMessage, TransferNativeData, HOST_CHAIN,
};
pub use crate::state::{BridgeConfig, BridgeData};
use crate::state::decode_bridge_data;
use crate::subcall::{
    system_transfer, system_transfer_instruction, token_approve, token_approve_instruction,
    Pubkey, SubCall, SubCallView, SPL_TOKEN_PROGRAM_ID,
};
use vstd::prelude::*;

verus! {

/// The approval that `Prepare` asks for once the fee is paid.
#[derive(Clone, Copy, Debug, PartialEq, Eq)]
pub struct Approval {
    /// The program that is asked.
    pub token_program: Pubkey,
    /// The token account that may be spent from.
    pub source: Pubkey,
    /// Who may spend.
    pub delegate: Pubkey,
    /// The owner of `source`, who grants this.
    pub owner: Pubkey,
    /// How many tokens may be spent.
    pub amount: u64,
}

/// What is left of an invocation while a sub-call is under way.
#[derive(Clone, Copy, Debug, PartialEq, Eq)]
pub enum Pending {
    /// `Prepare` is paying the fee. The approval follows.
    FeeTransfer(Approval),
    /// `Prepare` is asking for the approval. Nothing follows.
    Approval,
    /// `Send` is emitting the transfer message. Nothing follows.
    TransferMessage,
}

/// What the host does next.
#[derive(Debug, PartialEq, Eq)]
pub enum Step {
    /// Issue the sub-call, then report its outcome to [`resume`] together
    /// with what is pending.
    Invoke(SubCall, Pending),
    /// End the invocation with this result.
    Finish(Result<(), ProcessError>),
}

/// The mathematical value of a [`Step`].
pub enum StepView {
    Invoke(SubCallView, Pending),
    Finish(Result<(), ProcessError>),
}

impl View for Step {
    type V = StepView;

    open spec fn view(&self) -> StepView {
        match *self {
            Step::Invoke(call, pending) => StepView::Invoke(call@, pending),
            Step::Finish(result) => StepView::Finish(result),
        }
    }
}

/// The sub-call that pays `fee` from the payer to the fee destination.
pub open spec fn fee_transfer(accounts: PrepareAccounts, fee: u64) -> SubCallView {
    SubCallView::Instruction {
        instruction: system_transfer(accounts.payer.key, accounts.fee_destination.key, fee),
        accounts: seq![PREPARE_PAYER, PREPARE_FEE_DESTINATION, PREPARE_SYSTEM_PROGRAM],
    }
}

/// The approval that a `Prepare` of `amount` asks for: the payer lets the
/// bridge's token authority spend from the source token account.
pub open spec fn approval_for(accounts: PrepareAccounts, amount: u64) -> Approval {
    Approval {
        token_program: accounts.token_program.key,
        source: accounts.source_token_account.key,
        delegate: accounts.bridge_token_authority.key,
        owner: accounts.payer.key,
        amount,
    }
}

/// The sub-call that asks for `approval`. The owner signs in person.
pub open spec fn approval_call(approval: Approval) -> SubCallView {
    SubCallView::Instruction {
        instruction: token_approve(
            approval.token_program,
            approval.source,
            approval.delegate,
            approval.owner,
            Seq::empty(),
            approval.amount,
        ),
        accounts: seq![
            PREPARE_SOURCE_TOKEN_ACCOUNT,
            PREPARE_BRIDGE_TOKEN_AUTHORITY,
            PREPARE_PAYER,
        ],
    }
}

/// The positions of the accounts that the token bridge receives with a
/// transfer message, in the order in which it expects them.
pub open spec fn transfer_message_accounts() -> Seq<usize> {
    seq![
        SEND_PAYER,
        SEND_TOKEN_BRIDGE_CONFIG,
        SEND_SOURCE_TOKEN_ACCOUNT,
        SEND_MINT,
        SEND_CUSTODY,
        SEND_AUTHORITY_SIGNER,
        SEND_CUSTODY_SIGNER,
        SEND_BRIDGE_CONFIG,
        SEND_MESSAGE,
        SEND_EMITTER,
        SEND_SEQUENCE,
        SEND_FEE_COLLECTOR,
        SEND_CLOCK,
        SEND_RENT,
        SEND_SYSTEM_PROGRAM,
        SEND_BRIDGE_PROGRAM,
        SEND_TOKEN_PROGRAM,
    ]
}

/// The sub-call that emits the transfer message of a `Send`.
pub open spec fn transfer_message_call(
    accounts: SendAccounts,
    destination_address: Seq<u8>,
    transfer_nonce: u32,
    amount: u64,
) -> SubCallView {
    SubCallView::TransferNative {
        token_bridge_program: accounts.token_bridge_program.key,
        bridge_program: accounts.bridge_program.key,
        payer: accounts.payer.key,
        message: accounts.message.key,
        from: accounts.source_token_account.key,
        mint: accounts.mint.key,
        token_chain: chain_id(HOST_CHAIN),
        data: transfer_message(destination_address, transfer_nonce, amount),
        accounts: transfer_message_accounts(),
    }
}

/// The first step of a `Prepare` of `amount`.
///
/// The accounts are bound, then the fee is read from the bridge record, then
/// the fee transfer is asked for.
pub open spec fn prepare_step(amount: u64, accounts: Seq<Account>) -> StepView {
    match resolve_prepare(accounts) {
        Err(e) => StepView::Finish(Err(e)),
        Ok(bound) => match decode_bridge_data(bound.bridge_state.data@) {
            Err(e) => StepView::Finish(Err(ProcessError::InvalidBridgeState(e))),
            Ok(record) => StepView::Invoke(
                fee_transfer(bound, record.config.fee),
                Pending::FeeTransfer(approval_for(bound, amount)),
            ),
        },
    }
}

/// The first step of a `Send`.
///
/// The accounts are bound, then the transfer message is asked for.
pub open spec fn send_step(
    destination_address: Seq<u8>,
    transfer_nonce: u32,
    amount: u64,
    accounts: Seq<Account>,
) -> StepView {
    match resolve_send(accounts) {
        Err(e) => StepView::Finish(Err(e)),
        Ok(bound) => StepView::Invoke(
            transfer_message_call(bound, destination_address, transfer_nonce, amount),
            Pending::TransferMessage,
        ),
    }
}

/// The first step of the command `command`.
pub open spec fn command_step(command: Command, accounts: Seq<Account>) -> StepView {
    match command {
        Command::Prepare { amount } => prepare_step(amount, accounts),
        Command::Send { destination_address, transfer_nonce, amount } => send_step(
            destination_address,
            transfer_nonce,
            amount,
            accounts,
        ),
    }
}

/// The first step of an invocation with the given accounts and payload.
///
/// The payload is decoded before the accounts are looked at.
pub open spec fn first_step(accounts: Seq<Account>, instruction_data: Seq<u8>) -> StepView {
    match decode(instruction_data) {
        Err(e) => StepView::Finish(Err(ProcessError::InvalidInstruction(e))),
        Ok(command) => command_step(command, accounts),
    }
}

/// The step that follows a sub-call with the given outcome.
///
/// A failure ends the invocation with the code that was reported. After a
/// success the next sub-call is asked for, if there is one; an approval can
/// only be asked of the token-custody program.
pub open spec fn next_step(pending: Pending, outcome: Result<(), u64>) -> StepView {
    match outcome {
        Err(code) => StepView::Finish(Err(ProcessError::SubCallFailed(code))),
        Ok(_) => match pending {
            Pending::FeeTransfer(approval) => if approval.token_program
                == SPL_TOKEN_PROGRAM_ID {
                StepView::Invoke(approval_call(approval), Pending::Approval)
            } else {
                StepView::Finish(Err(ProcessError::IncorrectProgramId))
            },
            Pending::Approval => StepView::Finish(Ok(())),
            Pending::TransferMessage => StepView::Finish(Ok(())),
        },
    }
}

/// Starts a `Prepare`: binds the accounts, reads the fee and asks for the fee transfer.
pub fn process_prepare(args: PrepareArgs, accounts: &[Account]) -> (step: Step)
    ensures
        step@ == prepare_step(args.amount, accounts@),
{
    let bound = match PrepareAccounts::resolve(accounts) {
        Ok(bound) => bound,
        Err(e) => {
            return Step::Finish(Err(e));
        },
    };
    let record = match BridgeData::try_from_slice(bound.bridge_state.data) {
        Ok(record) => record,
        Err(e) => {
            return Step::Finish(Err(ProcessError::InvalidBridgeState(e)));
        },
    };
    let instruction = system_transfer_instruction(
        &bound.payer.key,
        &bound.fee_destination.key,
        record.config.fee,
    );
    let call = SubCall::Instruction {
        instruction,
        accounts: vec![PREPARE_PAYER, PREPARE_FEE_DESTINATION, PREPARE_SYSTEM_PROGRAM],
    };
    let approval = Approval {
        token_program: bound.token_program.key,
        source: bound.source_token_account.key,
        delegate: bound.bridge_token_authority.key,
        owner: bound.payer.key,
        amount: args.amount,
    };
    Step::Invoke(call, Pending::FeeTransfer(approval))
}

/// Starts a `Send`: binds the accounts and asks for the transfer message.
pub fn process_send(args: SendArgs, accounts: &[Account]) -> (step: Step)
    ensures
        step@ == send_step(
            args.destination_address@,
            args.transfer_nonce,
            args.amount,
            accounts@,
        ),
{
    let bound = match SendAccounts::resolve(accounts) {
        Ok(bound) => bound,
        Err(e) => {
            return Step::Finish(Err(e));
        },
    };
    let call = SubCall::TransferNative {
        token_bridge_program: bound.token_bridge_program.key,
        bridge_program: bound.bridge_program.key,
        payer: bound.payer.key,
        message: bound.message.key,
        from: bound.source_token_account.key,
        mint: bound.mint.key,
        token_chain: HOST_CHAIN.id(),
        data: TransferNativeData::new(&args),
        accounts: vec![
            SEND_PAYER,
            SEND_TOKEN_BRIDGE_CONFIG,
            SEND_SOURCE_TOKEN_ACCOUNT,
            SEND_MINT,
            SEND_CUSTODY,
            SEND_AUTHORITY_SIGNER,
            SEND_CUSTODY_SIGNER,
            SEND_BRIDGE_CONFIG,
            SEND_MESSAGE,
            SEND_EMITTER,
            SEND_SEQUENCE,
            SEND_FEE_COLLECTOR,
            SEND_CLOCK,
            SEND_RENT,
            SEND_SYSTEM_PROGRAM,
            SEND_BRIDGE_PROGRAM,
            SEND_TOKEN_PROGRAM,
        ],
    };
    Step::Invoke(call, Pending::TransferMessage)
}

/// Starts an invocation: decodes the command and hands it to its handler.
///
/// `program_id` is the address under which the adapter runs; no command
/// depends on it.
#[allow(unused_variables)]
pub fn process_instruction(
    program_id: &Pubkey,
    accounts: &[Account],
    instruction_data: &[u8],
) -> (step: Step)
    ensures
        step@ == first_step(accounts@, instruction_data@),
{
    match RosenBridgeInstruction::try_from_slice(instruction_data) {
        Err(e) => Step::Finish(Err(ProcessError::InvalidInstruction(e))),
        Ok(RosenBridgeInstruction::Prepare(args)) => process_prepare(args, accounts),
        Ok(RosenBridgeInstruction::Send(args)) => process_send(args, accounts),
    }
}

/// Goes on with an invocation after the sub-call that `pending` was waiting
/// for has ended with `outcome`.
pub fn resume(pending: Pending, outcome: Result<(), u64>) -> (step: Step)
    ensures
        step@ == next_step(pending, outcome),
{
    match outcome {
        Err(code) => Step::Finish(Err(ProcessError::SubCallFailed(code))),
        Ok(_) => match pending {
            Pending::FeeTransfer(approval) => {
                let signers: Vec<Pubkey> = Vec::new();
                match token_approve_instruction(
                    &approval.token_program,
                    &approval.source,
                    &approval.delegate,
                    &approval.owner,
                    &signers,
                    approval.amount,
                ) {
                    Ok(instruction) => {
                        let call = SubCall::Instruction {
                            instruction,
                            accounts: vec![
                                PREPARE_SOURCE_TOKEN_ACCOUNT,
                                PREPARE_BRIDGE_TOKEN_AUTHORITY,
                                PREPARE_PAYER,
                            ],
                        };
                        Step::Invoke(call, Pending::Approval)
                    },
                    Err(_) => Step::Finish(Err(ProcessError::IncorrectProgramId)),
                }
            },
            Pending::Approval => Step::Finish(Ok(())),
            Pending::TransferMessage => Step::Finish(Ok(())),
        },
    }
}

/// What an invocation has done: the sub-calls that were issued, in order,
/// and the result, once the invocation has ended.
pub struct Trace {
    pub calls: Seq<SubCallView>,
    pub result: Option<Result<(), ProcessError>>,
}

/// The invocation that starts with `step`, when the host issues each
/// sub-call that it is asked for and reports its outcome, the `i`-th
/// sub-call ending as `outcomes[i]` says.
///
/// The invocation stands still where the outcomes run out, and outcomes
/// beyond its end are never looked at.
pub open spec fn run(step: StepView, outcomes: Seq<Result<(), u64>>) -> Trace
    decreases outcomes.len(),
{
    match step {
        StepView::Finish(result) => Trace { calls: Seq::empty(), result: Some(result) },
        StepView::Invoke(call, pending) => if outcomes.len() == 0 {
            Trace { calls: seq![call], result: None }
        } else {
            let rest = run(next_step(pending, outcomes[0]), outcomes.skip(1));
            Trace { calls: seq![call] + rest.calls, result: rest.result }
        },
    }
}

/// The trace of an invocation that ended with `result` before any sub-call.
pub open spec fn ended_at_once(result: Result<(), ProcessError>) -> Trace {
    Trace { calls: Seq::empty(), result: Some(result) }
}

/// A failed sub-call is the last one: the invocation ends with the code that
/// was reported, and nothing is issued whatever the host reports afterwards.
pub proof fn lemma_failure_is_final(pending: Pending, code: u64, later: Seq<Result<(), u64>>)
    ensures
        next_step(pending, Err(code)) == StepView::Finish(
            Err(ProcessError::SubCallFailed(code)),
        ),
        run(next_step(pending, Err(code)), later) == ended_at_once(
            Err(ProcessError::SubCallFailed(code)),
        ),
{
}

/// A payload that encodes no command ends the invocation before any sub-call.
pub proof fn lemma_invalid_instruction_issues_nothing(
    accounts: Seq<Account>,
    instruction_data: Seq<u8>,
    outcomes: Seq<Result<(), u64>>,
)
    requires
        decode(instruction_data) is Err,
    ensures
        run(first_step(accounts, instruction_data), outcomes) == ended_at_once(
            Err(ProcessError::InvalidInstruction(decode(instruction_data)->Err_0)),
        ),
{
}

/// A command with fewer accounts than roles, eight for `Prepare` and nineteen
/// for `Send`, is refused before any sub-call.
pub proof fn lemma_missing_accounts_issue_nothing(
    accounts: Seq<Account>,
    instruction_data: Seq<u8>,
    outcomes: Seq<Result<(), u64>>,
)
    requires
        decode(instruction_data) matches Ok(command) && ({
            ||| command is Prepare && accounts.len() < PREPARE_ROLES
            ||| command is Send && accounts.len() < SEND_ROLES
        }),
    ensures
        run(first_step(accounts, instruction_data), outcomes) == ended_at_once(
            Err(ProcessError::NotEnoughAccountKeys),
        ),
{
}

/// A `Prepare` whose sub-calls succeed issues exactly two of them: first the
/// transfer of the stored fee from the payer to the fee destination, then
/// the approval of the requested amount. Then it succeeds.
pub proof fn lemma_prepare_pays_fee_then_asks_approval(
    accounts: Seq<Account>,
    instruction_data: Seq<u8>,
    amount: u64,
    record: BridgeData,
)
    requires
        decode(instruction_data) == Ok::<Command, DecodeError>(Command::Prepare { amount }),
        accounts.len() >= PREPARE_ROLES,
        decode_bridge_data(accounts[4].data@) == Ok::<BridgeData, DecodeError>(record),
        accounts[6].key == SPL_TOKEN_PROGRAM_ID,
    ensures
        run(first_step(accounts, instruction_data), seq![Ok(()), Ok(())]) == (Trace {
            calls: seq![
                SubCallView::Instruction {
                    instruction: system_transfer(
                        accounts[1].key,
                        accounts[3].key,
                        record.config.fee,
                    ),
                    accounts: seq![1usize, 3usize, 7usize],
                },
                SubCallView::Instruction {
                    instruction: token_approve(
                        accounts[6].key,
                        accounts[2].key,
                        accounts[5].key,
                        accounts[1].key,
                        Seq::empty(),
                        amount,
                    ),
                    accounts: seq![2usize, 5usize, 1usize],
                },
            ],
            result: Some(Ok(())),
        }),
{
    let outcomes: Seq<Result<(), u64>> = seq![Ok(()), Ok(())];
    let bound = resolve_prepare(accounts)->Ok_0;
    let approval = approval_for(bound, amount);
    let first = first_step(accounts, instruction_data);
    assert(first == StepView::Invoke(
        fee_transfer(bound, record.config.fee),
        Pending::FeeTransfer(approval),
    ));
    let second = next_step(Pending::FeeTransfer(approval), outcomes[0]);
    assert(second == StepView::Invoke(approval_call(approval), Pending::Approval));
    let third = next_step(Pending::Approval, outcomes.skip(1)[0]);
    assert(third == StepView::Finish(Ok(())));
    let after_third = run(third, outcomes.skip(1).skip(1));
    assert(after_third.calls =~= Seq::empty());
    let after_second = run(second, outcomes.skip(1));
    assert(after_second.calls =~= seq![approval_call(approval)]);
    let all = run(first, outcomes);
    assert(all.calls =~= seq![
        fee_transfer(bound, record.config.fee),
        approval_call(approval),
    ]);
}

/// A `Prepare` whose fee transfer fails never asks for the approval: the fee
/// transfer is the only sub-call, and its failure is the invocation's result.
pub proof fn lemma_failed_fee_transfer_ends_prepare(
    accounts: Seq<Account>,
    instruction_data: Seq<u8>,
    amount: u64,
    record: BridgeData,
    code: u64,
    outcomes: Seq<Result<(), u64>>,
)
    requires
        decode(instruction_data) == Ok::<Command, DecodeError>(Command::Prepare { amount }),
        accounts.len() >= PREPARE_ROLES,
        decode_bridge_data(accounts[4].data@) == Ok::<BridgeData, DecodeError>(record),
        outcomes.len() > 0,
        outcomes[0] == Err::<(), u64>(code),
    ensures
        run(first_step(accounts, instruction_data), outcomes) == (Trace {
            calls: seq![
                SubCallView::Instruction {
                    instruction: system_transfer(
                        accounts[1].key,
                        accounts[3].key,
                        record.config.fee,
                    ),
                    accounts: seq![1usize, 3usize, 7usize],
                },
            ],
            result: Some(Err(ProcessError::SubCallFailed(code))),
        }),
{
    let bound = resolve_prepare(accounts)->Ok_0;
    let approval = approval_for(bound, amount);
    let first = first_step(accounts, instruction_data);
    assert(first == StepView::Invoke(
        fee_transfer(bound, record.config.fee),
        Pending::FeeTransfer(approval),
    ));
    lemma_failure_is_final(Pending::FeeTransfer(approval), code, outcomes.skip(1));
    let all = run(first, outcomes);
    assert(all.calls =~= seq![fee_transfer(bound, record.config.fee)]);
}

/// An approval is never asked of a program other than the token-custody
/// program: once the fee is paid the invocation ends with an error, and no
/// approval is issued.
pub proof fn lemma_approval_needs_token_program(approval: Approval, later: Seq<Result<(), u64>>)
    requires
        approval.token_program != SPL_TOKEN_PROGRAM_ID,
    ensures
        run(next_step(Pending::FeeTransfer(approval), Ok(())), later) == ended_at_once(
            Err(ProcessError::IncorrectProgramId),
        ),
{
}

/// A `Send` with its nineteen accounts asks for exactly one sub-call, the
/// transfer message. Nonce, amount and address are the command's, the
/// relayer fee is zero and the target is chain 2 for every command. When
/// the sub-call succeeds, so does the invocation.
pub proof fn lemma_send_emits_one_message(
    accounts: Seq<Account>,
    instruction_data: Seq<u8>,
    destination_address: Seq<u8>,
    transfer_nonce: u32,
    amount: u64,
)
    requires
        decode(instruction_data) == Ok::<Command, DecodeError>(
            Command::Send { destination_address, transfer_nonce, amount },
        ),
        accounts.len() >= SEND_ROLES,
    ensures
        run(first_step(accounts, instruction_data), seq![Ok(())]) == (Trace {
            calls: seq![
                SubCallView::TransferNative {
                    token_bridge_program: accounts[13].key,
                    bridge_program: accounts[14].key,
                    payer: accounts[1].key,
                    message: accounts[2].key,
                    from: accounts[3].key,
                    mint: accounts[4].key,
                    token_chain: 1,
                    data: TransferMessage {
                        nonce: transfer_nonce,
                        amount,
                        fee: 0,
                        target_address: destination_address,
                        target_chain: 2,
                    },
                    accounts: seq![
                        1usize,
                        5usize,
                        3usize,
                        4usize,
                        6usize,
                        7usize,
                        8usize,
                        9usize,
                        2usize,
                        10usize,
                        11usize,
                        12usize,
                        16usize,
                        17usize,
                        18usize,
                        14usize,
                        15usize,
                    ],
                },
            ],
            result: Some(Ok(())),
        }),
{
    let outcomes: Seq<Result<(), u64>> = seq![Ok(())];
    let bound = resolve_send(accounts)->Ok_0;
    let call = transfer_message_call(bound, destination_address, transfer_nonce, amount);
    let first = first_step(accounts, instruction_data);
    assert(first == StepView::Invoke(call, Pending::TransferMessage));
    let second = next_step(Pending::TransferMessage, outcomes[0]);
    assert(second == StepView::Finish(Ok(())));
    let after = run(second, outcomes.skip(1));
    assert(after.calls =~= Seq::empty());
    let all = run(first, outcomes);
    assert(all.calls =~= seq![call]);
}

/// Every account that a sub-call hands on is one that the caller supplied:
/// its position lies within the caller's list.
pub proof fn lemma_sub_calls_name_supplied_accounts(
    accounts: Seq<Account>,
    instruction_data: Seq<u8>,
    outcomes: Seq<Result<(), u64>>,
    i: int,
    j: int,
)
    requires
        0 <= i < run(first_step(accounts, instruction_data), outcomes).calls.len(),
        0 <= j < run(first_step(accounts, instruction_data), outcomes).calls[i].positions().len(),
    ensures
        run(first_step(accounts, instruction_data), outcomes).calls[i].positions()[j]
            < accounts.len(),
{
    reveal_with_fuel(run, 4);
    let first = first_step(accounts, instruction_data);
    match first {
        StepView::Finish(_) => {},
        StepView::Invoke(call, pending) => {
            if outcomes.len() > 0 {
                let second = next_step(pending, outcomes[0]);
                match second {
                    StepView::Finish(_) => {},
                    StepView::Invoke(next_call, next_pending) => {
                        assert(accounts.len() >= PREPARE_ROLES);
                        assert(next_call.positions() == seq![
                            PREPARE_SOURCE_TOKEN_ACCOUNT,
                            PREPARE_BRIDGE_TOKEN_AUTHORITY,
                            PREPARE_PAYER,
                        ]);
                    },
                }
            }
        },
    }
}

/// No invocation issues more than two sub-calls.
pub proof fn lemma_at_most_two_sub_calls(
    accounts: Seq<Account>,
    instruction_data: Seq<u8>,
    outcomes: Seq<Result<(), u64>>,
)
    ensures
        run(first_step(accounts, instruction_data), outcomes).calls.len() <= 2,
{
    reveal_with_fuel(run, 4);
}

} // verus!
