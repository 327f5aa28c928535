use rosen_bridge::accounts::Account;
use rosen_bridge::error::{DecodeError, ProcessError};
use rosen_bridge::instruction::{PrepareArgs, RosenBridgeInstruction, SendArgs};
use rosen_bridge::message::{Chain, TransferNativeData, HOST_CHAIN, TARGET_CHAIN};
use rosen_bridge::processor::{
    process_instruction, process_prepare, process_send, resume, Approval, BridgeConfig,
    BridgeData, Pending, Step,
};
use rosen_bridge::subcall::{
    AccountMeta, Instruction, SubCall, SPL_TOKEN_PROGRAM_ID, SYSTEM_PROGRAM_ID,
};

const PROGRAM: [u8; 32] = [0xAA; 32];

fn key(role: usize) -> [u8; 32] {
    [role as u8 + 0x10; 32]
}

fn bridge_record(fee: u64) -> Vec<u8> {
    BridgeData {
        guardian_set_index: 1,
        last_lamports: 5_000,
        config: BridgeConfig { guardian_set_expiration_time: 86_400, fee },
    }
    .to_vec()
}

/// Eight accounts in the order of `Prepare`, with the token program in its place.
fn prepare_accounts(record: &[u8]) -> Vec<Account<'_>> {
    (0..8)
        .map(|i| Account {
            key: if i == 6 { SPL_TOKEN_PROGRAM_ID } else { key(i) },
            data: if i == 4 { record } else { &[] },
        })
        .collect()
}

fn send_accounts(count: usize) -> Vec<Account<'static>> {
    (0..count).map(|i| Account { key: key(i), data: &[] }).collect()
}

fn prepare_payload(amount: u64) -> Vec<u8> {
    RosenBridgeInstruction::Prepare(PrepareArgs { amount }).to_vec()
}

fn send_args() -> SendArgs {
    SendArgs { destination_address: [0xD0; 32], transfer_nonce: 42, amount: 9_000 }
}

fn from_ledger(ix: solana_program::instruction::Instruction) -> Instruction {
    Instruction {
        program_id: ix.program_id.to_bytes(),
        accounts: ix
            .accounts
            .iter()
            .map(|m| AccountMeta {
                pubkey: m.pubkey.to_bytes(),
                is_signer: m.is_signer,
                is_writable: m.is_writable,
            })
            .collect(),
        data: ix.data,
    }
}

/// Plays the host: issues what is asked for and reports the scripted outcomes.
fn drive(
    first: Step,
    outcomes: &[Result<(), u64>],
) -> (Vec<SubCall>, Option<Result<(), ProcessError>>) {
    let mut calls = Vec::new();
    let mut step = first;
    let mut reported = outcomes.iter();
    loop {
        match step {
            Step::Finish(result) => return (calls, Some(result)),
            Step::Invoke(call, pending) => {
                calls.push(call);
                match reported.next() {
                    None => return (calls, None),
                    Some(outcome) => step = resume(pending, *outcome),
                }
            }
        }
    }
}

fn expected_fee_transfer(fee: u64) -> SubCall {
    let mut data = vec![2, 0, 0, 0];
    data.extend_from_slice(&fee.to_le_bytes());
    SubCall::Instruction {
        instruction: Instruction {
            program_id: SYSTEM_PROGRAM_ID,
            accounts: vec![
                AccountMeta { pubkey: key(1), is_signer: true, is_writable: true },
                AccountMeta { pubkey: key(3), is_signer: false, is_writable: true },
            ],
            data,
        },
        accounts: vec![1, 3, 7],
    }
}

fn expected_approval(amount: u64) -> SubCall {
    let mut data = vec![4];
    data.extend_from_slice(&amount.to_le_bytes());
    SubCall::Instruction {
        instruction: Instruction {
            program_id: SPL_TOKEN_PROGRAM_ID,
            accounts: vec![
                AccountMeta { pubkey: key(2), is_signer: false, is_writable: true },
                AccountMeta { pubkey: key(5), is_signer: false, is_writable: false },
                AccountMeta { pubkey: key(1), is_signer: true, is_writable: false },
            ],
            data,
        },
        accounts: vec![2, 5, 1],
    }
}

#[test]
fn prepare_end_to_end() {
    let mut payload = vec![0x00];
    payload.extend_from_slice(&1000u64.to_le_bytes());
    let record = bridge_record(250);
    let accounts = prepare_accounts(&record);
    let first = process_instruction(&PROGRAM, &accounts, &payload);
    let (calls, result) = drive(first, &[Ok(()), Ok(())]);
    assert_eq!(calls, vec![expected_fee_transfer(250), expected_approval(1000)]);
    assert_eq!(result, Some(Ok(())));
}

#[test]
fn prepare_forwards_the_stored_fee() {
    let record = bridge_record(500);
    let accounts = prepare_accounts(&record);
    let first = process_instruction(&PROGRAM, &accounts, &prepare_payload(77));
    let (calls, result) = drive(first, &[Ok(()), Ok(())]);
    assert_eq!(calls.len(), 2);
    assert_eq!(calls[0], expected_fee_transfer(500));
    assert_eq!(calls[1], expected_approval(77));
    assert_eq!(result, Some(Ok(())));
}

#[test]
fn fee_transfer_is_the_system_program_s_own_instruction() {
    let record = bridge_record(500);
    let accounts = prepare_accounts(&record);
    let first = process_instruction(&PROGRAM, &accounts, &prepare_payload(77));
    let built = solana_program::system_instruction::transfer(
        &solana_program::pubkey::Pubkey::new_from_array(key(1)),
        &solana_program::pubkey::Pubkey::new_from_array(key(3)),
        500,
    );
    match first {
        Step::Invoke(SubCall::Instruction { instruction, accounts }, _) => {
            assert_eq!(instruction, from_ledger(built));
            assert_eq!(accounts, vec![1, 3, 7]);
        }
        other => panic!("unexpected step {:?}", other),
    }
}

#[test]
fn approval_is_the_token_program_s_own_instruction() {
    let approval = Approval {
        token_program: SPL_TOKEN_PROGRAM_ID,
        source: key(2),
        delegate: key(5),
        owner: key(1),
        amount: u64::MAX,
    };
    let built = spl_token::instruction::approve(
        &spl_token::id(),
        &solana_program::pubkey::Pubkey::new_from_array(key(2)),
        &solana_program::pubkey::Pubkey::new_from_array(key(5)),
        &solana_program::pubkey::Pubkey::new_from_array(key(1)),
        &[],
        u64::MAX,
    )
    .unwrap();
    match resume(Pending::FeeTransfer(approval), Ok(())) {
        Step::Invoke(SubCall::Instruction { instruction, accounts }, pending) => {
            assert_eq!(instruction, from_ledger(built));
            assert_eq!(accounts, vec![2, 5, 1]);
            assert_eq!(pending, Pending::Approval);
        }
        other => panic!("unexpected step {:?}", other),
    }
}

#[test]
fn program_addresses_are_the_ledger_s() {
    assert_eq!(SYSTEM_PROGRAM_ID, solana_program::system_program::id().to_bytes());
    assert_eq!(SPL_TOKEN_PROGRAM_ID, spl_token::id().to_bytes());
}

#[test]
fn failed_fee_transfer_aborts_before_the_approval() {
    let record = bridge_record(250);
    let accounts = prepare_accounts(&record);
    let first = process_instruction(&PROGRAM, &accounts, &prepare_payload(1000));
    let (calls, result) = drive(first, &[Err(0x1_0000_0001), Ok(()), Ok(())]);
    assert_eq!(calls, vec![expected_fee_transfer(250)]);
    assert_eq!(result, Some(Err(ProcessError::SubCallFailed(0x1_0000_0001))));
}

#[test]
fn failed_approval_fails_the_invocation() {
    let record = bridge_record(250);
    let accounts = prepare_accounts(&record);
    let first = process_instruction(&PROGRAM, &accounts, &prepare_payload(1000));
    let (calls, result) = drive(first, &[Ok(()), Err(17)]);
    assert_eq!(calls, vec![expected_fee_transfer(250), expected_approval(1000)]);
    assert_eq!(result, Some(Err(ProcessError::SubCallFailed(17))));
}

#[test]
fn every_pending_sub_call_propagates_its_failure() {
    let approval = Approval {
        token_program: SPL_TOKEN_PROGRAM_ID,
        source: key(2),
        delegate: key(5),
        owner: key(1),
        amount: 1,
    };
    for pending in [Pending::FeeTransfer(approval), Pending::Approval, Pending::TransferMessage] {
        for code in [0u64, 1, u64::MAX] {
            assert_eq!(
                resume(pending, Err(code)),
                Step::Finish(Err(ProcessError::SubCallFailed(code)))
            );
        }
    }
}

#[test]
fn last_sub_calls_end_the_invocation() {
    assert_eq!(resume(Pending::Approval, Ok(())), Step::Finish(Ok(())));
    assert_eq!(resume(Pending::TransferMessage, Ok(())), Step::Finish(Ok(())));
}

#[test]
fn approval_is_only_asked_of_the_token_program() {
    let record = bridge_record(250);
    let mut accounts = prepare_accounts(&record);
    accounts[6].key = key(6);
    let first = process_instruction(&PROGRAM, &accounts, &prepare_payload(1000));
    let (calls, result) = drive(first, &[Ok(()), Ok(())]);
    assert_eq!(calls, vec![expected_fee_transfer(250)]);
    assert_eq!(result, Some(Err(ProcessError::IncorrectProgramId)));
}

#[test]
fn zero_amount_and_zero_fee_are_forwarded() {
    let record = bridge_record(0);
    let accounts = prepare_accounts(&record);
    let first = process_instruction(&PROGRAM, &accounts, &prepare_payload(0));
    let (calls, result) = drive(first, &[Ok(()), Ok(())]);
    assert_eq!(calls, vec![expected_fee_transfer(0), expected_approval(0)]);
    assert_eq!(result, Some(Ok(())));
}

#[test]
fn prepare_with_too_few_accounts_issues_nothing() {
    let record = bridge_record(250);
    for count in 0..8 {
        let mut accounts = prepare_accounts(&record);
        accounts.truncate(count);
        let first = process_instruction(&PROGRAM, &accounts, &prepare_payload(1000));
        assert_eq!(first, Step::Finish(Err(ProcessError::NotEnoughAccountKeys)));
    }
}

#[test]
fn send_with_too_few_accounts_issues_nothing() {
    let payload = RosenBridgeInstruction::Send(send_args()).to_vec();
    for count in 0..19 {
        let first = process_instruction(&PROGRAM, &send_accounts(count), &payload);
        let (calls, result) = drive(first, &[Ok(())]);
        assert!(calls.is_empty());
        assert_eq!(result, Some(Err(ProcessError::NotEnoughAccountKeys)));
    }
}

#[test]
fn bad_payload_is_refused_before_the_accounts_are_counted() {
    assert_eq!(
        process_instruction(&PROGRAM, &[], &[]),
        Step::Finish(Err(ProcessError::InvalidInstruction(DecodeError::UnexpectedEnd)))
    );
    assert_eq!(
        process_instruction(&PROGRAM, &[], &[7, 0, 0]),
        Step::Finish(Err(ProcessError::InvalidInstruction(DecodeError::UnknownDiscriminant(7))))
    );
    let mut long = prepare_payload(1);
    long.push(0);
    assert_eq!(
        process_instruction(&PROGRAM, &send_accounts(19), &long),
        Step::Finish(Err(ProcessError::InvalidInstruction(DecodeError::TrailingBytes)))
    );
}

#[test]
fn transaction_with_three_bytes_of_payload_is_refused() {
    let accounts = send_accounts(1);
    let first = process_instruction(&PROGRAM, &accounts, &[1, 2, 3]);
    let (calls, result) = drive(first, &[]);
    assert!(calls.is_empty());
    assert_eq!(
        result,
        Some(Err(ProcessError::InvalidInstruction(DecodeError::UnexpectedEnd)))
    );
}

#[test]
fn malformed_bridge_state_is_refused() {
    let record = bridge_record(250);
    let accounts = prepare_accounts(&record[..23]);
    assert_eq!(
        process_instruction(&PROGRAM, &accounts, &prepare_payload(1000)),
        Step::Finish(Err(ProcessError::InvalidBridgeState(DecodeError::UnexpectedEnd)))
    );
    let mut long = record.clone();
    long.push(0);
    let accounts = prepare_accounts(&long);
    assert_eq!(
        process_instruction(&PROGRAM, &accounts, &prepare_payload(1000)),
        Step::Finish(Err(ProcessError::InvalidBridgeState(DecodeError::TrailingBytes)))
    );
}

#[test]
fn missing_accounts_are_reported_before_the_bridge_state_is_read() {
    let accounts = send_accounts(7);
    assert_eq!(
        process_instruction(&PROGRAM, &accounts, &prepare_payload(1000)),
        Step::Finish(Err(ProcessError::NotEnoughAccountKeys))
    );
}

#[test]
fn send_builds_the_transfer_message() {
    let args = send_args();
    let payload = RosenBridgeInstruction::Send(args).to_vec();
    let first = process_instruction(&PROGRAM, &send_accounts(19), &payload);
    let (calls, result) = drive(first, &[Ok(())]);
    assert_eq!(
        calls,
        vec![SubCall::TransferNative {
            token_bridge_program: key(13),
            bridge_program: key(14),
            payer: key(1),
            message: key(2),
            from: key(3),
            mint: key(4),
            token_chain: 1,
            data: TransferNativeData {
                nonce: 42,
                amount: 9_000,
                fee: 0,
                target_address: [0xD0; 32],
                target_chain: 2,
            },
            accounts: vec![1, 5, 3, 4, 6, 7, 8, 9, 2, 10, 11, 12, 16, 17, 18, 14, 15],
        }]
    );
    assert_eq!(result, Some(Ok(())));
}

#[test]
fn transfer_message_keeps_the_command_s_values() {
    for (nonce, amount, fill) in [(0u32, 0u64, 0u8), (u32::MAX, u64::MAX, 0xFF), (7, 8, 9)] {
        let args = SendArgs { destination_address: [fill; 32], transfer_nonce: nonce, amount };
        let data = TransferNativeData::new(&args);
        assert_eq!(data.nonce, nonce);
        assert_eq!(data.amount, amount);
        assert_eq!(data.fee, 0);
        assert_eq!(data.target_address, [fill; 32]);
        assert_eq!(data.target_chain, 2);
    }
}

#[test]
fn failed_transfer_message_fails_the_invocation() {
    let payload = RosenBridgeInstruction::Send(send_args()).to_vec();
    let first = process_instruction(&PROGRAM, &send_accounts(19), &payload);
    let (calls, result) = drive(first, &[Err(3)]);
    assert_eq!(calls.len(), 1);
    assert_eq!(result, Some(Err(ProcessError::SubCallFailed(3))));
}

#[test]
fn handlers_agree_with_the_dispatcher() {
    let record = bridge_record(250);
    let accounts = prepare_accounts(&record);
    assert_eq!(
        process_prepare(PrepareArgs { amount: 5 }, &accounts),
        process_instruction(&PROGRAM, &accounts, &prepare_payload(5))
    );
    let accounts = send_accounts(19);
    assert_eq!(
        process_send(send_args(), &accounts),
        process_instruction(
            &PROGRAM,
            &accounts,
            &RosenBridgeInstruction::Send(send_args()).to_vec()
        )
    );
}

#[test]
fn the_program_address_has_no_say() {
    let record = bridge_record(250);
    let accounts = prepare_accounts(&record);
    assert_eq!(
        process_instruction(&[0; 32], &accounts, &prepare_payload(5)),
        process_instruction(&[0xFF; 32], &accounts, &prepare_payload(5))
    );
}

#[test]
fn chains_have_fixed_numbers() {
    assert_eq!(Chain::Solana.id(), 1);
    assert_eq!(Chain::Ethereum.id(), 2);
    assert_eq!(HOST_CHAIN, Chain::Solana);
    assert_eq!(TARGET_CHAIN, Chain::Ethereum);
}
