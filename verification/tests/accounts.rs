use rosen_bridge::accounts::{
    Account, PrepareAccounts, SendAccounts, PREPARE_BRIDGE_STATE, PREPARE_BRIDGE_TOKEN_AUTHORITY,
    PREPARE_FEE_DESTINATION, PREPARE_PAYER, PREPARE_PROGRAM, PREPARE_ROLES,
    PREPARE_SOURCE_TOKEN_ACCOUNT, PREPARE_SYSTEM_PROGRAM, PREPARE_TOKEN_PROGRAM, SEND_ROLES,
};
use rosen_bridge::error::ProcessError;

fn numbered(count: usize) -> Vec<Account<'static>> {
    (0..count).map(|i| Account { key: [i as u8 + 1; 32], data: &[] }).collect()
}

#[test]
fn prepare_needs_eight_accounts() {
    for count in 0..PREPARE_ROLES {
        let accounts = numbered(count);
        assert_eq!(
            PrepareAccounts::resolve(&accounts).err(),
            Some(ProcessError::NotEnoughAccountKeys),
            "{} accounts",
            count
        );
    }
    assert!(PrepareAccounts::resolve(&numbered(8)).is_ok());
}

#[test]
fn send_needs_nineteen_accounts() {
    for count in 0..SEND_ROLES {
        let accounts = numbered(count);
        assert_eq!(
            SendAccounts::resolve(&accounts).err(),
            Some(ProcessError::NotEnoughAccountKeys),
            "{} accounts",
            count
        );
    }
    assert!(SendAccounts::resolve(&numbered(19)).is_ok());
}

#[test]
fn prepare_roles_are_bound_by_position() {
    let accounts = numbered(8);
    let bound = PrepareAccounts::resolve(&accounts).unwrap();
    assert_eq!(bound.program.key, [1; 32]);
    assert_eq!(bound.payer.key, [2; 32]);
    assert_eq!(bound.source_token_account.key, [3; 32]);
    assert_eq!(bound.fee_destination.key, [4; 32]);
    assert_eq!(bound.bridge_state.key, [5; 32]);
    assert_eq!(bound.bridge_token_authority.key, [6; 32]);
    assert_eq!(bound.token_program.key, [7; 32]);
    assert_eq!(bound.system_program.key, [8; 32]);
    assert_eq!(
        [
            PREPARE_PROGRAM,
            PREPARE_PAYER,
            PREPARE_SOURCE_TOKEN_ACCOUNT,
            PREPARE_FEE_DESTINATION,
            PREPARE_BRIDGE_STATE,
            PREPARE_BRIDGE_TOKEN_AUTHORITY,
            PREPARE_TOKEN_PROGRAM,
            PREPARE_SYSTEM_PROGRAM,
        ],
        [0, 1, 2, 3, 4, 5, 6, 7]
    );
}

#[test]
fn send_roles_are_bound_by_position() {
    let accounts = numbered(19);
    let bound = SendAccounts::resolve(&accounts).unwrap();
    let keys = [
        bound.program.key,
        bound.payer.key,
        bound.message.key,
        bound.source_token_account.key,
        bound.mint.key,
        bound.token_bridge_config.key,
        bound.custody.key,
        bound.authority_signer.key,
        bound.custody_signer.key,
        bound.bridge_config.key,
        bound.emitter.key,
        bound.sequence.key,
        bound.fee_collector.key,
        bound.token_bridge_program.key,
        bound.bridge_program.key,
        bound.token_program.key,
        bound.clock.key,
        bound.rent.key,
        bound.system_program.key,
    ];
    for (i, key) in keys.iter().enumerate() {
        assert_eq!(*key, [i as u8 + 1; 32], "role {}", i);
    }
}

#[test]
fn accounts_beyond_the_last_role_are_ignored() {
    let accounts = numbered(25);
    let bound = PrepareAccounts::resolve(&accounts).unwrap();
    assert_eq!(bound.system_program.key, [8; 32]);
    let bound = SendAccounts::resolve(&accounts).unwrap();
    assert_eq!(bound.system_program.key, [19; 32]);
}

#[test]
fn bound_account_keeps_its_data() {
    let record = [7u8; 24];
    let mut accounts = numbered(8);
    accounts[PREPARE_BRIDGE_STATE].data = &record;
    let bound = PrepareAccounts::resolve(&accounts).unwrap();
    assert_eq!(bound.bridge_state.data, &record[..]);
    assert_eq!(bound.payer.data, &[] as &[u8]);
}
