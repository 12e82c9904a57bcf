use state_holder::account::AccountRef;
use state_holder::dispatch::process_instruction;
use state_holder::error::ErrorKind;

fn id(b: u8) -> Vec<u8> {
    vec![b; 32]
}

fn account(key: u8, data: Vec<u8>, owner: u8, is_signer: bool) -> AccountRef {
    AccountRef { key: id(key), data, owner: id(owner), is_signer }
}

fn instruction(opcode: u8, value: u64) -> Vec<u8> {
    let mut d = vec![opcode];
    d.extend_from_slice(&value.to_le_bytes());
    d
}

const PROGRAM: u8 = 9;
const AUTHORITY_A: u8 = 1;
const AUTHORITY_B: u8 = 2;

#[test]
fn initialize_writes_value_and_authority() {
    let program_id = id(PROGRAM);
    let mut accounts = vec![
        account(3, vec![0u8; 40], PROGRAM, false),
        account(AUTHORITY_A, vec![], PROGRAM, true),
    ];
    let r = process_instruction(&program_id, &mut accounts, &instruction(0, 7));
    assert_eq!(r, Ok(None));
    assert_eq!(&accounts[0].data[0..8], &7u64.to_le_bytes());
    assert_eq!(&accounts[0].data[8..40], &id(AUTHORITY_A)[..]);
}

#[test]
fn initialize_overwrites_prior_record() {
    let program_id = id(PROGRAM);
    let mut prior = vec![0xABu8; 40];
    prior[0] = 0xCD;
    let mut accounts = vec![
        account(3, prior, PROGRAM, false),
        account(AUTHORITY_B, vec![], PROGRAM, true),
    ];
    let r = process_instruction(&program_id, &mut accounts, &instruction(0, 11));
    assert_eq!(r, Ok(None));
    assert_eq!(&accounts[0].data[0..8], &11u64.to_le_bytes());
    assert_eq!(&accounts[0].data[8..40], &id(AUTHORITY_B)[..]);
}

#[test]
fn initialize_keeps_bytes_past_the_record() {
    let program_id = id(PROGRAM);
    let mut data = vec![0u8; 48];
    data[45] = 0x5A;
    let mut accounts = vec![
        account(3, data, PROGRAM, false),
        account(AUTHORITY_A, vec![], PROGRAM, true),
    ];
    let r = process_instruction(&program_id, &mut accounts, &instruction(0, 1));
    assert_eq!(r, Ok(None));
    assert_eq!(accounts[0].data.len(), 48);
    assert_eq!(accounts[0].data[45], 0x5A);
}

#[test]
fn initialize_rejects_foreign_owner() {
    let program_id = id(PROGRAM);
    let before = vec![4u8; 40];
    let mut accounts = vec![
        account(3, before.clone(), 8, false),
        account(AUTHORITY_A, vec![], PROGRAM, true),
    ];
    let r = process_instruction(&program_id, &mut accounts, &instruction(0, 7));
    assert_eq!(r, Err(ErrorKind::OwnershipMismatch));
    assert_eq!(accounts[0].data, before);
}

#[test]
fn initialize_rejects_unsigned_authority() {
    let program_id = id(PROGRAM);
    let before = vec![4u8; 40];
    let mut accounts = vec![
        account(3, before.clone(), PROGRAM, false),
        account(AUTHORITY_A, vec![], PROGRAM, false),
    ];
    let r = process_instruction(&program_id, &mut accounts, &instruction(0, 7));
    assert_eq!(r, Err(ErrorKind::MissingSignature));
    assert_eq!(accounts[0].data, before);
}

#[test]
fn set_value_replaces_only_the_value() {
    let program_id = id(PROGRAM);
    let mut accounts = vec![
        account(3, vec![0u8; 40], PROGRAM, false),
        account(AUTHORITY_A, vec![], PROGRAM, true),
    ];
    let r = process_instruction(&program_id, &mut accounts, &instruction(0, 5));
    assert_eq!(r, Ok(None));
    let authority_before = accounts[0].data[8..40].to_vec();

    let r = process_instruction(&program_id, &mut accounts, &instruction(1, 9));
    assert_eq!(r, Ok(None));
    assert_eq!(&accounts[0].data[0..8], &9u64.to_le_bytes());
    assert_eq!(&accounts[0].data[8..40], &authority_before[..]);
}

#[test]
fn set_value_rejects_wrong_authority() {
    let program_id = id(PROGRAM);
    let mut accounts = vec![
        account(3, vec![0u8; 40], PROGRAM, false),
        account(AUTHORITY_A, vec![], PROGRAM, true),
    ];
    assert_eq!(process_instruction(&program_id, &mut accounts, &instruction(0, 5)), Ok(None));
    let before = accounts[0].data.clone();

    accounts[1] = account(AUTHORITY_B, vec![], PROGRAM, true);
    let r = process_instruction(&program_id, &mut accounts, &instruction(1, 9));
    assert_eq!(r, Err(ErrorKind::Unauthorized));
    assert_eq!(accounts[0].data, before);
}

#[test]
fn set_value_rejects_unsigned_authority() {
    let program_id = id(PROGRAM);
    let mut accounts = vec![
        account(3, vec![0u8; 40], PROGRAM, false),
        account(AUTHORITY_A, vec![], PROGRAM, true),
    ];
    assert_eq!(process_instruction(&program_id, &mut accounts, &instruction(0, 5)), Ok(None));
    let before = accounts[0].data.clone();

    accounts[1].is_signer = false;
    let r = process_instruction(&program_id, &mut accounts, &instruction(1, 9));
    assert_eq!(r, Err(ErrorKind::MissingSignature));
    assert_eq!(accounts[0].data, before);
}

#[test]
fn set_value_rejects_foreign_owner() {
    let program_id = id(PROGRAM);
    let mut accounts = vec![
        account(3, vec![0u8; 40], 8, true),
        account(AUTHORITY_A, vec![], PROGRAM, true),
    ];
    let r = process_instruction(&program_id, &mut accounts, &instruction(1, 9));
    assert_eq!(r, Err(ErrorKind::OwnershipMismatch));
}

#[test]
fn set_value_rejects_short_buffer() {
    let program_id = id(PROGRAM);
    let before = vec![0u8; 39];
    let mut accounts = vec![
        account(3, before.clone(), PROGRAM, false),
        account(AUTHORITY_A, vec![], PROGRAM, true),
    ];
    let r = process_instruction(&program_id, &mut accounts, &instruction(1, 9));
    assert_eq!(r, Err(ErrorKind::MalformedRecord));
    assert_eq!(accounts[0].data, before);
}

#[test]
fn get_value_reads_without_writing() {
    let program_id = id(PROGRAM);
    let mut accounts = vec![
        account(3, vec![0u8; 40], PROGRAM, false),
        account(AUTHORITY_A, vec![], PROGRAM, true),
    ];
    assert_eq!(process_instruction(&program_id, &mut accounts, &instruction(0, 5)), Ok(None));
    let before = accounts[0].data.clone();

    let r = process_instruction(&program_id, &mut accounts, &vec![2u8]);
    assert_eq!(r, Ok(Some(5)));
    assert_eq!(accounts[0].data, before);
}

#[test]
fn get_value_rejects_short_buffer() {
    let program_id = id(PROGRAM);
    let mut accounts = vec![account(3, vec![0u8; 10], PROGRAM, false)];
    let r = process_instruction(&program_id, &mut accounts, &vec![2u8]);
    assert_eq!(r, Err(ErrorKind::MalformedRecord));
}

#[test]
fn full_scenario() {
    let program_id = id(PROGRAM);
    let mut accounts = vec![
        account(3, vec![0u8; 40], PROGRAM, false),
        account(AUTHORITY_A, vec![], PROGRAM, true),
    ];

    assert_eq!(process_instruction(&program_id, &mut accounts, &instruction(0, 42)), Ok(None));
    assert_eq!(&accounts[0].data[0..8], &42u64.to_le_bytes());
    assert_eq!(&accounts[0].data[8..40], &id(AUTHORITY_A)[..]);

    assert_eq!(process_instruction(&program_id, &mut accounts, &instruction(1, 100)), Ok(None));
    assert_eq!(&accounts[0].data[0..8], &100u64.to_le_bytes());
    assert_eq!(&accounts[0].data[8..40], &id(AUTHORITY_A)[..]);

    accounts[1] = account(AUTHORITY_B, vec![], PROGRAM, true);
    assert_eq!(
        process_instruction(&program_id, &mut accounts, &instruction(1, 999)),
        Err(ErrorKind::Unauthorized)
    );
    assert_eq!(&accounts[0].data[0..8], &100u64.to_le_bytes());
    assert_eq!(&accounts[0].data[8..40], &id(AUTHORITY_A)[..]);

    assert_eq!(process_instruction(&program_id, &mut accounts, &vec![2u8]), Ok(Some(100)));
}
