use token_transfer::error::ProgramError;
use token_transfer::instruction::{
    cvlr_transfer_checked, decode_amount, transfer_checked, TRANSFER_CHECKED_LEN,
    TRANSFER_CHECKED_TAG,
};
use token_transfer::pubkey::{Pubkey, TOKEN_PROGRAM_ID};

fn key(byte: u8) -> Pubkey {
    Pubkey::new_from_array([byte; 32])
}

#[test]
fn pubkey_round_trips_through_bytes() {
    let mut bytes = [0u8; 32];
    bytes[0] = 1;
    bytes[31] = 255;
    assert_eq!(Pubkey::new_from_array(bytes).to_bytes(), bytes);
}

#[test]
fn pubkeys_compare_by_bytes() {
    let mut bytes = [7u8; 32];
    assert_eq!(key(7), Pubkey::new_from_array(bytes));
    bytes[31] = 8;
    assert_ne!(key(7), Pubkey::new_from_array(bytes));
    bytes[31] = 7;
    bytes[0] = 6;
    assert_ne!(key(7), Pubkey::new_from_array(bytes));
}

#[test]
fn token_program_id_is_the_declared_address() {
    let words: Vec<u64> = TOKEN_PROGRAM_ID
        .chunks(8)
        .map(|c| u64::from_le_bytes([c[0], c[1], c[2], c[3], c[4], c[5], c[6], c[7]]))
        .collect();
    assert_eq!(
        words,
        vec![
            10637895772709248262u64,
            12428223917890587609u64,
            10463932726783620124u64,
            12178014311288245306u64,
        ]
    );
}

#[test]
fn transfer_checked_builds_the_payload() {
    let program = Pubkey::new_from_array(TOKEN_PROGRAM_ID);
    let signer = key(9);
    let built = transfer_checked(&program, &key(1), &key(2), &key(3), &key(4), &[&signer], 1, 2)
        .unwrap();
    assert_eq!(built.program_id, program);
    assert!(built.accounts.is_empty());
    assert_eq!(built.data, vec![12u8, 1, 0, 0, 0, 0, 0, 0, 0, 2]);
    assert_eq!(built.data.len(), TRANSFER_CHECKED_LEN);
    assert_eq!(built.data[0], TRANSFER_CHECKED_TAG);
}

#[test]
fn transfer_checked_encodes_the_amount_little_endian() {
    let program = Pubkey::new_from_array(TOKEN_PROGRAM_ID);
    let built = transfer_checked(
        &program,
        &key(1),
        &key(2),
        &key(3),
        &key(4),
        &[],
        0x0102030405060708,
        9,
    )
    .unwrap();
    assert_eq!(built.data, vec![12u8, 8, 7, 6, 5, 4, 3, 2, 1, 9]);
}

#[test]
fn transfer_checked_refuses_another_program() {
    let result = transfer_checked(&key(0), &key(1), &key(2), &key(3), &key(4), &[], 300, 6);
    assert_eq!(result, Err(ProgramError::IncorrectProgramId));
}

#[test]
fn transfer_checked_refuses_an_address_of_small_words() {
    let mut bytes = [0u8; 32];
    bytes[0] = 1;
    bytes[8] = 2;
    bytes[16] = 3;
    bytes[24] = 4;
    let small = Pubkey::new_from_array(bytes);
    let result = transfer_checked(&small, &key(1), &key(2), &key(3), &key(4), &[], 1, 0);
    assert_eq!(result, Err(ProgramError::IncorrectProgramId));
}

#[test]
fn transfer_checked_refuses_a_near_miss() {
    let mut bytes = TOKEN_PROGRAM_ID;
    bytes[31] ^= 1;
    let near = Pubkey::new_from_array(bytes);
    let result = transfer_checked(&near, &key(1), &key(2), &key(3), &key(4), &[], 1, 0);
    assert_eq!(result, Err(ProgramError::IncorrectProgramId));
}

#[test]
fn cvlr_transfer_checked_builds_the_same_instruction() {
    let program = Pubkey::new_from_array(TOKEN_PROGRAM_ID);
    let a = transfer_checked(&program, &key(1), &key(2), &key(3), &key(4), &[], 300, 6).unwrap();
    let b =
        cvlr_transfer_checked(&program, &key(1), &key(2), &key(3), &key(4), &[], 300, 6).unwrap();
    assert_eq!(a, b);
    assert_eq!(b.program_id.to_bytes(), TOKEN_PROGRAM_ID);
    assert_eq!(b.data, vec![12u8, 44, 1, 0, 0, 0, 0, 0, 0, 6]);
}

#[test]
fn cvlr_transfer_checked_refuses_another_program() {
    let result = cvlr_transfer_checked(&key(5), &key(1), &key(2), &key(3), &key(4), &[], 300, 6);
    assert_eq!(result, Err(ProgramError::IncorrectProgramId));
}

#[test]
fn decode_amount_reads_bytes_one_to_eight() {
    let data = [12u8, 44, 1, 0, 0, 0, 0, 0, 0, 6];
    assert_eq!(decode_amount(&data), Ok(300));
    let nine = [0u8, 255, 255, 255, 255, 255, 255, 255, 255];
    assert_eq!(decode_amount(&nine), Ok(u64::MAX));
}

#[test]
fn decode_amount_refuses_short_payloads() {
    assert_eq!(decode_amount(&[]), Err(ProgramError::InvalidInstructionData));
    assert_eq!(
        decode_amount(&[12u8, 1, 2, 3, 4, 5, 6, 7]),
        Err(ProgramError::InvalidInstructionData)
    );
}

#[test]
fn built_amount_round_trips() {
    let program = Pubkey::new_from_array(TOKEN_PROGRAM_ID);
    for (amount, decimals) in [(0u64, 0u8), (1, 2), (300, 6), (u64::MAX, 255), (1 << 63, 18)] {
        let built =
            transfer_checked(&program, &key(1), &key(2), &key(3), &key(4), &[], amount, decimals)
                .unwrap();
        assert_eq!(decode_amount(&built.data), Ok(amount));
        assert_eq!(built.data[9], decimals);
    }
}

#[test]
fn instruction_clone_keeps_every_field() {
    let program = Pubkey::new_from_array(TOKEN_PROGRAM_ID);
    let built = transfer_checked(&program, &key(1), &key(2), &key(3), &key(4), &[], 77, 3).unwrap();
    assert_eq!(built.clone(), built);
}
