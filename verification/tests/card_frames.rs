use mfc_reader_sim::card::{
    auth_frame, authentication_outcome, is_correct_auth_data, read_frame, read_outcome,
    BLOCK_TO_READ, CORRECT_AUTH_DATA, CORRECT_UID, KEY_A, POLLING_RETRY_TIME_MS,
};
use mfc_reader_sim::error::{CardError, NfcError};
use mfc_reader_sim::target::{poll_outcome, SelectedTarget};

#[test]
fn auth_frame_for_block_four_is_command_block_key_uid() {
    let frame = auth_frame(4);
    assert_eq!(
        frame,
        vec![0x60, 0x04, 0x43, 0x75, 0x5A, 0x74, 0x30, 0x4D, 0x6A, 0x69, 0x33, 0x69]
    );
    assert_eq!(frame.len(), 12);
}

#[test]
fn auth_frame_carries_the_block_number() {
    let frame = auth_frame(63);
    assert_eq!(frame[0], 0x60);
    assert_eq!(frame[1], 63);
    assert_eq!(&frame[2..8], &KEY_A[..]);
    assert_eq!(&frame[8..12], &CORRECT_UID[..]);
}

#[test]
fn read_frame_is_command_then_block() {
    assert_eq!(read_frame(4), [0x30, 0x04]);
    assert_eq!(read_frame(0xFF), [0x30, 0xFF]);
}

#[test]
fn configuration_values() {
    assert_eq!(BLOCK_TO_READ, 4);
    assert_eq!(POLLING_RETRY_TIME_MS, 1000);
    assert_eq!(&CORRECT_AUTH_DATA[..15], b"DataUsedForAuth");
    assert_eq!(CORRECT_AUTH_DATA[15], 0);
}

#[test]
fn expected_data_is_recognised() {
    assert!(is_correct_auth_data(&CORRECT_AUTH_DATA));
    let mut other = CORRECT_AUTH_DATA;
    other[15] = 1;
    assert!(!is_correct_auth_data(&other));
    assert!(!is_correct_auth_data(&CORRECT_AUTH_DATA[..15]));
    let mut longer = CORRECT_AUTH_DATA.to_vec();
    longer.push(0);
    assert!(!is_correct_auth_data(&longer));
    assert!(!is_correct_auth_data(&[]));
}

#[test]
fn empty_answer_to_authentication_means_mifare_classic() {
    assert_eq!(authentication_outcome(&Ok(vec![])), Ok(()));
}

#[test]
fn answer_with_bytes_to_authentication_means_unsupported_card() {
    assert_eq!(authentication_outcome(&Ok(vec![0x0A])), Err(CardError::UnsupportedCard));
}

#[test]
fn failed_authentication_is_a_driver_error() {
    assert_eq!(
        authentication_outcome(&Err(NfcError::MifareAuthFailed)),
        Err(CardError::NfcError(NfcError::MifareAuthFailed))
    );
    assert_eq!(
        authentication_outcome(&Err(NfcError::Undefined(-99))),
        Err(CardError::NfcError(NfcError::Undefined(-99)))
    );
}

#[test]
fn read_answer_is_passed_on_or_wrapped() {
    assert_eq!(read_outcome(Ok(vec![1, 2, 3])), Ok(vec![1, 2, 3]));
    assert_eq!(
        read_outcome(Err(NfcError::Timeout)),
        Err(CardError::NfcError(NfcError::Timeout))
    );
}

#[test]
fn driver_error_converts_into_card_error() {
    assert_eq!(CardError::from(NfcError::Io), CardError::NfcError(NfcError::Io));
}

#[test]
fn polling_finds_the_uid_of_a_type_a_card() {
    let uid = [0x6A, 0x69, 0x33, 0x69, 9, 9, 9, 9, 9, 9];
    let sel = Ok(SelectedTarget::Iso14443a { uid, uid_len: 4 });
    assert_eq!(poll_outcome(&sel), Ok(vec![0x6A, 0x69, 0x33, 0x69]));
    let sel = Ok(SelectedTarget::Iso14443a { uid, uid_len: 10 });
    assert_eq!(poll_outcome(&sel), Ok(uid.to_vec()));
}

#[test]
fn polling_with_empty_uid_finds_no_card() {
    let sel = Ok(SelectedTarget::Iso14443a { uid: [0; 10], uid_len: 0 });
    assert_eq!(poll_outcome(&sel), Err(CardError::NotFound));
}

#[test]
fn polling_another_technology_is_unsupported() {
    assert_eq!(poll_outcome(&Ok(SelectedTarget::Other)), Err(CardError::UnsupportedCard));
}

#[test]
fn failed_selection_is_unknown_error() {
    assert_eq!(poll_outcome(&Err(NfcError::Timeout)), Err(CardError::UnknownError));
}
