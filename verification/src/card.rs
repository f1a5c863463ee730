use vstd::prelude::*;

use crate::error::{CardError, NfcError};

verus! {

/// UID the reader expects the card to present; it is sent in the authentication frame.
pub const CORRECT_UID: [u8; 4] = [0x6A, 0x69, 0x33, 0x69];

/// Key A of the sector that holds the authentication block.
pub const KEY_A: [u8; 6] = [0x43, 0x75, 0x5A, 0x74, 0x30, 0x4D];

/// Contents the authentication block must hold for the card to be accepted.
pub const CORRECT_AUTH_DATA: [u8; 16] = [
    0x44, 0x61, 0x74, 0x61, 0x55, 0x73, 0x65, 0x64, 0x46, 0x6F, 0x72, 0x41, 0x75, 0x74, 0x68, 0x00,
];

/// The block that holds the authentication data.
pub const BLOCK_TO_READ: u8 = 4;

/// Pause between two attempts to select a card, in milliseconds.
pub const POLLING_RETRY_TIME_MS: u64 = 1000;

/// MIFARE Classic command: authenticate a block with key A.
pub const CMD_AUTH_KEY_A: u8 = 0x60;

/// MIFARE Classic command: read a block of 16 bytes.
pub const CMD_READ: u8 = 0x30;

/// Largest answer the reader accepts from the card, in bytes.
pub const MAX_RESPONSE_LEN: usize = 254;

/// The raw authentication frame for `block`: the command, the block, key A, then the UID.
pub open spec fn auth_frame_spec(block: u8) -> Seq<u8> {
    seq![CMD_AUTH_KEY_A, block] + KEY_A@ + CORRECT_UID@
}

/// The raw read frame for `block`: the command, then the block.
pub open spec fn read_frame_spec(block: u8) -> Seq<u8> {
    seq![CMD_READ, block]
}

/// Builds the raw frame that authenticates `block` with key A for the expected UID.
pub fn auth_frame(block: u8) -> (frame: Vec<u8>)
    ensures
        frame@ == auth_frame_spec(block),
        frame@.len() == 12,
        frame@[0] == 0x60u8,
        frame@[1] == block,
        frame@.subrange(2, 8) == KEY_A@,
        frame@.subrange(8, 12) == CORRECT_UID@,
{
    let mut frame: Vec<u8> = Vec::with_capacity(12);
    frame.push(CMD_AUTH_KEY_A);
    frame.push(block);
    let mut i: usize = 0;
    while i < 6
        invariant
            0 <= i <= 6,
            frame@ == seq![CMD_AUTH_KEY_A, block] + KEY_A@.take(i as int),
        decreases 6 - i,
    {
        frame.push(KEY_A[i]);
        i = i + 1;
        assert(KEY_A@.take(i as int) == KEY_A@.take(i - 1) + seq![KEY_A@[i - 1]]);
    }
    assert(KEY_A@.take(6) == KEY_A@);
    let mut j: usize = 0;
    while j < 4
        invariant
            0 <= j <= 4,
            frame@ == seq![CMD_AUTH_KEY_A, block] + KEY_A@ + CORRECT_UID@.take(j as int),
        decreases 4 - j,
    {
        frame.push(CORRECT_UID[j]);
        j = j + 1;
        assert(CORRECT_UID@.take(j as int) == CORRECT_UID@.take(j - 1) + seq![CORRECT_UID@[j - 1]]);
    }
    assert(CORRECT_UID@.take(4) == CORRECT_UID@);
    frame
}

/// Builds the raw frame that reads `block`.
pub fn read_frame(block: u8) -> (frame: [u8; 2])
    ensures
        frame@ == read_frame_spec(block),
        frame@ == seq![0x30u8, block],
{
    let frame = [CMD_READ, block];
    assert(frame@ == seq![CMD_READ, block]);
    frame
}

/// Whether `bytes` are exactly the expected authentication data.
pub fn is_correct_auth_data(bytes: &[u8]) -> (r: bool)
    ensures
        r == (bytes@ == CORRECT_AUTH_DATA@),
{
    if bytes.len() != 16 {
        return false;
    }
    let mut i: usize = 0;
    while i < 16
        invariant
            bytes@.len() == 16,
            0 <= i <= 16,
            forall|k: int| 0 <= k < i ==> bytes@[k] == CORRECT_AUTH_DATA@[k],
        decreases 16 - i,
    {
        if bytes[i] != CORRECT_AUTH_DATA[i] {
            return false;
        }
        i = i + 1;
    }
    assert(bytes@ =~= CORRECT_AUTH_DATA@);
    true
}

/// What authenticating leads to, given the driver's answer to the authentication frame.
pub open spec fn authentication_outcome_spec(answer: Result<Vec<u8>, NfcError>) -> Result<(), CardError> {
    match answer {
        Ok(bytes) => if bytes@.len() == 0 { Ok(()) } else { Err(CardError::UnsupportedCard) },
        Err(e) => Err(CardError::NfcError(e)),
    }
}

/// Judges the answer to the authentication frame. A MIFARE Classic card answers a successful
/// authentication with no bytes at all; any answer with bytes comes from another kind of card.
pub fn authentication_outcome(answer: &Result<Vec<u8>, NfcError>) -> (r: Result<(), CardError>)
    ensures
        r == authentication_outcome_spec(*answer),
        (answer matches Ok(bytes) && bytes@.len() == 0) ==> r == Ok::<(), CardError>(()),
        (answer matches Ok(bytes) && bytes@.len() > 0) ==> r == Err::<(), CardError>(
            CardError::UnsupportedCard,
        ),
        forall|e: NfcError| *answer == Err::<Vec<u8>, NfcError>(e) ==> r == Err::<(), CardError>(
            CardError::NfcError(e),
        ),
{
    match answer {
        Ok(bytes) => if bytes.len() == 0 {
            Ok(())
        } else {
            Err(CardError::UnsupportedCard)
        },
        Err(e) => Err(CardError::from(*e)),
    }
}

/// What reading leads to, given the driver's answer to the read frame.
pub open spec fn read_outcome_spec(answer: Result<Vec<u8>, NfcError>) -> Result<Vec<u8>, CardError> {
    match answer {
        Ok(bytes) => Ok(bytes),
        Err(e) => Err(CardError::NfcError(e)),
    }
}

/// Turns the driver's answer to the read frame into the block's bytes or a card error.
pub fn read_outcome(answer: Result<Vec<u8>, NfcError>) -> (r: Result<Vec<u8>, CardError>)
    ensures
        r == read_outcome_spec(answer),
        forall|bytes: Vec<u8>| answer == Ok::<Vec<u8>, NfcError>(bytes) ==> r == Ok::<
            Vec<u8>,
            CardError,
        >(bytes),
        forall|e: NfcError| answer == Err::<Vec<u8>, NfcError>(e) ==> r == Err::<
            Vec<u8>,
            CardError,
        >(CardError::NfcError(e)),
{
    match answer {
        Ok(bytes) => Ok(bytes),
        Err(e) => Err(CardError::from(e)),
    }
}

} // verus!
