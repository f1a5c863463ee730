use vstd::prelude::*;

use crate::card::{
    auth_frame_spec, authentication_outcome_spec, read_frame_spec, read_outcome_spec,
    BLOCK_TO_READ, CORRECT_AUTH_DATA, CORRECT_UID, KEY_A,
};
use crate::error::{CardError, NfcError};
use crate::reader::{next, Action, Event, Frame, ReaderState, StatusColor, CYCLE_PAUSE_MS};
use crate::target::{poll_outcome_spec, SelectedTarget};

verus! {

/// A card with a non-empty UID in the field is found, and what is found is its UID: the
/// first `uid_len` bytes of the driver's UID buffer, no more and no fewer.
pub proof fn lemma_present_card_is_found(uid: [u8; 10], uid_len: usize)
    requires
        1 <= uid_len <= 10,
    ensures
        poll_outcome_spec(Ok(SelectedTarget::Iso14443a { uid, uid_len })) matches Ok(found)
            && found.len() == uid_len && forall|i: int|
            0 <= i < uid_len ==> #[trigger] found[i] == uid@[i],
{
}

/// Polling reports that no card is there exactly when the driver selected a card with an
/// empty UID; a failed selection and a card of another technology are other errors.
pub proof fn lemma_not_found_only_for_empty_uid(selection: Result<SelectedTarget, NfcError>)
    ensures
        (poll_outcome_spec(selection) == Err::<Seq<u8>, CardError>(CardError::NotFound)) <==> (
        selection matches Ok(SelectedTarget::Iso14443a { uid_len, .. }) && uid_len == 0),
        selection is Err ==> poll_outcome_spec(selection) == Err::<Seq<u8>, CardError>(
            CardError::UnknownError,
        ),
        selection == Ok::<SelectedTarget, NfcError>(SelectedTarget::Other) ==> poll_outcome_spec(
            selection,
        ) == Err::<Seq<u8>, CardError>(CardError::UnsupportedCard),
{
}

/// The card's answer to the authentication frame decides the card type: no bytes means a
/// MIFARE Classic card that accepted key A; any bytes at all mean a card of another kind,
/// whatever their number; a driver failure is passed on unchanged.
pub proof fn lemma_authentication_answer_classes(answer: Result<Vec<u8>, NfcError>)
    ensures
        (answer matches Ok(bytes) && bytes@.len() == 0) <==> authentication_outcome_spec(answer)
            is Ok,
        answer matches Ok(bytes) ==> (bytes@.len() > 0 <==> authentication_outcome_spec(answer)
            == Err::<(), CardError>(CardError::UnsupportedCard)),
        answer matches Err(e) ==> authentication_outcome_spec(answer) == Err::<(), CardError>(
            CardError::NfcError(e),
        ),
{
}

/// Reading gives back the card's bytes untouched, and passes every driver failure on
/// unchanged, so a refused key during the read is still a refused key.
pub proof fn lemma_read_answer_passed_on(answer: Result<Vec<u8>, NfcError>)
    ensures
        answer matches Ok(bytes) ==> read_outcome_spec(answer) == Ok::<Vec<u8>, CardError>(bytes),
        answer matches Err(e) ==> read_outcome_spec(answer) == Err::<Vec<u8>, CardError>(
            CardError::NfcError(e),
        ),
{
}

/// Each state accepts every possible outcome of the query that leads into it: `Polling`
/// every outcome of a selection, `Authenticating` and `Reading` every answer of the driver,
/// `Idle` the end of the pause.
pub proof fn lemma_states_accept_every_answer(
    polled: Result<(), CardError>,
    answer: Result<Vec<u8>, NfcError>,
)
    ensures
        ReaderState::Idle.accepts(Event::Resume),
        ReaderState::Polling.accepts(Event::Polled(polled)),
        ReaderState::Authenticating.accepts(Event::Answered(answer)),
        ReaderState::Reading.accepts(Event::Answered(answer)),
{
}

/// After every step the reader waits for exactly the answer to the last action it asked
/// for: a selection leaves it polling, the authentication frame authenticating, the read
/// frame reading, and a step that asks nothing leaves it idle. Whatever the outside world
/// then answers, the reader accepts it, so the cycle never gets stuck.
pub proof fn lemma_next_state_awaits_last_query(
    state: ReaderState,
    event: Event,
    polled: Result<(), CardError>,
    answer: Result<Vec<u8>, NfcError>,
)
    requires
        state.accepts(event),
    ensures
        ({
            let (s, acts) = next(state, event);
            &&& acts.len() > 0
            &&& acts.last() == Action::SelectTarget ==> s == ReaderState::Polling && s.accepts(
                Event::Polled(polled),
            )
            &&& acts.last() == Action::Transmit(Frame::Authenticate(BLOCK_TO_READ)) ==> s
                == ReaderState::Authenticating && s.accepts(Event::Answered(answer))
            &&& acts.last() == Action::Transmit(Frame::Read(BLOCK_TO_READ)) ==> s
                == ReaderState::Reading && s.accepts(Event::Answered(answer))
            &&& !(acts.last() matches Action::SelectTarget || acts.last() matches Action::Transmit(
                _,
            )) ==> s == ReaderState::Idle && s.accepts(Event::Resume)
        }),
{
}

/// A card that answers the authentication frame with bytes is not a MIFARE Classic card:
/// the failure is reported, no colour changes, and the cycle closes with the pause.
pub proof fn lemma_unsupported_card_closes_cycle(bytes: Vec<u8>)
    requires
        bytes@.len() > 0,
    ensures
        next(ReaderState::Authenticating, Event::Answered(Ok(bytes))).0 == ReaderState::Idle,
        next(ReaderState::Authenticating, Event::Answered(Ok(bytes))).1 =~= seq![
            Action::ReportError(CardError::UnsupportedCard),
            Action::Sleep(CYCLE_PAUSE_MS),
        ],
{
}

/// Every refusal turns the window red: a key refused while authenticating or while
/// reading, and a block that does not hold the expected data.
pub proof fn lemma_refusal_turns_red(state: ReaderState, bytes: Vec<u8>)
    requires
        state == ReaderState::Authenticating || state == ReaderState::Reading,
    ensures
        next(state, Event::Answered(Err(NfcError::MifareAuthFailed))).1.contains(
            Action::ShowColor(StatusColor::Red),
        ),
        next(state, Event::Answered(Err(NfcError::MifareAuthFailed))).0 == ReaderState::Idle,
        bytes@ != CORRECT_AUTH_DATA@ ==> next(
            ReaderState::Reading,
            Event::Answered(Ok(bytes)),
        ).1.contains(Action::ShowColor(StatusColor::Red)),
        bytes@ == CORRECT_AUTH_DATA@ ==> next(
            ReaderState::Reading,
            Event::Answered(Ok(bytes)),
        ).1.contains(Action::ShowColor(StatusColor::Green)),
{
    let refused = next(state, Event::Answered(Err(NfcError::MifareAuthFailed))).1;
    assert(refused[0] == Action::ShowColor(StatusColor::Red));
    let read = next(ReaderState::Reading, Event::Answered(Ok(bytes))).1;
    assert(read[1] == Action::ShowColor(
        if bytes@ == CORRECT_AUTH_DATA@ {
            StatusColor::Green
        } else {
            StatusColor::Red
        },
    ));
}

/// The authentication frame is twelve bytes: the key-A authentication command, the block,
/// the six bytes of key A and the four bytes of the expected UID; the read frame is the read
/// command followed by the block.
pub proof fn lemma_frame_layout(block: u8)
    ensures
        auth_frame_spec(block).len() == 12,
        auth_frame_spec(block)[0] == 0x60u8,
        auth_frame_spec(block)[1] == block,
        auth_frame_spec(block).subrange(2, 8) == KEY_A@,
        auth_frame_spec(block).subrange(8, 12) == CORRECT_UID@,
        read_frame_spec(block) == seq![0x30u8, block],
{
    assert(auth_frame_spec(block).subrange(2, 8) =~= KEY_A@);
    assert(auth_frame_spec(block).subrange(8, 12) =~= CORRECT_UID@);
}

} // verus!
