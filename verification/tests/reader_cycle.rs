use mfc_reader_sim::card::{BLOCK_TO_READ, CORRECT_AUTH_DATA};
use mfc_reader_sim::error::{CardError, NfcError};
use mfc_reader_sim::reader::{
    finish, step, Action, Event, Frame, ReaderState, StatusColor, CYCLE_PAUSE_MS,
};
use mfc_reader_sim::window::{respond_to_window_event, WindowInput, WindowResponse};

fn colors(actions: &[Action]) -> Vec<StatusColor> {
    actions
        .iter()
        .filter_map(|a| match a {
            Action::ShowColor(c) => Some(*c),
            _ => None,
        })
        .collect()
}

#[test]
fn cycle_starts_yellow_and_selects_a_card() {
    let (s, acts) = step(ReaderState::initial(), Event::Resume);
    assert_eq!(s, ReaderState::Polling);
    assert_eq!(acts.len(), 2);
    assert!(matches!(acts[0], Action::ShowColor(StatusColor::Yellow)));
    assert!(matches!(acts[1], Action::SelectTarget));
}

#[test]
fn no_card_waits_and_polls_again() {
    let (s, acts) = step(ReaderState::Polling, Event::Polled(Err(CardError::NotFound)));
    assert_eq!(s, ReaderState::Polling);
    assert_eq!(acts.len(), 2);
    assert!(matches!(acts[0], Action::Sleep(1000)));
    assert!(matches!(acts[1], Action::SelectTarget));
}

#[test]
fn found_card_is_authenticated_on_block_four() {
    let (s, acts) = step(ReaderState::Polling, Event::Polled(Ok(())));
    assert_eq!(s, ReaderState::Authenticating);
    assert_eq!(acts.len(), 1);
    assert!(matches!(acts[0], Action::Transmit(Frame::Authenticate(4))));
}

#[test]
fn full_cycle_with_correct_card_turns_green() {
    let (s, _) = step(ReaderState::initial(), Event::Resume);
    let (s, _) = step(s, Event::Polled(Ok(())));
    let (s, acts) = step(s, Event::Answered(Ok(vec![])));
    assert_eq!(s, ReaderState::Reading);
    assert_eq!(acts.len(), 1);
    assert!(matches!(acts[0], Action::Transmit(Frame::Read(BLOCK_TO_READ))));
    let (s, acts) = step(s, Event::Answered(Ok(CORRECT_AUTH_DATA.to_vec())));
    assert_eq!(s, ReaderState::Idle);
    assert_eq!(acts.len(), 3);
    assert!(matches!(&acts[0], Action::ReportBytes(b) if b[..] == CORRECT_AUTH_DATA[..]));
    assert!(matches!(acts[1], Action::ShowColor(StatusColor::Green)));
    assert!(matches!(acts[2], Action::Sleep(3000)));
}

#[test]
fn wrong_data_turns_red() {
    let (s, acts) = step(ReaderState::Reading, Event::Answered(Ok(vec![0; 16])));
    assert_eq!(s, ReaderState::Idle);
    assert_eq!(colors(&acts), vec![StatusColor::Red]);
    assert!(matches!(acts[2], Action::Sleep(3000)));
}

#[test]
fn failed_authentication_turns_red() {
    let (s, acts) =
        step(ReaderState::Authenticating, Event::Answered(Err(NfcError::MifareAuthFailed)));
    assert_eq!(s, ReaderState::Idle);
    assert_eq!(acts.len(), 2);
    assert!(matches!(acts[0], Action::ShowColor(StatusColor::Red)));
    assert!(matches!(acts[1], Action::Sleep(3000)));
}

#[test]
fn other_card_type_is_reported_without_colour() {
    let (s, acts) = step(ReaderState::Authenticating, Event::Answered(Ok(vec![0x04])));
    assert_eq!(s, ReaderState::Idle);
    assert_eq!(acts.len(), 2);
    assert!(matches!(acts[0], Action::ReportError(CardError::UnsupportedCard)));
    assert!(matches!(acts[1], Action::Sleep(3000)));
    assert!(colors(&acts).is_empty());
}

#[test]
fn read_failure_is_reported_without_colour() {
    let (s, acts) = step(ReaderState::Reading, Event::Answered(Err(NfcError::RfTransmissionError)));
    assert_eq!(s, ReaderState::Idle);
    assert!(matches!(
        acts[0],
        Action::ReportError(CardError::NfcError(NfcError::RfTransmissionError))
    ));
    assert!(colors(&acts).is_empty());
}

#[test]
fn auth_failure_while_reading_also_turns_red() {
    let acts = finish(Err(CardError::NfcError(NfcError::MifareAuthFailed)));
    assert_eq!(colors(&acts), vec![StatusColor::Red]);
}

#[test]
fn green_needs_empty_auth_answer_then_expected_data() {
    // A card that answers the authentication with bytes never reaches the read.
    let (s, _) = step(ReaderState::Authenticating, Event::Answered(Ok(vec![1])));
    assert_eq!(s, ReaderState::Idle);
    let (s, acts) = step(s, Event::Resume);
    assert!(!colors(&acts).contains(&StatusColor::Green));
    assert_eq!(s, ReaderState::Polling);
}

#[test]
fn state_accepts_only_matching_events() {
    assert!(ReaderState::Idle.can_accept(&Event::Resume));
    assert!(!ReaderState::Idle.can_accept(&Event::Polled(Ok(()))));
    assert!(ReaderState::Polling.can_accept(&Event::Polled(Err(CardError::UnknownError))));
    assert!(!ReaderState::Polling.can_accept(&Event::Answered(Ok(vec![]))));
    assert!(ReaderState::Authenticating.can_accept(&Event::Answered(Ok(vec![]))));
    assert!(ReaderState::Reading.can_accept(&Event::Answered(Ok(vec![]))));
    assert!(!ReaderState::Reading.can_accept(&Event::Resume));
}

#[test]
fn frames_encode_to_bytes() {
    assert_eq!(Frame::Read(4).to_bytes(), vec![0x30, 4]);
    assert_eq!(Frame::Authenticate(4).to_bytes().len(), 12);
    assert_eq!(Frame::Authenticate(7).to_bytes()[1], 7);
}

#[test]
fn cycle_pause_is_three_retries() {
    assert_eq!(CYCLE_PAUSE_MS, 3000);
}

#[test]
fn window_closes_on_request_and_escape() {
    assert_eq!(respond_to_window_event(WindowInput::CloseRequested), WindowResponse::Close);
    assert_eq!(respond_to_window_event(WindowInput::EscapeKey), WindowResponse::Close);
}

#[test]
fn window_redraws_resizes_and_ignores() {
    assert_eq!(respond_to_window_event(WindowInput::RedrawRequested), WindowResponse::Redraw);
    assert_eq!(
        respond_to_window_event(WindowInput::Resized { width: 640, height: 480 }),
        WindowResponse::Resize { width: 640, height: 480 }
    );
    assert_eq!(respond_to_window_event(WindowInput::Other), WindowResponse::Ignore);
}

#[test]
fn other_driver_failure_during_authentication_is_reported() {
    let (s, acts) = step(ReaderState::Authenticating, Event::Answered(Err(NfcError::Timeout)));
    assert_eq!(s, ReaderState::Idle);
    assert_eq!(acts.len(), 2);
    assert!(matches!(acts[0], Action::ReportError(CardError::NfcError(NfcError::Timeout))));
    assert!(matches!(acts[1], Action::Sleep(3000)));
}

#[test]
fn every_query_is_the_last_action() {
    let cases: Vec<(ReaderState, Event)> = vec![
        (ReaderState::Idle, Event::Resume),
        (ReaderState::Polling, Event::Polled(Ok(()))),
        (ReaderState::Polling, Event::Polled(Err(CardError::NotFound))),
        (ReaderState::Authenticating, Event::Answered(Ok(vec![]))),
        (ReaderState::Authenticating, Event::Answered(Ok(vec![1]))),
        (ReaderState::Reading, Event::Answered(Ok(vec![1, 2]))),
    ];
    for (state, event) in cases {
        let (next, acts) = step(state, event);
        let last = acts.len() - 1;
        for a in &acts[..last] {
            assert!(!matches!(a, Action::SelectTarget | Action::Transmit(_)));
        }
        let last_is_query = matches!(acts[last], Action::SelectTarget | Action::Transmit(_));
        assert_eq!(next == ReaderState::Idle, !last_is_query);
    }
}
