use vstd::prelude::*;

use crate::card::{
    auth_frame, auth_frame_spec, authentication_outcome, authentication_outcome_spec,
    is_correct_auth_data, read_frame, read_frame_spec, read_outcome, read_outcome_spec,
    BLOCK_TO_READ, CORRECT_AUTH_DATA, CORRECT_UID, KEY_A, POLLING_RETRY_TIME_MS,
};
use crate::error::{CardError, NfcError};

verus! {

/// Pause at the end of every reading cycle, in milliseconds.
pub const CYCLE_PAUSE_MS: u64 = POLLING_RETRY_TIME_MS * 3;

/// The colour the status window shows.
#[derive(Debug, Clone, Copy, PartialEq, Eq, Structural)]
pub enum StatusColor {
    /// Waiting for a card.
    Yellow,
    /// The card authenticated and holds the expected data.
    Green,
    /// The card was refused.
    Red,
}

/// A frame the reader sends to the card.
#[derive(Debug, Clone, Copy, PartialEq, Eq, Structural)]
pub enum Frame {
    /// Authenticate the given block with key A.
    Authenticate(u8),
    /// Read the given block.
    Read(u8),
}

impl Frame {
    /// The raw bytes of the frame.
    pub open spec fn bytes_spec(self) -> Seq<u8> {
        match self {
            Frame::Authenticate(block) => auth_frame_spec(block),
            Frame::Read(block) => read_frame_spec(block),
        }
    }

    /// Encodes the frame as the raw bytes sent to the card.
    pub fn to_bytes(&self) -> (bytes: Vec<u8>)
        ensures
            bytes@ == self.bytes_spec(),
            *self matches Frame::Authenticate(block) ==> bytes@ == seq![0x60u8, block] + KEY_A@
                + CORRECT_UID@,
            *self matches Frame::Read(block) ==> bytes@ == seq![0x30u8, block],
    {
        match self {
            Frame::Authenticate(block) => auth_frame(*block),
            Frame::Read(block) => {
                let raw = read_frame(*block);
                let mut bytes: Vec<u8> = Vec::with_capacity(2);
                bytes.push(raw[0]);
                bytes.push(raw[1]);
                assert(bytes@ =~= raw@);
                bytes
            },
        }
    }
}

/// Where the reader stands in its cycle.
#[derive(Debug, Clone, Copy, PartialEq, Eq, Structural)]
pub enum ReaderState {
    /// Between two cycles (and before the first).
    Idle,
    /// Waiting for the outcome of selecting a card.
    Polling,
    /// Waiting for the card's answer to the authentication frame.
    Authenticating,
    /// Waiting for the card's answer to the read frame.
    Reading,
}

/// What the outside world reports back to the reader.
#[derive(Debug)]
pub enum Event {
    /// The actions of the previous step are done; start the next cycle.
    Resume,
    /// The outcome of selecting a card.
    Polled(Result<(), CardError>),
    /// The driver's answer to the frame last transmitted.
    Answered(Result<Vec<u8>, NfcError>),
}

/// What the reader asks the outside world to do, in order.
#[derive(Debug)]
pub enum Action {
    /// Set the colour of the status window.
    ShowColor(StatusColor),
    /// Try to select a card; answer with `Event::Polled`.
    SelectTarget,
    /// Send a frame to the card; answer with `Event::Answered`.
    Transmit(Frame),
    /// Wait for the given number of milliseconds.
    Sleep(u64),
    /// Report the bytes read from the card.
    ReportBytes(Vec<u8>),
    /// Report a failure that changes no colour.
    ReportError(CardError),
}

impl ReaderState {
    /// The state the reader starts in.
    pub fn initial() -> (s: ReaderState)
        ensures
            s == ReaderState::Idle,
    {
        ReaderState::Idle
    }

    /// Whether `event` is an answer the reader can receive in this state.
    pub open spec fn accepts(self, event: Event) -> bool {
        match (self, event) {
            (ReaderState::Idle, Event::Resume) => true,
            (ReaderState::Polling, Event::Polled(_)) => true,
            (ReaderState::Authenticating, Event::Answered(_)) => true,
            (ReaderState::Reading, Event::Answered(_)) => true,
            _ => false,
        }
    }

    /// Exec version of `accepts`.
    pub fn can_accept(&self, event: &Event) -> (r: bool)
        ensures
            r == self.accepts(*event),
            r == (match (*self, *event) {
                (ReaderState::Idle, Event::Resume) => true,
                (ReaderState::Polling, Event::Polled(_)) => true,
                (ReaderState::Authenticating, Event::Answered(_)) => true,
                (ReaderState::Reading, Event::Answered(_)) => true,
                _ => false,
            }),
    {
        match (self, event) {
            (ReaderState::Idle, Event::Resume) => true,
            (ReaderState::Polling, Event::Polled(_)) => true,
            (ReaderState::Authenticating, Event::Answered(_)) => true,
            (ReaderState::Reading, Event::Answered(_)) => true,
            _ => false,
        }
    }
}

/// The colour a successful read shows: green for the expected data, red for anything else.
pub open spec fn color_for_data(bytes: Seq<u8>) -> StatusColor {
    if bytes == CORRECT_AUTH_DATA@ {
        StatusColor::Green
    } else {
        StatusColor::Red
    }
}

/// The actions that close a cycle, given what reading the block gave.
pub open spec fn finish_actions(result: Result<Vec<u8>, CardError>) -> Seq<Action> {
    match result {
        Ok(bytes) => seq![
            Action::ReportBytes(bytes),
            Action::ShowColor(color_for_data(bytes@)),
            Action::Sleep(CYCLE_PAUSE_MS),
        ],
        Err(CardError::NfcError(NfcError::MifareAuthFailed)) => seq![
            Action::ShowColor(StatusColor::Red),
            Action::Sleep(CYCLE_PAUSE_MS),
        ],
        Err(e) => seq![Action::ReportError(e), Action::Sleep(CYCLE_PAUSE_MS)],
    }
}

/// The reader's transition table: the next state and the actions it asks for.
pub open spec fn next(state: ReaderState, event: Event) -> (ReaderState, Seq<Action>) {
    match (state, event) {
        (ReaderState::Idle, Event::Resume) => (
            ReaderState::Polling,
            seq![Action::ShowColor(StatusColor::Yellow), Action::SelectTarget],
        ),
        (ReaderState::Polling, Event::Polled(Ok(()))) => (
            ReaderState::Authenticating,
            seq![Action::Transmit(Frame::Authenticate(BLOCK_TO_READ))],
        ),
        (ReaderState::Polling, Event::Polled(Err(_))) => (
            ReaderState::Polling,
            seq![Action::Sleep(POLLING_RETRY_TIME_MS), Action::SelectTarget],
        ),
        (ReaderState::Authenticating, Event::Answered(answer)) => match authentication_outcome_spec(
            answer,
        ) {
            Ok(()) => (ReaderState::Reading, seq![Action::Transmit(Frame::Read(BLOCK_TO_READ))]),
            Err(e) => (ReaderState::Idle, finish_actions(Err(e))),
        },
        (ReaderState::Reading, Event::Answered(answer)) => (
            ReaderState::Idle,
            finish_actions(read_outcome_spec(answer)),
        ),
        _ => (state, seq![]),
    }
}

/// The actions that close a cycle: report what was read and show green or red, show red
/// for a failed authentication, report any other failure; then pause.
pub fn finish(result: Result<Vec<u8>, CardError>) -> (actions: Vec<Action>)
    ensures
        actions@ == finish_actions(result),
        result matches Ok(bytes) ==> actions@ == seq![
            Action::ReportBytes(bytes),
            Action::ShowColor(
                if bytes@ == CORRECT_AUTH_DATA@ {
                    StatusColor::Green
                } else {
                    StatusColor::Red
                },
            ),
            Action::Sleep(CYCLE_PAUSE_MS),
        ],
        result == Err::<Vec<u8>, CardError>(CardError::NfcError(NfcError::MifareAuthFailed))
            ==> actions@ == seq![Action::ShowColor(StatusColor::Red), Action::Sleep(CYCLE_PAUSE_MS)],
        result matches Err(e) ==> (e != CardError::NfcError(NfcError::MifareAuthFailed)
            ==> actions@ == seq![Action::ReportError(e), Action::Sleep(CYCLE_PAUSE_MS)]),
{
    let mut actions: Vec<Action> = Vec::new();
    match result {
        Ok(bytes) => {
            let color = if is_correct_auth_data(bytes.as_slice()) {
                StatusColor::Green
            } else {
                StatusColor::Red
            };
            actions.push(Action::ReportBytes(bytes));
            actions.push(Action::ShowColor(color));
        },
        Err(CardError::NfcError(NfcError::MifareAuthFailed)) => {
            actions.push(Action::ShowColor(StatusColor::Red));
        },
        Err(e) => {
            actions.push(Action::ReportError(e));
        },
    }
    actions.push(Action::Sleep(CYCLE_PAUSE_MS));
    assert(actions@ =~= finish_actions(result));
    actions
}

/// One step of the reader: from the current state and the outside world's answer, the next
/// state and the actions to perform, in order. Only the last action can be a query
/// (`SelectTarget` or `Transmit`), whose outcome is the next event; after a cycle closes with
/// a pause, the next event is `Event::Resume`.
pub fn step(state: ReaderState, event: Event) -> (r: (ReaderState, Vec<Action>))
    requires
        state.accepts(event),
    ensures
        r.0 == next(state, event).0,
        r.1@ == next(state, event).1,
        state == ReaderState::Idle ==> r.0 == ReaderState::Polling && r.1@ == seq![
            Action::ShowColor(StatusColor::Yellow),
            Action::SelectTarget,
        ],
        (event matches Event::Polled(Ok(()))) ==> r.0 == ReaderState::Authenticating && r.1@
            == seq![Action::Transmit(Frame::Authenticate(BLOCK_TO_READ))],
        (event matches Event::Polled(Err(_))) ==> r.0 == ReaderState::Polling && r.1@ == seq![
            Action::Sleep(POLLING_RETRY_TIME_MS),
            Action::SelectTarget,
        ],
        (state == ReaderState::Authenticating && (event matches Event::Answered(Ok(bytes))
            && bytes@.len() == 0)) ==> r.0 == ReaderState::Reading && r.1@ == seq![
            Action::Transmit(Frame::Read(BLOCK_TO_READ)),
        ],
        (state == ReaderState::Authenticating && (event matches Event::Answered(Ok(bytes))
            && bytes@.len() > 0)) ==> r.0 == ReaderState::Idle && r.1@ == seq![
            Action::ReportError(CardError::UnsupportedCard),
            Action::Sleep(CYCLE_PAUSE_MS),
        ],
        ((state == ReaderState::Authenticating || state == ReaderState::Reading) && (
        event matches Event::Answered(Err(NfcError::MifareAuthFailed)))) ==> r.0
            == ReaderState::Idle && r.1@ == seq![
            Action::ShowColor(StatusColor::Red),
            Action::Sleep(CYCLE_PAUSE_MS),
        ],
        event matches Event::Answered(Err(e)) ==> ((state == ReaderState::Authenticating || state
            == ReaderState::Reading) && e != NfcError::MifareAuthFailed ==> r.0
            == ReaderState::Idle && r.1@ == seq![
            Action::ReportError(CardError::NfcError(e)),
            Action::Sleep(CYCLE_PAUSE_MS),
        ]),
        event matches Event::Answered(Ok(bytes)) ==> (state == ReaderState::Reading ==> r.0
            == ReaderState::Idle && r.1@ == seq![
            Action::ReportBytes(bytes),
            Action::ShowColor(
                if bytes@ == CORRECT_AUTH_DATA@ {
                    StatusColor::Green
                } else {
                    StatusColor::Red
                },
            ),
            Action::Sleep(CYCLE_PAUSE_MS),
        ]),
{
    let ghost ev = event;
    match state {
        ReaderState::Idle => {
            let mut actions: Vec<Action> = Vec::new();
            actions.push(Action::ShowColor(StatusColor::Yellow));
            actions.push(Action::SelectTarget);
            assert(actions@ =~= next(state, ev).1);
            (ReaderState::Polling, actions)
        },
        ReaderState::Polling => {
            let mut actions: Vec<Action> = Vec::new();
            match event {
                Event::Polled(Ok(())) => {
                    actions.push(Action::Transmit(Frame::Authenticate(BLOCK_TO_READ)));
                    assert(actions@ =~= next(state, ev).1);
                    (ReaderState::Authenticating, actions)
                },
                _ => {
                    actions.push(Action::Sleep(POLLING_RETRY_TIME_MS));
                    actions.push(Action::SelectTarget);
                    assert(actions@ =~= next(state, ev).1);
                    (ReaderState::Polling, actions)
                },
            }
        },
        ReaderState::Authenticating => {
            match event {
                Event::Answered(answer) => {
                    match authentication_outcome(&answer) {
                        Ok(()) => {
                            let mut actions: Vec<Action> = Vec::new();
                            actions.push(Action::Transmit(Frame::Read(BLOCK_TO_READ)));
                            assert(actions@ =~= next(state, ev).1);
                            (ReaderState::Reading, actions)
                        },
                        Err(e) => (ReaderState::Idle, finish(Err(e))),
                    }
                },
                _ => (state, Vec::new()),
            }
        },
        ReaderState::Reading => {
            match event {
                Event::Answered(answer) => (ReaderState::Idle, finish(read_outcome(answer))),
                _ => (state, Vec::new()),
            }
        },
    }
}

/// Whether an action asks the outside world for an answer.
pub open spec fn is_query(action: Action) -> bool {
    action matches Action::SelectTarget || action matches Action::Transmit(_)
}

/// Green is shown only when the card answered the read frame with exactly the expected data.
pub proof fn lemma_green_needs_expected_data(state: ReaderState, event: Event)
    requires
        state.accepts(event),
        next(state, event).1.contains(Action::ShowColor(StatusColor::Green)),
    ensures
        state == ReaderState::Reading,
        event matches Event::Answered(Ok(bytes)) && bytes@ == CORRECT_AUTH_DATA@,
{
    let acts = next(state, event).1;
    let i = choose|i: int| 0 <= i < acts.len() && acts[i] == Action::ShowColor(StatusColor::Green);
    assert(acts[i] == Action::ShowColor(StatusColor::Green));
}

/// Red is shown only when authentication failed, or when the card answered the read frame
/// with something other than the expected data.
pub proof fn lemma_red_means_refused(state: ReaderState, event: Event)
    requires
        state.accepts(event),
        next(state, event).1.contains(Action::ShowColor(StatusColor::Red)),
    ensures
        (state == ReaderState::Reading && (event matches Event::Answered(Ok(bytes)) && bytes@
            != CORRECT_AUTH_DATA@)) || ((state == ReaderState::Authenticating || state
            == ReaderState::Reading) && (event matches Event::Answered(
            Err(NfcError::MifareAuthFailed),
        ))),
{
    let acts = next(state, event).1;
    let i = choose|i: int| 0 <= i < acts.len() && acts[i] == Action::ShowColor(StatusColor::Red);
    assert(acts[i] == Action::ShowColor(StatusColor::Red));
}

/// Yellow is shown only as the first action of a cycle.
pub proof fn lemma_yellow_opens_cycle(state: ReaderState, event: Event)
    requires
        state.accepts(event),
        next(state, event).1.contains(Action::ShowColor(StatusColor::Yellow)),
    ensures
        state == ReaderState::Idle,
        event matches Event::Resume,
        next(state, event).1[0] == Action::ShowColor(StatusColor::Yellow),
{
    let acts = next(state, event).1;
    let i = choose|i: int| 0 <= i < acts.len() && acts[i] == Action::ShowColor(StatusColor::Yellow);
    assert(acts[i] == Action::ShowColor(StatusColor::Yellow));
}

/// The block is read only right after the card answered the authentication frame with no
/// bytes.
pub proof fn lemma_read_only_after_authentication(state: ReaderState, event: Event)
    requires
        state.accepts(event),
        next(state, event).0 == ReaderState::Reading,
    ensures
        state == ReaderState::Authenticating,
        event matches Event::Answered(Ok(bytes)) && bytes@.len() == 0,
{
}

/// The only frames ever sent are the authentication frame for the configured block, right
/// after a card was selected, and the read frame for that block, right after a successful
/// authentication.
pub proof fn lemma_frames_sent(state: ReaderState, event: Event, i: int)
    requires
        state.accepts(event),
        0 <= i < next(state, event).1.len(),
        next(state, event).1[i] matches Action::Transmit(_),
    ensures
        next(state, event).1[i] == Action::Transmit(Frame::Authenticate(BLOCK_TO_READ))
            ==> state == ReaderState::Polling && (event matches Event::Polled(Ok(()))),
        next(state, event).1[i] == Action::Transmit(Frame::Read(BLOCK_TO_READ)) ==> state
            == ReaderState::Authenticating && (event matches Event::Answered(Ok(bytes))
            && bytes@.len() == 0),
        next(state, event).1[i] == Action::Transmit(Frame::Authenticate(BLOCK_TO_READ))
            || next(state, event).1[i] == Action::Transmit(Frame::Read(BLOCK_TO_READ)),
{
}

/// Every step asks for its actions in an order the outside world can follow: a query, when
/// there is one, is the last action; a step that asks nothing closes the cycle with the
/// cycle pause and returns to `Idle`.
pub proof fn lemma_query_last_or_cycle_closed(state: ReaderState, event: Event)
    requires
        state.accepts(event),
    ensures
        ({
            let (s, acts) = next(state, event);
            &&& acts.len() > 0
            &&& forall|i: int| 0 <= i < acts.len() - 1 ==> !is_query(#[trigger] acts[i])
            &&& is_query(acts.last()) || (s == ReaderState::Idle && acts.last() == Action::Sleep(
                CYCLE_PAUSE_MS,
            ))
            &&& s == ReaderState::Idle <==> !is_query(acts.last())
        }),
{
}

/// The state and actions after a sequence of events, starting from `state`.
pub open spec fn run(state: ReaderState, events: Seq<Event>) -> (ReaderState, Seq<Action>)
    decreases events.len(),
{
    if events.len() == 0 {
        (state, seq![])
    } else {
        let prev = run(state, events.drop_last());
        let last = next(prev.0, events.last());
        (last.0, prev.1 + last.1)
    }
}

/// Whether every event of the sequence is one the reader can receive where it then stands.
pub open spec fn accepted_run(state: ReaderState, events: Seq<Event>) -> bool
    decreases events.len(),
{
    events.len() == 0 || (accepted_run(state, events.drop_last()) && run(
        state,
        events.drop_last(),
    ).0.accepts(events.last()))
}

/// Over any run of the reader from its initial state, green is shown only where the card
/// answered the authentication frame with no bytes and then, at the very next event,
/// answered the read frame with exactly the expected data.
pub proof fn lemma_green_only_after_authenticated_read(events: Seq<Event>)
    requires
        accepted_run(ReaderState::Idle, events),
        run(ReaderState::Idle, events).1.contains(Action::ShowColor(StatusColor::Green)),
    ensures
        exists|j: int|
            1 <= j < events.len() && (#[trigger] events[j - 1] matches Event::Answered(Ok(a))
                && a@.len() == 0) && (events[j] matches Event::Answered(Ok(b)) && b@
                == CORRECT_AUTH_DATA@),
    decreases events.len(),
{
    let n = events.len();
    if n == 0 {
        assert(run(ReaderState::Idle, events).1 =~= seq![]);
        assert(false);
    }
    let init = events.drop_last();
    let prev = run(ReaderState::Idle, init);
    let last = next(prev.0, events.last());
    let green = Action::ShowColor(StatusColor::Green);
    let all = prev.1 + last.1;
    let i = choose|i: int| 0 <= i < all.len() && all[i] == green;
    if i < prev.1.len() {
        assert(prev.1[i] == green);
        assert(prev.1.contains(green));
        lemma_green_only_after_authenticated_read(init);
        let j = choose|j: int|
            1 <= j < init.len() && (#[trigger] init[j - 1] matches Event::Answered(Ok(a))
                && a@.len() == 0) && (init[j] matches Event::Answered(Ok(b)) && b@
                == CORRECT_AUTH_DATA@);
        assert(init[j - 1] == events[j - 1]);
        assert(init[j] == events[j]);
    } else {
        assert(last.1[i - prev.1.len()] == green);
        assert(last.1.contains(green));
        lemma_green_needs_expected_data(prev.0, events.last());
        if init.len() == 0 {
            assert(prev.0 == ReaderState::Idle);
            assert(false);
        }
        let init2 = init.drop_last();
        let before = run(ReaderState::Idle, init2);
        assert(accepted_run(ReaderState::Idle, init));
        assert(before.0.accepts(init.last()));
        assert(prev.0 == next(before.0, init.last()).0);
        lemma_read_only_after_authentication(before.0, init.last());
        assert(init.last() == events[n - 2]);
        assert(events.last() == events[n - 1]);
        assert(events[(n - 1) - 1] matches Event::Answered(Ok(a)) && a@.len() == 0);
    }
}

/// A card that is present and accepts key A (answering the authentication frame with no
/// bytes) has its block read within one cycle: yellow is shown first, then the bytes read are
/// reported and the window turns green exactly when they are the expected data, red
/// otherwise; the cycle closes with the pause.
pub proof fn lemma_authenticated_card_cycle(auth_answer: Vec<u8>, block_data: Vec<u8>)
    requires
        auth_answer@.len() == 0,
    ensures
        ({
            let events = seq![
                Event::Resume,
                Event::Polled(Ok(())),
                Event::Answered(Ok(auth_answer)),
                Event::Answered(Ok(block_data)),
            ];
            let (s, acts) = run(ReaderState::Idle, events);
            &&& accepted_run(ReaderState::Idle, events)
            &&& s == ReaderState::Idle
            &&& acts =~= seq![
                Action::ShowColor(StatusColor::Yellow),
                Action::SelectTarget,
                Action::Transmit(Frame::Authenticate(BLOCK_TO_READ)),
                Action::Transmit(Frame::Read(BLOCK_TO_READ)),
                Action::ReportBytes(block_data),
                Action::ShowColor(
                    if block_data@ == CORRECT_AUTH_DATA@ {
                        StatusColor::Green
                    } else {
                        StatusColor::Red
                    },
                ),
                Action::Sleep(CYCLE_PAUSE_MS),
            ]
        }),
{
    let events = seq![
        Event::Resume,
        Event::Polled(Ok(())),
        Event::Answered(Ok(auth_answer)),
        Event::Answered(Ok(block_data)),
    ];
    assert(events.drop_last() =~= seq![
        Event::Resume,
        Event::Polled(Ok(())),
        Event::Answered(Ok(auth_answer)),
    ]);
    assert(events.drop_last().drop_last() =~= seq![Event::Resume, Event::Polled(Ok(()))]);
    assert(events.drop_last().drop_last().drop_last() =~= seq![Event::Resume]);
    assert(events.drop_last().drop_last().drop_last().drop_last() =~= Seq::<Event>::empty());
    reveal_with_fuel(run, 5);
    reveal_with_fuel(accepted_run, 5);
}

/// When the driver fails on the authentication frame, the cycle ends without a read: a
/// refused key turns the window red, any other failure is reported and changes no colour;
/// the cycle closes with the pause.
pub proof fn lemma_failed_authentication_cycle(failure: NfcError)
    ensures
        ({
            let events = seq![
                Event::Resume,
                Event::Polled(Ok(())),
                Event::Answered(Err(failure)),
            ];
            let (s, acts) = run(ReaderState::Idle, events);
            &&& accepted_run(ReaderState::Idle, events)
            &&& s == ReaderState::Idle
            &&& acts =~= seq![
                Action::ShowColor(StatusColor::Yellow),
                Action::SelectTarget,
                Action::Transmit(Frame::Authenticate(BLOCK_TO_READ)),
                if failure == NfcError::MifareAuthFailed {
                    Action::ShowColor(StatusColor::Red)
                } else {
                    Action::ReportError(CardError::NfcError(failure))
                },
                Action::Sleep(CYCLE_PAUSE_MS),
            ]
        }),
{
    let events = seq![
        Event::Resume,
        Event::Polled(Ok(())),
        Event::Answered(Err(failure)),
    ];
    assert(events.drop_last() =~= seq![Event::Resume, Event::Polled(Ok(()))]);
    assert(events.drop_last().drop_last() =~= seq![Event::Resume]);
    assert(events.drop_last().drop_last().drop_last() =~= Seq::<Event>::empty());
    reveal_with_fuel(run, 4);
    reveal_with_fuel(accepted_run, 4);
}

} // verus!
