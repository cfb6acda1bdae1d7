//! The conversation of one chat: what it is doing, and what each inbound
//! event makes of it.
//!
//! [`State::handle`] decides; it sends nothing. The caller performs the
//! outbound operations it returns, in order, and stores the state it
//! returns.

use crate::callback::{
    Action,
    ActionView,
    CallbackError,
    decode_spec,
    encode_spec,
    lemma_decode_encode,
};
use crate::catalog::{
    Catalog,
    find_exercise,
    find_training,
    identifiers,
    names,
    well_formed,
};
use crate::keyboard::{
    ButtonView,
    Keyboard,
    make_training_keyboard,
    make_workout_keyboard,
    training_keyboard,
    training_row,
    workout_keyboard,
};
use crate::search::{lemma_first_occurrence, lemma_no_occurrence};
use crate::training::{Exercise, ExerciseView, Training, TrainingView, serie_text};
use vstd::prelude::*;
use vstd::string::StringExecFns;

verus! {

/// A text command that the bot knows.
#[derive(Clone, Copy, Debug, PartialEq, Eq)]
pub enum Command {
    /// Display the help text.
    Help,
    /// Start: offer the trainings.
    Start,
}

/// What a chat is doing.
#[derive(Clone, Debug, PartialEq, Eq)]
pub enum State {
    /// Nothing yet: the state of a chat on first contact.
    Start,
    /// Browsing the trainings that the catalog held when the chat started.
    SelectTraining { training: Catalog },
}

/// What a [`State`] holds, as mathematical values.
pub enum StateView {
    Start,
    SelectTraining { training: Seq<TrainingView> },
}

impl View for State {
    type V = StateView;

    open spec fn view(&self) -> StateView {
        match self {
            State::Start => StateView::Start,
            State::SelectTraining { training } => StateView::SelectTraining { training: training@ },
        }
    }
}

impl Default for State {
    fn default() -> (state: State)
        ensures
            state@ == StateView::Start,
    {
        State::Start
    }
}

/// What came in from a chat.
#[derive(Clone, Debug, PartialEq, Eq)]
pub enum Event {
    /// A text message: the command it holds, or none where it holds no
    /// command that the bot knows.
    Text { chat_id: i64, command: Option<Command> },
    /// A pressed button.
    Callback { chat_id: i64, callback_id: String, payload: String },
}

/// What an [`Event`] holds, as mathematical values.
pub enum EventView {
    Text { chat_id: i64, command: Option<Command> },
    Callback { chat_id: i64, callback_id: Seq<char>, payload: Seq<char> },
}

impl View for Event {
    type V = EventView;

    open spec fn view(&self) -> EventView {
        match self {
            Event::Text { chat_id, command } => EventView::Text {
                chat_id: *chat_id,
                command: *command,
            },
            Event::Callback { chat_id, callback_id, payload } => EventView::Callback {
                chat_id: *chat_id,
                callback_id: callback_id@,
                payload: payload@,
            },
        }
    }
}

/// A message for the chat, with or without a keyboard.
#[derive(Clone, Debug, PartialEq, Eq)]
pub struct Reply {
    pub text: String,
    pub keyboard: Option<Keyboard>,
}

/// What a [`Reply`] holds, as mathematical values.
pub struct ReplyView {
    pub text: Seq<char>,
    pub keyboard: Option<Seq<Seq<ButtonView>>>,
}

/// The view of a keyboard that may be absent.
pub open spec fn keyboard_view(keyboard: Option<Keyboard>) -> Option<Seq<Seq<ButtonView>>> {
    match keyboard {
        Some(keyboard) => Some(keyboard@),
        None => None,
    }
}

impl View for Reply {
    type V = ReplyView;

    open spec fn view(&self) -> ReplyView {
        ReplyView { text: self.text@, keyboard: keyboard_view(self.keyboard) }
    }
}

/// An operation owed to the messaging boundary.
#[derive(Clone, Debug, PartialEq, Eq)]
pub enum Outbound {
    /// Send `text` to the chat, with the keyboard if there is one.
    SendMessage { chat_id: i64, text: String, keyboard: Option<Keyboard> },
    /// Tell the boundary that the callback was dealt with, so that the
    /// button stops waiting.
    AcknowledgeCallback { callback_id: String },
}

/// What an [`Outbound`] holds, as mathematical values.
pub enum OutboundView {
    SendMessage { chat_id: i64, text: Seq<char>, keyboard: Option<Seq<Seq<ButtonView>>> },
    AcknowledgeCallback { callback_id: Seq<char> },
}

impl View for Outbound {
    type V = OutboundView;

    open spec fn view(&self) -> OutboundView {
        match self {
            Outbound::SendMessage { chat_id, text, keyboard } => OutboundView::SendMessage {
                chat_id: *chat_id,
                text: text@,
                keyboard: keyboard_view(*keyboard),
            },
            Outbound::AcknowledgeCallback { callback_id } => OutboundView::AcknowledgeCallback {
                callback_id: callback_id@,
            },
        }
    }
}

/// The views of a list of operations, in order.
pub open spec fn outbound_view(outbound: Seq<Outbound>) -> Seq<OutboundView> {
    Seq::new(outbound.len(), |i: int| outbound[i]@)
}

/// The state to store and the operations to perform, in order.
#[derive(Clone, Debug, PartialEq, Eq)]
pub struct Reaction {
    pub state: State,
    pub outbound: Vec<Outbound>,
}

/// The view of what a callback was answered with.
pub open spec fn answered_view(answered: Result<Option<Reply>, CallbackError>) -> Result<
    Option<ReplyView>,
    CallbackError,
> {
    match answered {
        Ok(Some(reply)) => Ok(Some(reply@)),
        Ok(None) => Ok(None),
        Err(error) => Err(error),
    }
}

/// A reply that is text alone.
pub open spec fn notice(text: Seq<char>) -> ReplyView {
    ReplyView { text, keyboard: None }
}

/// The help text: a heading, and a line for each command.
pub open spec fn help_text() -> Seq<char> {
    "These commands are supported:\n\n/help \u{2014} display this text.\n/start \u{2014} start."@
}

/// The reply to a start command: the trainings of the catalog to choose
/// from.
pub open spec fn start_reply(catalog: Seq<TrainingView>) -> ReplyView {
    ReplyView { text: "Choose your training:"@, keyboard: Some(workout_keyboard(catalog)) }
}

/// The reply to a text message, by the command it holds.
pub open spec fn message_reply(command: Option<Command>, catalog: Seq<TrainingView>) -> ReplyView {
    match command {
        Some(Command::Help) => notice(help_text()),
        Some(Command::Start) => start_reply(catalog),
        None => notice("Command not found!"@),
    }
}

/// The reply to a selected training: its exercises to choose from.
pub open spec fn training_reply(training: TrainingView) -> ReplyView {
    ReplyView {
        text: "Exercises for training "@ + training.identifier,
        keyboard: Some(training_keyboard(training)),
    }
}

/// The reply to a selected exercise: its name and how it is performed.
pub open spec fn exercise_reply(exercise: ExerciseView) -> ReplyView {
    notice(exercise.name + " - "@ + serie_text(exercise.serie))
}

/// What an action is answered with. A training is selected from the
/// snapshot that the chat holds, an exercise from the catalog as it is now.
/// The two actions that nothing answers yet get no reply.
pub open spec fn answer_spec(
    action: ActionView,
    snapshot: Seq<TrainingView>,
    catalog: Seq<TrainingView>,
) -> Result<Option<ReplyView>, CallbackError> {
    match action {
        ActionView::SelectTraining { training } => match find_training(snapshot, training) {
            Some(found) => Ok(Some(training_reply(found))),
            None => Err(CallbackError::UnknownTraining),
        },
        ActionView::SelectExercise { training, exercise } => match find_training(
            catalog,
            training,
        ) {
            Some(found) => match find_exercise(found.exercises, exercise) {
                Some(exercise) => Ok(Some(exercise_reply(exercise))),
                None => Err(CallbackError::UnknownExercise),
            },
            None => Err(CallbackError::UnknownTraining),
        },
        ActionView::ChangeLoad { training, exercise } => Ok(None),
        ActionView::FinishExercise { training } => Ok(None),
    }
}

/// What a payload is answered with while the chat browses `snapshot`.
pub open spec fn select_training_spec(
    payload: Seq<char>,
    snapshot: Seq<TrainingView>,
    catalog: Seq<TrainingView>,
) -> Result<Option<ReplyView>, CallbackError> {
    match decode_spec(payload) {
        Some(action) => answer_spec(action, snapshot, catalog),
        None => Err(CallbackError::MalformedCallback),
    }
}

/// What the user is told of a callback that failed: nothing of a malformed
/// payload, a notice of a training or an exercise that is not there.
pub open spec fn failure_reply(error: CallbackError) -> Option<ReplyView> {
    match error {
        CallbackError::MalformedCallback => None,
        CallbackError::UnknownTraining => Some(notice("Training not found!"@)),
        CallbackError::UnknownExercise => Some(notice("Exercise not found!"@)),
    }
}

/// The reply to a pressed button, if it gets one. A chat that has not
/// started gets none.
pub open spec fn callback_reply(
    state: StateView,
    payload: Seq<char>,
    catalog: Seq<TrainingView>,
) -> Option<ReplyView> {
    match state {
        StateView::Start => None,
        StateView::SelectTraining { training } => match select_training_spec(
            payload,
            training,
            catalog,
        ) {
            Ok(reply) => reply,
            Err(error) => failure_reply(error),
        },
    }
}

/// The operation that sends `reply` to a chat.
pub open spec fn send(chat_id: i64, reply: ReplyView) -> OutboundView {
    OutboundView::SendMessage { chat_id, text: reply.text, keyboard: reply.keyboard }
}

/// The state after a text message: a start command takes a snapshot of the
/// catalog in place of whatever was there; no other text changes the state.
pub open spec fn after_command(
    state: StateView,
    command: Option<Command>,
    catalog: Seq<TrainingView>,
) -> StateView {
    match command {
        Some(Command::Start) => StateView::SelectTraining { training: catalog },
        _ => state,
    }
}

/// The state after an event. A pressed button never changes it.
pub open spec fn next_state(
    state: StateView,
    event: EventView,
    catalog: Seq<TrainingView>,
) -> StateView {
    match event {
        EventView::Text { chat_id, command } => after_command(state, command, catalog),
        EventView::Callback { chat_id, callback_id, payload } => state,
    }
}

/// The operations that an event calls for, in order. A text message gets
/// its reply. A pressed button gets its reply, if it has one, and then the
/// acknowledgement.
pub open spec fn outbound_spec(
    state: StateView,
    event: EventView,
    catalog: Seq<TrainingView>,
) -> Seq<OutboundView> {
    match event {
        EventView::Text { chat_id, command } => seq![send(chat_id, message_reply(command, catalog))],
        EventView::Callback { chat_id, callback_id, payload } => match callback_reply(
            state,
            payload,
            catalog,
        ) {
            Some(reply) => seq![
                send(chat_id, reply),
                OutboundView::AcknowledgeCallback { callback_id },
            ],
            None => seq![OutboundView::AcknowledgeCallback { callback_id }],
        },
    }
}

impl Command {
    /// The help text.
    pub fn descriptions() -> (text: String)
        ensures
            text@ == help_text(),
    {
        String::from_str(
            "These commands are supported:\n\n/help \u{2014} display this text.\n/start \u{2014} start.",
        )
    }
}

/// A reply that is `text` alone.
fn make_notice(text: &str) -> (reply: Reply)
    ensures
        reply@ == notice(text@),
{
    Reply { text: String::from_str(text), keyboard: None }
}

/// The reply to the help command.
pub fn help() -> (reply: Reply)
    ensures
        reply@ == notice(help_text()),
{
    Reply { text: Command::descriptions(), keyboard: None }
}

/// The reply to a text that holds no known command.
pub fn invalid_command() -> (reply: Reply)
    ensures
        reply@ == notice("Command not found!"@),
{
    make_notice("Command not found!")
}

/// Starts a chat: takes a snapshot of the catalog, and offers one row for
/// each of its trainings, in catalog order.
pub fn start(catalog: &Catalog) -> (started: (State, Reply))
    ensures
        started.0@ == (StateView::SelectTraining { training: catalog@ }),
        started.1@ == start_reply(catalog@),
        started.1@.keyboard->0.len() == catalog@.len(),
        forall|i: int|
            0 <= i < catalog@.len() ==> started.1@.keyboard->0[i] == training_row(catalog@[i]),
{
    let keyboard = make_workout_keyboard(catalog);
    let reply = Reply { text: String::from_str("Choose your training:"), keyboard: Some(keyboard) };
    (State::SelectTraining { training: catalog.clone() }, reply)
}

/// Answers a text message, and says which state the chat is in after it.
pub fn message_handler(state: State, command: Option<Command>, catalog: &Catalog) -> (handled: (
    State,
    Reply,
))
    ensures
        handled.0@ == after_command(state@, command, catalog@),
        handled.1@ == message_reply(command, catalog@),
{
    match command {
        Some(Command::Help) => (state, help()),
        Some(Command::Start) => start(catalog),
        None => (state, invalid_command()),
    }
}

/// The reply to a selected training.
fn make_training_reply(training: &Training) -> (reply: Reply)
    ensures
        reply@ == training_reply(training@),
{
    let mut text = String::from_str("Exercises for training ");
    text.append(training.identifier.as_str());
    Reply { text, keyboard: Some(make_training_keyboard(training)) }
}

/// The reply to a selected exercise.
fn make_exercise_reply(exercise: &Exercise) -> (reply: Reply)
    ensures
        reply@ == exercise_reply(exercise@),
{
    let mut text = exercise.name.clone();
    text.append(" - ");
    let serie = exercise.serie.format();
    text.append(serie.as_str());
    Reply { text, keyboard: None }
}

/// Answers an action: see [`answer_spec`].
pub fn answer(action: &Action, training: &Catalog, catalog: &Catalog) -> (answered: Result<
    Option<Reply>,
    CallbackError,
>)
    ensures
        answered_view(answered) == answer_spec(action@, training@, catalog@),
{
    match action {
        Action::SelectTraining { training: identifier } => match training.lookup(
            identifier.as_str(),
        ) {
            Some(found) => Ok(Some(make_training_reply(found))),
            None => Err(CallbackError::UnknownTraining),
        },
        Action::SelectExercise { training: identifier, exercise } => match catalog.lookup(
            identifier.as_str(),
        ) {
            Some(found) => match found.exercise(exercise.as_str()) {
                Some(exercise) => Ok(Some(make_exercise_reply(exercise))),
                None => Err(CallbackError::UnknownExercise),
            },
            None => Err(CallbackError::UnknownTraining),
        },
        Action::ChangeLoad { .. } => Ok(None),
        Action::FinishExercise { .. } => Ok(None),
    }
}

/// Answers the payload of a pressed button while the chat browses the
/// snapshot `training`: see [`select_training_spec`].
pub fn select_training(payload: &str, training: &Catalog, catalog: &Catalog) -> (answered: Result<
    Option<Reply>,
    CallbackError,
>)
    ensures
        answered_view(answered) == select_training_spec(payload@, training@, catalog@),
{
    match Action::decode(payload) {
        Ok(action) => answer(&action, training, catalog),
        Err(error) => Err(error),
    }
}

/// The reply to a pressed button, if it gets one: see [`callback_reply`].
pub fn callback_handler(state: &State, payload: &str, catalog: &Catalog) -> (reply: Option<Reply>)
    ensures
        match reply {
            Some(reply) => callback_reply(state@, payload@, catalog@) == Some(reply@),
            None => callback_reply(state@, payload@, catalog@) is None,
        },
{
    match state {
        State::Start => None,
        State::SelectTraining { training } => match select_training(payload, training, catalog) {
            Ok(reply) => reply,
            Err(CallbackError::MalformedCallback) => None,
            Err(CallbackError::UnknownTraining) => Some(make_notice("Training not found!")),
            Err(CallbackError::UnknownExercise) => Some(make_notice("Exercise not found!")),
        },
    }
}

impl State {
    /// Handles one inbound event: the state of the chat after it, and the
    /// operations to perform for it.
    pub fn handle(self, event: &Event, catalog: &Catalog) -> (reaction: Reaction)
        ensures
            reaction.state@ == next_state(self@, event@, catalog@),
            outbound_view(reaction.outbound@) == outbound_spec(self@, event@, catalog@),
    {
        match event {
            Event::Text { chat_id, command } => {
                let (state, reply) = message_handler(self, *command, catalog);
                let outbound = vec![
                    Outbound::SendMessage {
                        chat_id: *chat_id,
                        text: reply.text,
                        keyboard: reply.keyboard,
                    },
                ];
                assert(outbound_view(outbound@) =~= outbound_spec(self@, event@, catalog@));
                Reaction { state, outbound }
            },
            Event::Callback { chat_id, callback_id, payload } => {
                let reply = callback_handler(&self, payload.as_str(), catalog);
                let acknowledge = Outbound::AcknowledgeCallback { callback_id: callback_id.clone() };
                let outbound = match reply {
                    Some(reply) => vec![
                        Outbound::SendMessage {
                            chat_id: *chat_id,
                            text: reply.text,
                            keyboard: reply.keyboard,
                        },
                        acknowledge,
                    ],
                    None => vec![acknowledge],
                };
                assert(outbound_view(outbound@) =~= outbound_spec(self@, event@, catalog@));
                Reaction { state: self, outbound }
            },
        }
    }
}

/// From a chat that has not started, a start command leads to browsing the
/// catalog, and the one message sent carries one row for each training, in
/// catalog order.
pub proof fn lemma_start_from_idle(chat_id: i64, catalog: Seq<TrainingView>)
    ensures
        next_state(
            StateView::Start,
            EventView::Text { chat_id, command: Some(Command::Start) },
            catalog,
        ) == (StateView::SelectTraining { training: catalog }),
        outbound_spec(
            StateView::Start,
            EventView::Text { chat_id, command: Some(Command::Start) },
            catalog,
        ) == seq![send(chat_id, start_reply(catalog))],
        start_reply(catalog).keyboard is Some,
        start_reply(catalog).keyboard->0.len() == catalog.len(),
        forall|i: int|
            0 <= i < catalog.len() ==> start_reply(catalog).keyboard->0[i] == training_row(
                catalog[i],
            ),
{
}

/// After a start command the chat browses the catalog of that moment,
/// whatever it was doing: a second start keeps nothing of the first
/// snapshot.
pub proof fn lemma_start_resets_snapshot(
    state: StateView,
    first_chat: i64,
    first: Seq<TrainingView>,
    second_chat: i64,
    second: Seq<TrainingView>,
)
    ensures
        next_state(
            next_state(
                state,
                EventView::Text { chat_id: first_chat, command: Some(Command::Start) },
                first,
            ),
            EventView::Text { chat_id: second_chat, command: Some(Command::Start) },
            second,
        ) == (StateView::SelectTraining { training: second }),
        next_state(
            next_state(
                state,
                EventView::Text { chat_id: first_chat, command: Some(Command::Start) },
                first,
            ),
            EventView::Text { chat_id: second_chat, command: Some(Command::Start) },
            second,
        ) == next_state(
            state,
            EventView::Text { chat_id: second_chat, command: Some(Command::Start) },
            second,
        ),
{
}

/// Selecting a training that the snapshot does not hold is answered with
/// [`CallbackError::UnknownTraining`], whatever the catalog holds now.
pub proof fn lemma_absent_training_is_unknown(
    identifier: Seq<char>,
    snapshot: Seq<TrainingView>,
    catalog: Seq<TrainingView>,
)
    requires
        forall|i: int| 0 <= i < snapshot.len() ==> snapshot[i].identifier != identifier,
    ensures
        select_training_spec(
            encode_spec(ActionView::SelectTraining { training: identifier }),
            snapshot,
            catalog,
        ) == Err::<Option<ReplyView>, CallbackError>(CallbackError::UnknownTraining),
        callback_reply(
            StateView::SelectTraining { training: snapshot },
            encode_spec(ActionView::SelectTraining { training: identifier }),
            catalog,
        ) == Some(notice("Training not found!"@)),
{
    lemma_decode_encode(ActionView::SelectTraining { training: identifier });
    lemma_no_occurrence(identifiers(snapshot), identifier);
}

/// The button that a started chat is offered for a training selects that
/// training: pressing it is answered with the training's exercises.
pub proof fn lemma_offered_training_is_found(
    snapshot: Seq<TrainingView>,
    catalog: Seq<TrainingView>,
    i: int,
)
    requires
        well_formed(snapshot),
        0 <= i < snapshot.len(),
    ensures
        select_training_spec(workout_keyboard(snapshot)[i][0].payload, snapshot, catalog)
            == Ok::<Option<ReplyView>, CallbackError>(Some(training_reply(snapshot[i]))),
{
    let identifier = snapshot[i].identifier;
    lemma_decode_encode(ActionView::SelectTraining { training: identifier });
    assert(identifiers(snapshot)[i] == identifier);
    assert forall|j: int| 0 <= j < i implies identifiers(snapshot)[j] != identifier by {
        assert(identifiers(snapshot)[j] != identifiers(snapshot)[i]);
    }
    lemma_first_occurrence(identifiers(snapshot), identifier, i);
}

/// The button that a training's keyboard offers for an exercise selects
/// that exercise, where the training stands in the catalog under an
/// identifier without a colon: pressing it is answered with the exercise's
/// description.
pub proof fn lemma_offered_exercise_is_found(
    snapshot: Seq<TrainingView>,
    catalog: Seq<TrainingView>,
    i: int,
    j: int,
)
    requires
        well_formed(catalog),
        0 <= i < catalog.len(),
        0 <= j < catalog[i].exercises.len(),
        !catalog[i].identifier.contains(':'),
    ensures
        select_training_spec(training_keyboard(catalog[i])[j][0].payload, snapshot, catalog)
            == Ok::<Option<ReplyView>, CallbackError>(
            Some(exercise_reply(catalog[i].exercises[j])),
        ),
{
    let identifier = catalog[i].identifier;
    let exercises = catalog[i].exercises;
    let name = exercises[j].name;
    lemma_decode_encode(ActionView::SelectExercise { training: identifier, exercise: name });
    assert(identifiers(catalog)[i] == identifier);
    assert forall|k: int| 0 <= k < i implies identifiers(catalog)[k] != identifier by {
        assert(identifiers(catalog)[k] != identifiers(catalog)[i]);
    }
    lemma_first_occurrence(identifiers(catalog), identifier, i);
    assert(names(exercises).no_duplicates());
    assert(names(exercises)[j] == name);
    assert forall|k: int| 0 <= k < j implies names(exercises)[k] != name by {
        assert(names(exercises)[k] != names(exercises)[j]);
    }
    lemma_first_occurrence(names(exercises), name, j);
}

/// A pressed button never changes the state, and is acknowledged exactly
/// once, as the last operation; a text message is answered with exactly one
/// message and acknowledges nothing.
pub proof fn lemma_acknowledged_once(
    state: StateView,
    event: EventView,
    catalog: Seq<TrainingView>,
)
    ensures
        match event {
            EventView::Callback { chat_id, callback_id, payload } => {
                let outbound = outbound_spec(state, event, catalog);
                &&& next_state(state, event, catalog) == state
                &&& 1 <= outbound.len() <= 2
                &&& outbound.last() == (OutboundView::AcknowledgeCallback { callback_id })
                &&& outbound.len() == 2 ==> outbound[0] is SendMessage
            },
            EventView::Text { chat_id, command } => {
                let outbound = outbound_spec(state, event, catalog);
                &&& outbound.len() == 1
                &&& outbound[0] is SendMessage
            },
        },
{
}

} // verus!
