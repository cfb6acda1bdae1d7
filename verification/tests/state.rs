use esperto_fit::callback::{Action, CallbackError};
use esperto_fit::catalog::Catalog;
use esperto_fit::keyboard::{make_training_keyboard, make_workout_keyboard, Button, Keyboard};
use esperto_fit::state::{
    answer, callback_handler, help, invalid_command, message_handler, select_training, start,
    Command, Event, Outbound, Reaction, Reply, State,
};
use esperto_fit::training::{ContinuousSerie, Exercise, Load, RepetitionSerie, Serie, Training};
use esperto_fit::workout;

const HELP: &str =
    "These commands are supported:\n\n/help \u{2014} display this text.\n/start \u{2014} start.";

fn button(label: &str, payload: &str) -> Button {
    Button { label: label.to_string(), payload: payload.to_string() }
}

fn plank() -> Exercise {
    Exercise {
        name: "Plank".to_string(),
        serie: Serie::Continuous(ContinuousSerie { time_in_seconds: 30, sets: Some(3) }),
    }
}

fn press(load: Option<Load>) -> Exercise {
    Exercise {
        name: "Press".to_string(),
        serie: Serie::Repetitions(RepetitionSerie { sets: 3, repetitions: 12, load }),
    }
}

fn catalog_of(trainings: Vec<(&str, Vec<Exercise>)>) -> Catalog {
    Catalog::load(
        trainings
            .into_iter()
            .map(|(identifier, exercises)| Training { identifier: identifier.to_string(), exercises })
            .collect(),
    )
    .unwrap()
}

fn text(command: Option<Command>) -> Event {
    Event::Text { chat_id: 7, command }
}

fn press_button(payload: &str) -> Event {
    Event::Callback { chat_id: 7, callback_id: "cb-1".to_string(), payload: payload.to_string() }
}

fn message(text: &str, keyboard: Option<Keyboard>) -> Outbound {
    Outbound::SendMessage { chat_id: 7, text: text.to_string(), keyboard }
}

fn acknowledge() -> Outbound {
    Outbound::AcknowledgeCallback { callback_id: "cb-1".to_string() }
}

fn notice(text: &str) -> Reply {
    Reply { text: text.to_string(), keyboard: None }
}

#[test]
fn a_chat_begins_at_start() {
    assert_eq!(State::default(), State::Start);
}

#[test]
fn help_text_lists_the_commands() {
    assert_eq!(Command::descriptions(), HELP);
    assert_eq!(help(), notice(HELP));
}

#[test]
fn invalid_command_says_so() {
    assert_eq!(invalid_command(), notice("Command not found!"));
}

#[test]
fn start_offers_the_trainings_and_takes_a_snapshot() {
    let catalog = workout::catalog();
    let (state, reply) = start(&catalog);
    assert_eq!(state, State::SelectTraining { training: catalog.clone() });
    assert_eq!(reply.text, "Choose your training:");
    let keyboard = reply.keyboard.unwrap();
    assert_eq!(keyboard.rows.len(), 4);
    assert_eq!(keyboard, make_workout_keyboard(&catalog));
    assert_eq!(keyboard.rows[2], vec![button("C", "T:C")]);
}

#[test]
fn start_command_from_idle_leads_to_browsing() {
    let catalog = catalog_of(vec![("Legs", vec![]), ("Core", vec![plank()]), ("Arms", vec![])]);
    let reaction = State::Start.handle(&text(Some(Command::Start)), &catalog);
    assert_eq!(reaction.state, State::SelectTraining { training: catalog.clone() });
    assert_eq!(
        reaction.outbound,
        vec![message(
            "Choose your training:",
            Some(Keyboard {
                rows: vec![
                    vec![button("Legs", "T:Legs")],
                    vec![button("Core", "T:Core")],
                    vec![button("Arms", "T:Arms")],
                ],
            }),
        )]
    );
}

#[test]
fn help_command_keeps_the_state() {
    let catalog = workout::catalog();
    let reaction = State::Start.handle(&text(Some(Command::Help)), &catalog);
    assert_eq!(reaction, Reaction { state: State::Start, outbound: vec![message(HELP, None)] });
    let browsing = State::SelectTraining { training: catalog.clone() };
    let reaction = browsing.clone().handle(&text(Some(Command::Help)), &catalog);
    assert_eq!(reaction, Reaction { state: browsing, outbound: vec![message(HELP, None)] });
}

#[test]
fn unknown_command_keeps_the_state() {
    let catalog = workout::catalog();
    let reaction = State::Start.handle(&text(None), &catalog);
    assert_eq!(
        reaction,
        Reaction { state: State::Start, outbound: vec![message("Command not found!", None)] }
    );
    let browsing = State::SelectTraining { training: catalog.clone() };
    let reaction = browsing.clone().handle(&text(None), &catalog);
    assert_eq!(
        reaction,
        Reaction { state: browsing, outbound: vec![message("Command not found!", None)] }
    );
}

#[test]
fn message_handler_answers_each_command() {
    let catalog = workout::catalog();
    assert_eq!(message_handler(State::Start, Some(Command::Help), &catalog), (State::Start, help()));
    assert_eq!(message_handler(State::Start, None, &catalog), (State::Start, invalid_command()));
    assert_eq!(message_handler(State::Start, Some(Command::Start), &catalog), start(&catalog));
}

#[test]
fn second_start_replaces_the_snapshot() {
    let first = catalog_of(vec![("A", vec![plank()])]);
    let second = catalog_of(vec![("B", vec![]), ("C", vec![])]);
    let once = State::Start.handle(&text(Some(Command::Start)), &first);
    assert_eq!(once.state, State::SelectTraining { training: first.clone() });
    let twice = once.state.handle(&text(Some(Command::Start)), &second);
    assert_eq!(twice.state, State::SelectTraining { training: second.clone() });
    assert_eq!(twice.state, State::Start.handle(&text(Some(Command::Start)), &second).state);
    assert_eq!(
        twice.outbound,
        vec![message(
            "Choose your training:",
            Some(Keyboard { rows: vec![vec![button("B", "T:B")], vec![button("C", "T:C")]] }),
        )]
    );
}

#[test]
fn start_twice_with_one_catalog_gives_the_same_state() {
    let catalog = workout::catalog();
    let once = State::Start.handle(&text(Some(Command::Start)), &catalog);
    let twice = once.state.clone().handle(&text(Some(Command::Start)), &catalog);
    assert_eq!(twice.state, once.state);
    assert_eq!(twice.outbound, once.outbound);
}

#[test]
fn selecting_a_training_lists_its_exercises() {
    let catalog = catalog_of(vec![("A", vec![press(None), plank()])]);
    let browsing = State::SelectTraining { training: catalog.clone() };
    let reaction = browsing.clone().handle(&press_button("T:A"), &catalog);
    assert_eq!(reaction.state, browsing);
    assert_eq!(
        reaction.outbound,
        vec![
            message(
                "Exercises for training A",
                Some(Keyboard {
                    rows: vec![
                        vec![button("Press", "E:A:Press"), button("Change Load", "CL:A:Press")],
                        vec![button("Plank", "E:A:Plank"), button("Change Load", "CL:A:Plank")],
                        vec![button("Completed!", "FE:A")],
                    ],
                }),
            ),
            acknowledge(),
        ]
    );
}

#[test]
fn selecting_an_exercise_describes_it() {
    let catalog = catalog_of(vec![("A", vec![press(Some(Load { hundredths: 3750 })), plank()])]);
    let browsing = State::SelectTraining { training: catalog.clone() };
    let reaction = browsing.clone().handle(&press_button("E:A:Plank"), &catalog);
    assert_eq!(reaction.state, browsing);
    assert_eq!(
        reaction.outbound,
        vec![message("Plank - 3 sets of 0 minutes and 30 seconds", None), acknowledge()]
    );
    let reaction = browsing.handle(&press_button("E:A:Press"), &catalog);
    assert_eq!(
        reaction.outbound,
        vec![message("Press - 3 sets of 12 repetitions with load of 37.50", None), acknowledge()]
    );
}

#[test]
fn training_absent_from_the_snapshot_is_unknown() {
    let snapshot = catalog_of(vec![("A", vec![plank()])]);
    let live = catalog_of(vec![("A", vec![plank()]), ("B", vec![plank()])]);
    assert_eq!(select_training("T:B", &snapshot, &live), Err(CallbackError::UnknownTraining));
    assert_eq!(select_training("T:", &snapshot, &live), Err(CallbackError::UnknownTraining));
    let browsing = State::SelectTraining { training: snapshot };
    let reaction = browsing.clone().handle(&press_button("T:B"), &live);
    assert_eq!(reaction.state, browsing);
    assert_eq!(reaction.outbound, vec![message("Training not found!", None), acknowledge()]);
}

#[test]
fn training_is_selected_from_the_snapshot() {
    let snapshot = catalog_of(vec![("A", vec![plank()])]);
    let live = catalog_of(vec![("A", vec![press(None)])]);
    let reply = select_training("T:A", &snapshot, &live).unwrap().unwrap();
    assert_eq!(reply.text, "Exercises for training A");
    assert_eq!(reply.keyboard, Some(make_training_keyboard(snapshot.lookup("A").unwrap())));
}

#[test]
fn exercise_is_selected_from_the_catalog_as_it_is_now() {
    let snapshot = catalog_of(vec![("A", vec![plank()])]);
    let live = catalog_of(vec![("B", vec![press(None)])]);
    assert_eq!(select_training("E:A:Plank", &snapshot, &live), Err(CallbackError::UnknownTraining));
    assert_eq!(
        select_training("E:B:Press", &snapshot, &live),
        Ok(Some(notice("Press - 3 sets of 12 repetitions")))
    );
}

#[test]
fn exercise_absent_from_the_training_is_unknown() {
    let catalog = catalog_of(vec![("A", vec![plank()])]);
    assert_eq!(
        select_training("E:A:Side Plank", &catalog, &catalog),
        Err(CallbackError::UnknownExercise)
    );
    assert_eq!(select_training("E:A:", &catalog, &catalog), Err(CallbackError::UnknownExercise));
    let browsing = State::SelectTraining { training: catalog.clone() };
    let reaction = browsing.clone().handle(&press_button("E:A:Side Plank"), &catalog);
    assert_eq!(reaction.state, browsing);
    assert_eq!(reaction.outbound, vec![message("Exercise not found!", None), acknowledge()]);
}

#[test]
fn exercise_of_an_unknown_training_is_an_unknown_training() {
    let catalog = catalog_of(vec![("A", vec![plank()])]);
    assert_eq!(
        select_training("E:Z:Plank", &catalog, &catalog),
        Err(CallbackError::UnknownTraining)
    );
}

#[test]
fn change_load_and_finish_are_acknowledged_without_a_message() {
    let catalog = catalog_of(vec![("A", vec![plank()])]);
    let browsing = State::SelectTraining { training: catalog.clone() };
    for payload in ["CL:A:Plank", "FE:A", "CL:Z:Nothing", "FE:Z"] {
        assert_eq!(select_training(payload, &catalog, &catalog), Ok(None));
        let reaction = browsing.clone().handle(&press_button(payload), &catalog);
        assert_eq!(reaction, Reaction { state: browsing.clone(), outbound: vec![acknowledge()] });
    }
}

#[test]
fn malformed_callback_is_acknowledged_without_a_message() {
    let catalog = catalog_of(vec![("A", vec![plank()])]);
    let browsing = State::SelectTraining { training: catalog.clone() };
    for payload in ["", "A", "X:A", "E:A", "training:A"] {
        assert_eq!(
            select_training(payload, &catalog, &catalog),
            Err(CallbackError::MalformedCallback)
        );
        assert_eq!(callback_handler(&browsing, payload, &catalog), None);
        let reaction = browsing.clone().handle(&press_button(payload), &catalog);
        assert_eq!(reaction, Reaction { state: browsing.clone(), outbound: vec![acknowledge()] });
        let reaction = State::Start.handle(&press_button(payload), &catalog);
        assert_eq!(reaction, Reaction { state: State::Start, outbound: vec![acknowledge()] });
    }
}

#[test]
fn button_before_start_is_acknowledged_without_a_message() {
    let catalog = catalog_of(vec![("A", vec![plank()])]);
    for payload in ["T:A", "E:A:Plank", "CL:A:Plank", "FE:A"] {
        assert_eq!(callback_handler(&State::Start, payload, &catalog), None);
        let reaction = State::Start.handle(&press_button(payload), &catalog);
        assert_eq!(reaction, Reaction { state: State::Start, outbound: vec![acknowledge()] });
    }
}

#[test]
fn every_button_is_acknowledged_once_and_last() {
    let catalog = workout::catalog();
    let browsing = State::SelectTraining { training: catalog.clone() };
    let payloads = ["T:A", "T:Z", "E:A:Plank", "E:A:Nothing", "CL:A:Plank", "FE:A", "", "X"];
    for state in [State::Start, browsing] {
        for payload in payloads {
            let reaction = state.clone().handle(&press_button(payload), &catalog);
            let acknowledged =
                reaction.outbound.iter().filter(|operation| **operation == acknowledge()).count();
            assert_eq!(acknowledged, 1);
            assert_eq!(reaction.outbound.last(), Some(&acknowledge()));
            assert_eq!(reaction.state, state);
        }
    }
}

#[test]
fn answer_follows_the_action() {
    let catalog = catalog_of(vec![("A", vec![plank()])]);
    let select = Action::SelectTraining { training: "A".to_string() };
    let reply = answer(&select, &catalog, &catalog).unwrap().unwrap();
    assert_eq!(reply.text, "Exercises for training A");
    let finish = Action::FinishExercise { training: "A".to_string() };
    assert_eq!(answer(&finish, &catalog, &catalog), Ok(None));
    let missing = Action::SelectExercise { training: "A".to_string(), exercise: "Squat".to_string() };
    assert_eq!(answer(&missing, &catalog, &catalog), Err(CallbackError::UnknownExercise));
}

#[test]
fn a_chat_from_start_to_an_exercise() {
    let catalog = catalog_of(vec![("A", vec![plank()])]);

    let started = State::default().handle(&text(Some(Command::Start)), &catalog);
    assert_eq!(
        started.outbound,
        vec![message(
            "Choose your training:",
            Some(Keyboard { rows: vec![vec![button("A", "T:A")]] }),
        )]
    );

    let chosen = started.state.handle(&press_button("T:A"), &catalog);
    assert_eq!(
        chosen.outbound,
        vec![
            message(
                "Exercises for training A",
                Some(Keyboard {
                    rows: vec![
                        vec![button("Plank", "E:A:Plank"), button("Change Load", "CL:A:Plank")],
                        vec![button("Completed!", "FE:A")],
                    ],
                }),
            ),
            acknowledge(),
        ]
    );

    let shown = chosen.state.handle(&press_button("E:A:Plank"), &catalog);
    assert_eq!(
        shown.outbound,
        vec![message("Plank - 3 sets of 0 minutes and 30 seconds", None), acknowledge()]
    );
    assert_eq!(shown.state, State::SelectTraining { training: catalog });
}

#[test]
fn every_offered_button_is_answered() {
    let catalog = workout::catalog();
    let (_, reply) = start(&catalog);
    let offered = reply.keyboard.unwrap();
    assert_eq!(offered.rows.len(), catalog.trainings().len());
    for (row, training) in offered.rows.iter().zip(catalog.trainings()) {
        let answered = select_training(&row[0].payload, &catalog, &catalog).unwrap().unwrap();
        assert_eq!(answered.text, format!("Exercises for training {}", training.identifier));
        let keyboard = answered.keyboard.unwrap();
        assert_eq!(keyboard, make_training_keyboard(training));
        assert_eq!(keyboard.rows.len(), training.exercises.len() + 1);
        for (row, exercise) in keyboard.rows.iter().zip(&training.exercises) {
            let described = format!("{} - {}", exercise.name, exercise.serie.format());
            assert_eq!(
                select_training(&row[0].payload, &catalog, &catalog),
                Ok(Some(notice(&described)))
            );
            assert_eq!(select_training(&row[1].payload, &catalog, &catalog), Ok(None));
        }
        let finish = &keyboard.rows.last().unwrap()[0];
        assert_eq!(select_training(&finish.payload, &catalog, &catalog), Ok(None));
    }
}
