use esperto_fit::callback::{Action, CallbackError};

fn select_training(training: &str) -> Action {
    Action::SelectTraining { training: training.to_string() }
}

fn select_exercise(training: &str, exercise: &str) -> Action {
    Action::SelectExercise { training: training.to_string(), exercise: exercise.to_string() }
}

fn change_load(training: &str, exercise: &str) -> Action {
    Action::ChangeLoad { training: training.to_string(), exercise: exercise.to_string() }
}

fn finish_exercise(training: &str) -> Action {
    Action::FinishExercise { training: training.to_string() }
}

#[test]
fn encode_each_action() {
    assert_eq!(select_training("A").encode(), "T:A");
    assert_eq!(select_exercise("A", "Plank").encode(), "E:A:Plank");
    assert_eq!(change_load("A", "Plank").encode(), "CL:A:Plank");
    assert_eq!(finish_exercise("A").encode(), "FE:A");
}

#[test]
fn decode_each_action() {
    assert_eq!(Action::decode("T:A"), Ok(select_training("A")));
    assert_eq!(Action::decode("E:A:Plank"), Ok(select_exercise("A", "Plank")));
    assert_eq!(Action::decode("CL:A:Plank"), Ok(change_load("A", "Plank")));
    assert_eq!(Action::decode("FE:A"), Ok(finish_exercise("A")));
}

#[test]
fn decode_after_encode_gives_the_action_back() {
    let actions = [
        select_training("A"),
        select_training("Upper body"),
        select_training(""),
        select_exercise("B", "Leg Press 45 degrees"),
        select_exercise("", ""),
        change_load("C", "Ab Crunch Machine"),
        finish_exercise("D"),
        select_training("\u{e9}t\u{e9}"),
        select_exercise("\u{e9}", "\u{1f3cb}"),
    ];
    for action in actions {
        assert_eq!(Action::decode(&action.encode()), Ok(action));
    }
}

#[test]
fn distinct_actions_have_distinct_payloads() {
    let actions = [
        select_training("A"),
        select_training("E"),
        finish_exercise("A"),
        select_exercise("A", "Plank"),
        change_load("A", "Plank"),
        select_exercise("A", "Side Plank"),
        select_exercise("B", "Plank"),
    ];
    for (i, a) in actions.iter().enumerate() {
        for (j, b) in actions.iter().enumerate() {
            assert_eq!(a.encode() == b.encode(), i == j);
        }
    }
}

#[test]
fn decode_refuses_a_payload_without_colon() {
    assert_eq!(Action::decode(""), Err(CallbackError::MalformedCallback));
    assert_eq!(Action::decode("T"), Err(CallbackError::MalformedCallback));
    assert_eq!(Action::decode("Plank"), Err(CallbackError::MalformedCallback));
}

#[test]
fn decode_refuses_an_unknown_tag() {
    assert_eq!(Action::decode("X:A"), Err(CallbackError::MalformedCallback));
    assert_eq!(Action::decode("t:A"), Err(CallbackError::MalformedCallback));
    assert_eq!(Action::decode(":A"), Err(CallbackError::MalformedCallback));
    assert_eq!(Action::decode("TT:A"), Err(CallbackError::MalformedCallback));
    assert_eq!(Action::decode("EF:A"), Err(CallbackError::MalformedCallback));
    assert_eq!(Action::decode("C:A:Plank"), Err(CallbackError::MalformedCallback));
    assert_eq!(Action::decode("CLX:A:Plank"), Err(CallbackError::MalformedCallback));
    assert_eq!(Action::decode("training:A"), Err(CallbackError::MalformedCallback));
}

#[test]
fn decode_refuses_a_missing_exercise() {
    assert_eq!(Action::decode("E:A"), Err(CallbackError::MalformedCallback));
    assert_eq!(Action::decode("CL:A"), Err(CallbackError::MalformedCallback));
    assert_eq!(Action::decode("E:"), Err(CallbackError::MalformedCallback));
}

#[test]
fn decode_accepts_empty_fields() {
    assert_eq!(Action::decode("T:"), Ok(select_training("")));
    assert_eq!(Action::decode("FE:"), Ok(finish_exercise("")));
    assert_eq!(Action::decode("E::"), Ok(select_exercise("", "")));
    assert_eq!(Action::decode("CL:A:"), Ok(change_load("A", "")));
}

#[test]
fn decode_keeps_colons_of_the_last_field() {
    assert_eq!(Action::decode("T:A:B"), Ok(select_training("A:B")));
    assert_eq!(Action::decode("FE:A:B:C"), Ok(finish_exercise("A:B:C")));
    assert_eq!(Action::decode("E:A:Plank:30"), Ok(select_exercise("A", "Plank:30")));
    assert_eq!(Action::decode("CL:A::"), Ok(change_load("A", ":")));
    let action = select_exercise("A", "Plank: side");
    assert_eq!(Action::decode(&action.encode()), Ok(action));
}

#[test]
fn colon_in_a_training_before_an_exercise_moves_the_split() {
    let action = select_exercise("A:B", "Plank");
    assert_eq!(action.encode(), "E:A:B:Plank");
    assert_eq!(Action::decode("E:A:B:Plank"), Ok(select_exercise("A", "B:Plank")));
}
