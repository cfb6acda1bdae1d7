use esperto_fit::catalog::Catalog;
use esperto_fit::keyboard::{make_training_keyboard, make_workout_keyboard, Button, Keyboard};
use esperto_fit::training::{ContinuousSerie, Exercise, RepetitionSerie, Serie, Training};
use esperto_fit::workout;

fn button(label: &str, payload: &str) -> Button {
    Button { label: label.to_string(), payload: payload.to_string() }
}

fn plank() -> Exercise {
    Exercise {
        name: "Plank".to_string(),
        serie: Serie::Continuous(ContinuousSerie { time_in_seconds: 30, sets: Some(3) }),
    }
}

fn squat() -> Exercise {
    Exercise {
        name: "Squat".to_string(),
        serie: Serie::Repetitions(RepetitionSerie { sets: 4, repetitions: 10, load: None }),
    }
}

#[test]
fn workout_keyboard_has_one_row_for_each_training() {
    let keyboard = make_workout_keyboard(&workout::catalog());
    assert_eq!(
        keyboard,
        Keyboard {
            rows: vec![
                vec![button("A", "T:A")],
                vec![button("B", "T:B")],
                vec![button("C", "T:C")],
                vec![button("D", "T:D")],
            ],
        }
    );
}

#[test]
fn workout_keyboard_follows_the_catalog_order() {
    let trainings = vec![
        Training { identifier: "Legs".to_string(), exercises: vec![squat()] },
        Training { identifier: "Core".to_string(), exercises: vec![plank()] },
    ];
    let keyboard = make_workout_keyboard(&Catalog::load(trainings).unwrap());
    assert_eq!(
        keyboard.rows,
        vec![vec![button("Legs", "T:Legs")], vec![button("Core", "T:Core")]]
    );
}

#[test]
fn workout_keyboard_of_an_empty_catalog_has_no_row() {
    let keyboard = make_workout_keyboard(&Catalog::load(vec![]).unwrap());
    assert_eq!(keyboard, Keyboard { rows: vec![] });
}

#[test]
fn training_keyboard_has_a_row_for_each_exercise_and_the_finishing_row() {
    let training = Training { identifier: "A".to_string(), exercises: vec![squat(), plank()] };
    assert_eq!(
        make_training_keyboard(&training),
        Keyboard {
            rows: vec![
                vec![button("Squat", "E:A:Squat"), button("Change Load", "CL:A:Squat")],
                vec![button("Plank", "E:A:Plank"), button("Change Load", "CL:A:Plank")],
                vec![button("Completed!", "FE:A")],
            ],
        }
    );
}

#[test]
fn training_keyboard_without_exercises_has_the_finishing_row_alone() {
    let training = Training { identifier: "Rest".to_string(), exercises: vec![] };
    assert_eq!(
        make_training_keyboard(&training).rows,
        vec![vec![button("Completed!", "FE:Rest")]]
    );
}
