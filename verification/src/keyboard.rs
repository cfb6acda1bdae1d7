//! Keyboards: rows of buttons, each a label and the payload sent back when
//! the button is pressed.

use crate::callback::{Action, ActionView, encode_spec};
use crate::catalog::Catalog;
use crate::training::{Exercise, ExerciseView, Training, TrainingView, trainings_view};
use vstd::prelude::*;
use vstd::string::StringExecFns;

verus! {

/// One button of a keyboard.
#[derive(Clone, Debug, PartialEq, Eq)]
pub struct Button {
    pub label: String,
    pub payload: String,
}

/// Rows of buttons, top to bottom, each row left to right.
#[derive(Clone, Debug, PartialEq, Eq)]
pub struct Keyboard {
    pub rows: Vec<Vec<Button>>,
}

/// What a [`Button`] holds, as mathematical values.
pub struct ButtonView {
    pub label: Seq<char>,
    pub payload: Seq<char>,
}

impl View for Button {
    type V = ButtonView;

    open spec fn view(&self) -> ButtonView {
        ButtonView { label: self.label@, payload: self.payload@ }
    }
}

/// The views of a row of buttons, in order.
pub open spec fn row_view(row: Seq<Button>) -> Seq<ButtonView> {
    Seq::new(row.len(), |j: int| row[j]@)
}

impl View for Keyboard {
    type V = Seq<Seq<ButtonView>>;

    open spec fn view(&self) -> Seq<Seq<ButtonView>> {
        Seq::new(self.rows@.len(), |i: int| row_view(self.rows@[i]@))
    }
}

/// The row that offers a training: one button, labelled with the
/// identifier, that selects it.
pub open spec fn training_row(training: TrainingView) -> Seq<ButtonView> {
    seq![
        ButtonView {
            label: training.identifier,
            payload: encode_spec(ActionView::SelectTraining { training: training.identifier }),
        },
    ]
}

/// One row for each training, in catalog order.
pub open spec fn workout_keyboard(trainings: Seq<TrainingView>) -> Seq<Seq<ButtonView>> {
    Seq::new(trainings.len(), |i: int| training_row(trainings[i]))
}

/// The row of an exercise: a button labelled with its name that selects it,
/// then a button that asks to change its load.
pub open spec fn exercise_row(training: Seq<char>, exercise: ExerciseView) -> Seq<ButtonView> {
    seq![
        ButtonView {
            label: exercise.name,
            payload: encode_spec(
                ActionView::SelectExercise { training, exercise: exercise.name },
            ),
        },
        ButtonView {
            label: "Change Load"@,
            payload: encode_spec(ActionView::ChangeLoad { training, exercise: exercise.name }),
        },
    ]
}

/// The last row of a training's keyboard: the button that finishes it.
pub open spec fn finish_row(training: Seq<char>) -> Seq<ButtonView> {
    seq![
        ButtonView {
            label: "Completed!"@,
            payload: encode_spec(ActionView::FinishExercise { training }),
        },
    ]
}

/// One row for each exercise, in the training's order, then the finishing
/// row.
pub open spec fn training_keyboard(training: TrainingView) -> Seq<Seq<ButtonView>> {
    Seq::new(
        training.exercises.len(),
        |i: int| exercise_row(training.identifier, training.exercises[i]),
    ).push(finish_row(training.identifier))
}

/// The row that offers `training`.
fn make_training_row(training: &Training) -> (row: Vec<Button>)
    ensures
        row_view(row@) == training_row(training@),
{
    let action = Action::SelectTraining { training: training.identifier.clone() };
    let row = vec![Button { label: training.identifier.clone(), payload: action.encode() }];
    assert(row_view(row@) =~= training_row(training@));
    row
}

/// The row of `exercise` within the training under `training`.
fn make_exercise_row(training: &String, exercise: &Exercise) -> (row: Vec<Button>)
    ensures
        row_view(row@) == exercise_row(training@, exercise@),
{
    let select = Action::SelectExercise {
        training: training.clone(),
        exercise: exercise.name.clone(),
    };
    let change = Action::ChangeLoad { training: training.clone(), exercise: exercise.name.clone() };
    let row = vec![
        Button { label: exercise.name.clone(), payload: select.encode() },
        Button { label: String::from_str("Change Load"), payload: change.encode() },
    ];
    assert(row_view(row@) =~= exercise_row(training@, exercise@));
    row
}

/// The keyboard that offers every training of the catalog.
pub fn make_workout_keyboard(catalog: &Catalog) -> (keyboard: Keyboard)
    ensures
        keyboard@ == workout_keyboard(catalog@),
{
    let trainings = catalog.trainings();
    let mut rows: Vec<Vec<Button>> = Vec::new();
    let mut i: usize = 0;
    while i < trainings.len()
        invariant
            i <= trainings@.len(),
            rows@.len() == i,
            trainings_view(trainings@) == catalog@,
            forall|k: int| 0 <= k < i ==> row_view(rows@[k]@) == training_row(trainings@[k]@),
        decreases trainings@.len() - i,
    {
        rows.push(make_training_row(&trainings[i]));
        i += 1;
    }
    let keyboard = Keyboard { rows };
    assert(keyboard@ =~= workout_keyboard(catalog@));
    keyboard
}

/// The keyboard that offers every exercise of `training`, and the button
/// that finishes it.
pub fn make_training_keyboard(training: &Training) -> (keyboard: Keyboard)
    ensures
        keyboard@ == training_keyboard(training@),
{
    let mut rows: Vec<Vec<Button>> = Vec::new();
    let mut i: usize = 0;
    while i < training.exercises.len()
        invariant
            i <= training.exercises@.len(),
            rows@.len() == i,
            forall|k: int|
                0 <= k < i ==> row_view(rows@[k]@) == exercise_row(
                    training.identifier@,
                    training.exercises@[k]@,
                ),
        decreases training.exercises@.len() - i,
    {
        rows.push(make_exercise_row(&training.identifier, &training.exercises[i]));
        i += 1;
    }
    let finish = Action::FinishExercise { training: training.identifier.clone() };
    let last = vec![Button { label: String::from_str("Completed!"), payload: finish.encode() }];
    assert(row_view(last@) =~= finish_row(training.identifier@));
    rows.push(last);
    let keyboard = Keyboard { rows };
    assert(keyboard@ =~= training_keyboard(training@));
    keyboard
}

} // verus!
