//! The built-in workout: four trainings, `A` to `D`.

use crate::catalog::{Catalog, identifiers, names, well_formed};
use crate::training::{
    ContinuousSerie,
    Exercise,
    ExerciseView,
    RepetitionSerie,
    Serie,
    Training,
    TrainingView,
    trainings_view,
};
use vstd::pervasive::unreached;
use vstd::prelude::*;
use vstd::string::StringExecFns;

verus! {

/// An exercise of `sets` sets of `repetitions` repetitions, without load.
pub open spec fn counted(name: Seq<char>, sets: u8, repetitions: u8) -> ExerciseView {
    ExerciseView {
        name,
        serie: Serie::Repetitions(RepetitionSerie { sets, repetitions, load: None }),
    }
}

/// An exercise held for `time_in_seconds`, three sets of it.
pub open spec fn held(name: Seq<char>, time_in_seconds: u16) -> ExerciseView {
    ExerciseView {
        name,
        serie: Serie::Continuous(ContinuousSerie { time_in_seconds, sets: Some(3u8) }),
    }
}

/// Training `A`.
pub open spec fn workout_a() -> TrainingView {
    TrainingView {
        identifier: "A"@,
        exercises: seq![
            counted("Smith Machine Squat"@, 4, 10),
            counted("Leg Press Horizontal"@, 3, 12),
            counted("Leg Curl Machine"@, 3, 12),
            counted("Glute Machine"@, 3, 12),
            counted("Glute Leg Raise"@, 3, 12),
            held("Plank"@, 30),
        ],
    }
}

/// Training `B`.
pub open spec fn workout_b() -> TrainingView {
    TrainingView {
        identifier: "B"@,
        exercises: seq![
            counted("Free Weight Squat"@, 4, 10),
            counted("Leg Press 45 degrees"@, 3, 12),
            counted("Hip Abductor Machine"@, 3, 12),
            counted("Hip Adductor Machine"@, 3, 12),
            counted("Glute Machine"@, 3, 12),
            counted("Glute Leg Raise"@, 3, 12),
            held("Side Plank"@, 30),
        ],
    }
}

/// Training `C`.
pub open spec fn workout_c() -> TrainingView {
    TrainingView {
        identifier: "C"@,
        exercises: seq![
            held("Side Plank"@, 30),
            held("Plank"@, 30),
            counted("Ab Crunch Machine"@, 3, 15),
            counted("Leg Raise"@, 3, 12),
            counted("Cardio"@, 3, 12),
        ],
    }
}

/// Training `D`.
pub open spec fn workout_d() -> TrainingView {
    TrainingView {
        identifier: "D"@,
        exercises: seq![
            counted("Sumo Squat"@, 4, 10),
            counted("Leg Press Horizontal"@, 3, 12),
            counted("Leg Curl Machine"@, 3, 12),
            counted("Glute Machine"@, 3, 12),
            counted("Glute Leg Raise"@, 3, 12),
            held("Plank"@, 30),
        ],
    }
}

/// The built-in workout, in order.
pub open spec fn workout() -> Seq<TrainingView> {
    seq![workout_a(), workout_b(), workout_c(), workout_d()]
}

/// What is known of the texts that the workout is written with.
proof fn reveal_texts()
    ensures
        "A"@.len() == 1 && "A"@[0] == 'A',
        "B"@.len() == 1 && "B"@[0] == 'B',
        "C"@.len() == 1 && "C"@[0] == 'C',
        "D"@.len() == 1 && "D"@[0] == 'D',
        "Smith Machine Squat"@.len() == 19,
        "Leg Press Horizontal"@.len() == 20,
        "Leg Curl Machine"@.len() == 16,
        "Glute Machine"@.len() == 13,
        "Glute Leg Raise"@.len() == 15,
        "Plank"@.len() == 5,
        "Free Weight Squat"@.len() == 17,
        "Leg Press 45 degrees"@.len() == 20 && "Leg Press 45 degrees"@[0] == 'L',
        "Hip Abductor Machine"@.len() == 20 && "Hip Abductor Machine"@[0] == 'H'
            && "Hip Abductor Machine"@[5] == 'b',
        "Hip Adductor Machine"@.len() == 20 && "Hip Adductor Machine"@[0] == 'H'
            && "Hip Adductor Machine"@[5] == 'd',
        "Side Plank"@.len() == 10,
        "Ab Crunch Machine"@.len() == 17,
        "Leg Raise"@.len() == 9,
        "Cardio"@.len() == 6,
        "Sumo Squat"@.len() == 10,
{
    reveal_strlit("A");
    reveal_strlit("B");
    reveal_strlit("C");
    reveal_strlit("D");
    reveal_strlit("Smith Machine Squat");
    reveal_strlit("Leg Press Horizontal");
    reveal_strlit("Leg Curl Machine");
    reveal_strlit("Glute Machine");
    reveal_strlit("Glute Leg Raise");
    reveal_strlit("Plank");
    reveal_strlit("Free Weight Squat");
    reveal_strlit("Leg Press 45 degrees");
    reveal_strlit("Hip Abductor Machine");
    reveal_strlit("Hip Adductor Machine");
    reveal_strlit("Side Plank");
    reveal_strlit("Ab Crunch Machine");
    reveal_strlit("Leg Raise");
    reveal_strlit("Cardio");
    reveal_strlit("Sumo Squat");
}

/// The built-in workout is a catalog: its identifiers are distinct, and so
/// are the exercise names of each training.
pub proof fn lemma_workout_well_formed()
    ensures
        well_formed(workout()),
{
    reveal_texts();
    let ids = identifiers(workout());
    assert(ids =~= seq!["A"@, "B"@, "C"@, "D"@]);
    assert(ids.no_duplicates());
    let a = names(workout_a().exercises);
    assert(a =~= seq![
        "Smith Machine Squat"@,
        "Leg Press Horizontal"@,
        "Leg Curl Machine"@,
        "Glute Machine"@,
        "Glute Leg Raise"@,
        "Plank"@,
    ]);
    assert(a.no_duplicates());
    let b = names(workout_b().exercises);
    assert(b =~= seq![
        "Free Weight Squat"@,
        "Leg Press 45 degrees"@,
        "Hip Abductor Machine"@,
        "Hip Adductor Machine"@,
        "Glute Machine"@,
        "Glute Leg Raise"@,
        "Side Plank"@,
    ]);
    assert(b.no_duplicates());
    let c = names(workout_c().exercises);
    assert(c =~= seq![
        "Side Plank"@,
        "Plank"@,
        "Ab Crunch Machine"@,
        "Leg Raise"@,
        "Cardio"@,
    ]);
    assert(c.no_duplicates());
    let d = names(workout_d().exercises);
    assert(d =~= seq![
        "Sumo Squat"@,
        "Leg Press Horizontal"@,
        "Leg Curl Machine"@,
        "Glute Machine"@,
        "Glute Leg Raise"@,
        "Plank"@,
    ]);
    assert(d.no_duplicates());
    assert forall|i: int| 0 <= i < workout().len() implies (#[trigger] names(
        workout()[i].exercises,
    )).no_duplicates() by {
        if i == 0 {
            assert(workout()[i] == workout_a());
        } else if i == 1 {
            assert(workout()[i] == workout_b());
        } else if i == 2 {
            assert(workout()[i] == workout_c());
        } else {
            assert(workout()[i] == workout_d());
        }
    }
}

/// An exercise of `sets` sets of `repetitions` repetitions, without load.
fn make_counted(name: &str, sets: u8, repetitions: u8) -> (exercise: Exercise)
    ensures
        exercise@ == counted(name@, sets, repetitions),
{
    Exercise {
        name: String::from_str(name),
        serie: Serie::Repetitions(RepetitionSerie { sets, repetitions, load: None }),
    }
}

/// An exercise held for `time_in_seconds`, three sets of it.
fn make_held(name: &str, time_in_seconds: u16) -> (exercise: Exercise)
    ensures
        exercise@ == held(name@, time_in_seconds),
{
    Exercise {
        name: String::from_str(name),
        serie: Serie::Continuous(ContinuousSerie { time_in_seconds, sets: Some(3) }),
    }
}

/// Training `A`.
fn training_a() -> (training: Training)
    ensures
        training@ == workout_a(),
{
    let exercises = vec![
        make_counted("Smith Machine Squat", 4, 10),
        make_counted("Leg Press Horizontal", 3, 12),
        make_counted("Leg Curl Machine", 3, 12),
        make_counted("Glute Machine", 3, 12),
        make_counted("Glute Leg Raise", 3, 12),
        make_held("Plank", 30),
    ];
    let training = Training { identifier: String::from_str("A"), exercises };
    assert(training@.exercises =~= workout_a().exercises);
    training
}

/// Training `B`.
fn training_b() -> (training: Training)
    ensures
        training@ == workout_b(),
{
    let exercises = vec![
        make_counted("Free Weight Squat", 4, 10),
        make_counted("Leg Press 45 degrees", 3, 12),
        make_counted("Hip Abductor Machine", 3, 12),
        make_counted("Hip Adductor Machine", 3, 12),
        make_counted("Glute Machine", 3, 12),
        make_counted("Glute Leg Raise", 3, 12),
        make_held("Side Plank", 30),
    ];
    let training = Training { identifier: String::from_str("B"), exercises };
    assert(training@.exercises =~= workout_b().exercises);
    training
}

/// Training `C`.
fn training_c() -> (training: Training)
    ensures
        training@ == workout_c(),
{
    let exercises = vec![
        make_held("Side Plank", 30),
        make_held("Plank", 30),
        make_counted("Ab Crunch Machine", 3, 15),
        make_counted("Leg Raise", 3, 12),
        make_counted("Cardio", 3, 12),
    ];
    let training = Training { identifier: String::from_str("C"), exercises };
    assert(training@.exercises =~= workout_c().exercises);
    training
}

/// Training `D`.
fn training_d() -> (training: Training)
    ensures
        training@ == workout_d(),
{
    let exercises = vec![
        make_counted("Sumo Squat", 4, 10),
        make_counted("Leg Press Horizontal", 3, 12),
        make_counted("Leg Curl Machine", 3, 12),
        make_counted("Glute Machine", 3, 12),
        make_counted("Glute Leg Raise", 3, 12),
        make_held("Plank", 30),
    ];
    let training = Training { identifier: String::from_str("D"), exercises };
    assert(training@.exercises =~= workout_d().exercises);
    training
}

/// The trainings of the built-in workout, in order.
pub fn trainings() -> (trainings: Vec<Training>)
    ensures
        trainings_view(trainings@) == workout(),
{
    let trainings = vec![training_a(), training_b(), training_c(), training_d()];
    assert(trainings_view(trainings@) =~= workout());
    trainings
}

/// The built-in workout as a catalog.
pub fn catalog() -> (catalog: Catalog)
    ensures
        catalog@ == workout(),
{
    proof {
        lemma_workout_well_formed();
    }
    match Catalog::load(trainings()) {
        Ok(catalog) => catalog,
        Err(_) => unreached(),
    }
}

} // verus!
