//! Trainings, their exercises, and how an exercise's series reads.

use crate::decimal::{
    decimal,
    digit_char,
    is_digit,
    lemma_decimal_is_digits,
    push_decimal,
    push_digit,
};
use vstd::prelude::*;
use vstd::string::StringExecFns;

verus! {

/// A weight in hundredths of a unit, so that `3750` is a load of 37.50.
#[derive(Clone, Copy, Debug, PartialEq, Eq)]
pub struct Load {
    pub hundredths: u64,
}

/// A number of sets of a number of repetitions, with or without a weight.
#[derive(Clone, Copy, Debug, PartialEq, Eq)]
pub struct RepetitionSerie {
    pub sets: u8,
    pub repetitions: u8,
    /// Absent for a bodyweight exercise.
    pub load: Option<Load>,
}

/// An effort held for a time, once or for a number of sets.
#[derive(Clone, Copy, Debug, PartialEq, Eq)]
pub struct ContinuousSerie {
    pub time_in_seconds: u16,
    /// Absent or zero for a single effort that is not repeated.
    pub sets: Option<u8>,
}

/// How an exercise is performed.
#[derive(Clone, Copy, Debug, PartialEq, Eq)]
pub enum Serie {
    Repetitions(RepetitionSerie),
    Continuous(ContinuousSerie),
}

/// A named movement and its series.
#[derive(Debug, PartialEq, Eq)]
pub struct Exercise {
    pub name: String,
    pub serie: Serie,
}

/// A named workout: an ordered list of exercises.
#[derive(Debug, PartialEq, Eq)]
pub struct Training {
    pub identifier: String,
    pub exercises: Vec<Exercise>,
}

/// What an [`Exercise`] holds, as mathematical values.
pub struct ExerciseView {
    pub name: Seq<char>,
    pub serie: Serie,
}

/// What a [`Training`] holds, as mathematical values.
pub struct TrainingView {
    pub identifier: Seq<char>,
    pub exercises: Seq<ExerciseView>,
}

impl View for Exercise {
    type V = ExerciseView;

    open spec fn view(&self) -> ExerciseView {
        ExerciseView { name: self.name@, serie: self.serie }
    }
}

impl View for Training {
    type V = TrainingView;

    open spec fn view(&self) -> TrainingView {
        TrainingView {
            identifier: self.identifier@,
            exercises: Seq::new(self.exercises@.len(), |i: int| self.exercises@[i]@),
        }
    }
}

/// The views of a list of trainings, in order.
pub open spec fn trainings_view(trainings: Seq<Training>) -> Seq<TrainingView> {
    Seq::new(trainings.len(), |i: int| trainings[i]@)
}

/// A load with exactly two decimal digits: `3750` reads `37.50`, `5` reads `0.05`.
pub open spec fn load_text(load: Load) -> Seq<char> {
    decimal(load.hundredths as nat / 100).push('.').push(
        digit_char(load.hundredths as nat % 100 / 10),
    ).push(digit_char(load.hundredths as nat % 10))
}

/// `"{sets} sets of {repetitions} repetitions"`.
pub open spec fn repetition_head(serie: RepetitionSerie) -> Seq<char> {
    decimal(serie.sets as nat) + " sets of "@ + decimal(serie.repetitions as nat)
        + " repetitions"@
}

/// `" with load of {load}"` where there is a load, nothing where there is
/// none.
pub open spec fn load_suffix(load: Option<Load>) -> Seq<char> {
    match load {
        Some(load) => " with load of "@ + load_text(load),
        None => Seq::empty(),
    }
}

/// The counts, followed by the load where there is one.
pub open spec fn repetition_text(serie: RepetitionSerie) -> Seq<char> {
    repetition_head(serie) + load_suffix(serie.load)
}

/// Whole minutes alone where the seconds divide by sixty, else minutes and
/// the seconds that remain.
pub open spec fn duration_text(seconds: u16) -> Seq<char> {
    if seconds % 60 == 0 {
        decimal(seconds as nat / 60) + " minutes"@
    } else {
        decimal(seconds as nat / 60) + " minutes and "@ + decimal(seconds as nat % 60)
            + " seconds"@
    }
}

/// Whether the effort is repeated: a number of sets that is not zero.
pub open spec fn repeated_sets(serie: ContinuousSerie) -> Option<u8> {
    match serie.sets {
        Some(sets) => if sets != 0 {
            Some(sets)
        } else {
            None
        },
        None => None,
    }
}

/// `"{sets} sets of {time}"` for a repeated effort, `"for {time}"` for a
/// single one.
pub open spec fn continuous_text(serie: ContinuousSerie) -> Seq<char> {
    match repeated_sets(serie) {
        Some(sets) => decimal(sets as nat) + " sets of "@ + duration_text(serie.time_in_seconds),
        None => "for "@ + duration_text(serie.time_in_seconds),
    }
}

/// The description of a series, by its variant.
pub open spec fn serie_text(serie: Serie) -> Seq<char> {
    match serie {
        Serie::Repetitions(serie) => repetition_text(serie),
        Serie::Continuous(serie) => continuous_text(serie),
    }
}

/// A load reads as a numeral, a point, and exactly two digits.
pub proof fn lemma_load_has_two_decimals(load: Load)
    ensures
        load_text(load).len() == decimal(load.hundredths as nat / 100).len() + 3,
        load_text(load).subrange(0, load_text(load).len() - 3) == decimal(
            load.hundredths as nat / 100,
        ),
        load_text(load)[load_text(load).len() - 3] == '.',
        is_digit(load_text(load)[load_text(load).len() - 2]),
        is_digit(load_text(load)[load_text(load).len() - 1]),
{
    let whole = decimal(load.hundredths as nat / 100);
    lemma_decimal_is_digits(load.hundredths as nat / 100);
    assert(load_text(load).subrange(0, load_text(load).len() - 3) =~= whole);
    assert(is_digit(digit_char(load.hundredths as nat % 100 / 10)));
    assert(is_digit(digit_char(load.hundredths as nat % 10)));
}

/// The description of a repetition series goes beyond the counts exactly
/// when the series has a load.
pub proof fn lemma_load_shown_iff_present(serie: RepetitionSerie)
    ensures
        serie.load is Some <==> repetition_text(serie).len() > repetition_head(serie).len(),
        serie.load is None <==> repetition_text(serie) == repetition_head(serie),
{
    match serie.load {
        Some(load) => {
            lemma_load_has_two_decimals(load);
        },
        None => {
            assert(repetition_text(serie) =~= repetition_head(serie));
        },
    }
}

impl Load {
    /// The load with two decimal digits.
    pub fn format(&self) -> (text: String)
        ensures
            text@ == load_text(*self),
    {
        let mut text = String::new();
        push_decimal(&mut text, self.hundredths / 100);
        text.append(".");
        push_digit(&mut text, self.hundredths % 100 / 10);
        push_digit(&mut text, self.hundredths % 10);
        proof {
            reveal_strlit(".");
            assert(text@ =~= load_text(*self));
        }
        text
    }
}

impl RepetitionSerie {
    /// The description shown to the user.
    pub fn format(&self) -> (text: String)
        ensures
            text@ == repetition_text(*self),
    {
        let mut text = String::new();
        push_decimal(&mut text, self.sets as u64);
        text.append(" sets of ");
        push_decimal(&mut text, self.repetitions as u64);
        text.append(" repetitions");
        match self.load {
            Some(load) => {
                text.append(" with load of ");
                let load_text = load.format();
                text.append(load_text.as_str());
                assert(text@ =~= repetition_text(*self));
            },
            None => {
                assert(text@ =~= repetition_text(*self));
            },
        }
        text
    }
}

/// Appends the time text of `seconds` to `out`.
fn push_duration(out: &mut String, seconds: u16)
    ensures
        final(out)@ == old(out)@ + duration_text(seconds),
{
    push_decimal(out, (seconds / 60) as u64);
    if seconds % 60 == 0 {
        out.append(" minutes");
    } else {
        out.append(" minutes and ");
        push_decimal(out, (seconds % 60) as u64);
        out.append(" seconds");
    }
    assert(out@ =~= old(out)@ + duration_text(seconds));
}

impl ContinuousSerie {
    /// The description shown to the user.
    pub fn format(&self) -> (text: String)
        ensures
            text@ == continuous_text(*self),
    {
        let mut text = String::new();
        match self.sets {
            Some(sets) if sets != 0 => {
                push_decimal(&mut text, sets as u64);
                text.append(" sets of ");
            },
            _ => {
                text.append("for ");
            },
        }
        push_duration(&mut text, self.time_in_seconds);
        assert(text@ =~= continuous_text(*self));
        text
    }
}

impl Serie {
    /// The description shown to the user.
    pub fn format(&self) -> (text: String)
        ensures
            text@ == serie_text(*self),
    {
        match self {
            Serie::Repetitions(serie) => serie.format(),
            Serie::Continuous(serie) => serie.format(),
        }
    }
}

impl Clone for Exercise {
    fn clone(&self) -> (copy: Self)
        ensures
            copy@ == self@,
    {
        Exercise { name: self.name.clone(), serie: self.serie }
    }
}

impl Clone for Training {
    fn clone(&self) -> (copy: Self)
        ensures
            copy@ == self@,
    {
        let mut exercises: Vec<Exercise> = Vec::new();
        let mut i: usize = 0;
        while i < self.exercises.len()
            invariant
                i <= self.exercises@.len(),
                exercises@.len() == i,
                forall|j: int| 0 <= j < i ==> exercises@[j]@ == self.exercises@[j]@,
            decreases self.exercises@.len() - i,
        {
            exercises.push(self.exercises[i].clone());
            i += 1;
        }
        let copy = Training { identifier: self.identifier.clone(), exercises };
        assert(copy@.exercises =~= self@.exercises);
        copy
    }
}

} // verus!
