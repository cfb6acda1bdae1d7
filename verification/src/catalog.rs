//! The catalog: trainings under distinct identifiers, each with exercises
//! under distinct names.

use crate::search::{lemma_first_occurrence, lemma_no_occurrence};
use crate::training::{Exercise, ExerciseView, Training, TrainingView, trainings_view};
use vstd::prelude::*;

verus! {

/// The identifiers of a list of trainings, in order.
pub open spec fn identifiers(trainings: Seq<TrainingView>) -> Seq<Seq<char>> {
    Seq::new(trainings.len(), |i: int| trainings[i].identifier)
}

/// The names of a list of exercises, in order.
pub open spec fn names(exercises: Seq<ExerciseView>) -> Seq<Seq<char>> {
    Seq::new(exercises.len(), |i: int| exercises[i].name)
}

/// Every training has exercises under distinct names.
pub open spec fn distinct_exercises(trainings: Seq<TrainingView>) -> bool {
    forall|i: int|
        0 <= i < trainings.len() ==> (#[trigger] names(trainings[i].exercises)).no_duplicates()
}

/// What a catalog demands of its trainings: no identifier twice, and within
/// a training no exercise name twice.
pub open spec fn well_formed(trainings: Seq<TrainingView>) -> bool {
    identifiers(trainings).no_duplicates() && distinct_exercises(trainings)
}

/// The first training under `identifier`, if there is one.
pub open spec fn find_training(trainings: Seq<TrainingView>, identifier: Seq<char>) -> Option<
    TrainingView,
> {
    match identifiers(trainings).index_of_first(identifier) {
        Some(i) => Some(trainings[i]),
        None => None,
    }
}

/// The first exercise under `name`, if there is one.
pub open spec fn find_exercise(exercises: Seq<ExerciseView>, name: Seq<char>) -> Option<
    ExerciseView,
> {
    match names(exercises).index_of_first(name) {
        Some(i) => Some(exercises[i]),
        None => None,
    }
}

/// Why a list of trainings is no catalog.
#[derive(Clone, Copy, Debug, PartialEq, Eq)]
pub enum CatalogLoadError {
    /// Two trainings share an identifier.
    DuplicateTraining,
    /// The identifiers are distinct, but two exercises of one training share
    /// a name.
    DuplicateExercise,
}

/// Trainings in a fixed order, read-only once loaded.
#[derive(Debug, PartialEq, Eq)]
pub struct Catalog {
    trainings: Vec<Training>,
}

impl View for Catalog {
    type V = Seq<TrainingView>;

    closed spec fn view(&self) -> Seq<TrainingView> {
        trainings_view(self.trainings@)
    }
}

/// Whether `texts[i]` equals one of the texts before it.
fn repeats_earlier(texts: &Vec<&String>, i: usize) -> (found: bool)
    requires
        i < texts@.len(),
    ensures
        found <==> exists|j: int| 0 <= j < i && texts@[j]@ == texts@[i as int]@,
{
    let mut j: usize = 0;
    while j < i
        invariant
            j <= i < texts@.len(),
            forall|k: int| 0 <= k < j ==> texts@[k]@ != texts@[i as int]@,
        decreases i - j,
    {
        if *texts[j] == *texts[i] {
            return true;
        }
        j += 1;
    }
    false
}

/// Whether no text occurs twice.
fn all_distinct(texts: &Vec<&String>) -> (distinct: bool)
    ensures
        distinct <==> Seq::new(texts@.len(), |i: int| texts@[i]@).no_duplicates(),
{
    let ghost views = Seq::new(texts@.len(), |i: int| texts@[i]@);
    let mut i: usize = 0;
    while i < texts.len()
        invariant
            i <= texts@.len(),
            views == Seq::new(texts@.len(), |i: int| texts@[i]@),
            forall|a: int, b: int| 0 <= a < b < i ==> views[a] != views[b],
        decreases texts@.len() - i,
    {
        if repeats_earlier(texts, i) {
            proof {
                let j = choose|j: int| 0 <= j < i && texts@[j]@ == texts@[i as int]@;
                assert(views[j] == views[i as int]);
            }
            return false;
        }
        i += 1;
    }
    proof {
        assert forall|a: int, b: int|
            0 <= a < views.len() && 0 <= b < views.len() && a != b implies views[a] != views[b] by {
            if a < b {
            } else {
                assert(views[b] != views[a]);
            }
        }
    }
    true
}

impl Training {
    /// The exercise under `name`.
    pub fn exercise(&self, name: &str) -> (found: Option<&Exercise>)
        ensures
            match found {
                Some(exercise) => find_exercise(self@.exercises, name@) == Some(exercise@),
                None => find_exercise(self@.exercises, name@) is None,
            },
    {
        let wanted = name.to_owned();
        let mut i: usize = 0;
        while i < self.exercises.len()
            invariant
                i <= self.exercises@.len(),
                wanted@ == name@,
                forall|j: int| 0 <= j < i ==> names(self@.exercises)[j] != name@,
            decreases self.exercises@.len() - i,
        {
            if self.exercises[i].name == wanted {
                proof {
                    lemma_first_occurrence(names(self@.exercises), name@, i as int);
                }
                return Some(&self.exercises[i]);
            }
            i += 1;
        }
        proof {
            lemma_no_occurrence(names(self@.exercises), name@);
        }
        None
    }

    /// Whether no two exercises share a name.
    pub fn has_distinct_exercises(&self) -> (distinct: bool)
        ensures
            distinct <==> names(self@.exercises).no_duplicates(),
    {
        let mut texts: Vec<&String> = Vec::new();
        let mut i: usize = 0;
        while i < self.exercises.len()
            invariant
                i <= self.exercises@.len(),
                texts@.len() == i,
                forall|j: int| 0 <= j < i ==> texts@[j]@ == self.exercises@[j].name@,
            decreases self.exercises@.len() - i,
        {
            texts.push(&self.exercises[i].name);
            i += 1;
        }
        assert(Seq::new(texts@.len(), |i: int| texts@[i]@) =~= names(self@.exercises));
        all_distinct(&texts)
    }
}

impl Catalog {
    #[verifier::type_invariant]
    spec fn valid(&self) -> bool {
        well_formed(trainings_view(self.trainings@))
    }

    /// Makes a catalog of `trainings`, in their order, unless an identifier
    /// or, within a training, an exercise name occurs twice.
    pub fn load(trainings: Vec<Training>) -> (loaded: Result<Catalog, CatalogLoadError>)
        ensures
            match loaded {
                Ok(catalog) => well_formed(trainings_view(trainings@)) && catalog@
                    == trainings_view(trainings@),
                Err(CatalogLoadError::DuplicateTraining) => !identifiers(
                    trainings_view(trainings@),
                ).no_duplicates(),
                Err(CatalogLoadError::DuplicateExercise) => identifiers(
                    trainings_view(trainings@),
                ).no_duplicates() && !distinct_exercises(trainings_view(trainings@)),
            },
    {
        let ghost views = trainings_view(trainings@);
        let mut texts: Vec<&String> = Vec::new();
        let mut i: usize = 0;
        while i < trainings.len()
            invariant
                i <= trainings@.len(),
                texts@.len() == i,
                forall|j: int| 0 <= j < i ==> texts@[j]@ == trainings@[j].identifier@,
            decreases trainings@.len() - i,
        {
            texts.push(&trainings[i].identifier);
            i += 1;
        }
        assert(Seq::new(texts@.len(), |i: int| texts@[i]@) =~= identifiers(views));
        if !all_distinct(&texts) {
            return Err(CatalogLoadError::DuplicateTraining);
        }
        let mut k: usize = 0;
        while k < trainings.len()
            invariant
                k <= trainings@.len(),
                views == trainings_view(trainings@),
                identifiers(views).no_duplicates(),
                forall|j: int| 0 <= j < k ==> (#[trigger] names(views[j].exercises)).no_duplicates(),
            decreases trainings@.len() - k,
        {
            if !trainings[k].has_distinct_exercises() {
                assert(!names(views[k as int].exercises).no_duplicates());
                return Err(CatalogLoadError::DuplicateExercise);
            }
            k += 1;
        }
        Ok(Catalog { trainings })
    }

    /// The trainings, in catalog order.
    pub fn trainings(&self) -> (trainings: &Vec<Training>)
        ensures
            trainings_view(trainings@) == self@,
            well_formed(self@),
    {
        proof {
            use_type_invariant(self);
        }
        &self.trainings
    }

    /// The training under `identifier`.
    pub fn lookup(&self, identifier: &str) -> (found: Option<&Training>)
        ensures
            match found {
                Some(training) => find_training(self@, identifier@) == Some(training@),
                None => find_training(self@, identifier@) is None,
            },
    {
        let wanted = identifier.to_owned();
        let mut i: usize = 0;
        while i < self.trainings.len()
            invariant
                i <= self.trainings@.len(),
                wanted@ == identifier@,
                forall|j: int| 0 <= j < i ==> identifiers(self@)[j] != identifier@,
            decreases self.trainings@.len() - i,
        {
            if self.trainings[i].identifier == wanted {
                proof {
                    lemma_first_occurrence(identifiers(self@), identifier@, i as int);
                }
                return Some(&self.trainings[i]);
            }
            i += 1;
        }
        proof {
            lemma_no_occurrence(identifiers(self@), identifier@);
        }
        None
    }
}

impl Clone for Catalog {
    /// A copy that later changes to the source cannot reach.
    fn clone(&self) -> (copy: Self)
        ensures
            copy@ == self@,
    {
        proof {
            use_type_invariant(self);
        }
        let mut trainings: Vec<Training> = Vec::new();
        let mut i: usize = 0;
        while i < self.trainings.len()
            invariant
                i <= self.trainings@.len(),
                trainings@.len() == i,
                forall|j: int| 0 <= j < i ==> trainings@[j]@ == self.trainings@[j]@,
            decreases self.trainings@.len() - i,
        {
            trainings.push(self.trainings[i].clone());
            i += 1;
        }
        assert(trainings_view(trainings@) =~= trainings_view(self.trainings@));
        Catalog { trainings }
    }
}

} // verus!
