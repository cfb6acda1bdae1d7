//! Button payloads: a short tag and the identifiers it applies to, joined
//! by colons.
//!
//! The last field of a payload runs to the end of the text, so a colon
//! inside it is kept rather than cut off. A colon inside a training
//! identifier that an exercise name follows cannot be told from the
//! separator: such a payload decodes to another action than was encoded.

use crate::search::{lemma_first_occurrence, lemma_no_occurrence};
use vstd::prelude::*;
use vstd::string::{StrSliceExecFns, StringExecFns};

verus! {

/// What a button asks for.
#[derive(Debug, PartialEq, Eq)]
pub enum Action {
    /// Show the exercises of a training.
    SelectTraining { training: String },
    /// Show how an exercise of a training is performed.
    SelectExercise { training: String, exercise: String },
    /// Change the load of an exercise. Nothing answers it yet.
    ChangeLoad { training: String, exercise: String },
    /// Mark a training as completed. Nothing answers it yet.
    FinishExercise { training: String },
}

/// What an [`Action`] holds, as mathematical values.
pub enum ActionView {
    SelectTraining { training: Seq<char> },
    SelectExercise { training: Seq<char>, exercise: Seq<char> },
    ChangeLoad { training: Seq<char>, exercise: Seq<char> },
    FinishExercise { training: Seq<char> },
}

impl View for Action {
    type V = ActionView;

    open spec fn view(&self) -> ActionView {
        match self {
            Action::SelectTraining { training } => ActionView::SelectTraining {
                training: training@,
            },
            Action::SelectExercise { training, exercise } => ActionView::SelectExercise {
                training: training@,
                exercise: exercise@,
            },
            Action::ChangeLoad { training, exercise } => ActionView::ChangeLoad {
                training: training@,
                exercise: exercise@,
            },
            Action::FinishExercise { training } => ActionView::FinishExercise {
                training: training@,
            },
        }
    }
}

/// Why a callback got no answer of its own.
#[derive(Clone, Copy, Debug, PartialEq, Eq)]
pub enum CallbackError {
    /// The payload has an unknown tag or too few fields.
    MalformedCallback,
    /// No training stands under the identifier.
    UnknownTraining,
    /// The training has no exercise under the name.
    UnknownExercise,
}

/// The text before the first colon and the text after it, where there is a
/// colon.
pub open spec fn split_first(text: Seq<char>) -> Option<(Seq<char>, Seq<char>)> {
    match text.index_of_first(':') {
        Some(i) => Some((text.subrange(0, i), text.subrange(i + 1, text.len() as int))),
        None => None,
    }
}

/// The payload of an action: `T:{training}`, `E:{training}:{exercise}`,
/// `CL:{training}:{exercise}` or `FE:{training}`.
pub open spec fn encode_spec(action: ActionView) -> Seq<char> {
    match action {
        ActionView::SelectTraining { training } => seq!['T', ':'] + training,
        ActionView::SelectExercise { training, exercise } => seq!['E', ':'] + training + seq![':']
            + exercise,
        ActionView::ChangeLoad { training, exercise } => seq!['C', 'L', ':'] + training + seq![
            ':',
        ] + exercise,
        ActionView::FinishExercise { training } => seq!['F', 'E', ':'] + training,
    }
}

/// The action of a payload. The tag is what stands before the first colon.
/// After `T` and `FE` the rest is the training; after `E` and `CL` the rest
/// is split once more, at its first colon, into training and exercise.
pub open spec fn decode_spec(payload: Seq<char>) -> Option<ActionView> {
    match split_first(payload) {
        None => None,
        Some((tag, rest)) => if tag == seq!['T'] {
            Some(ActionView::SelectTraining { training: rest })
        } else if tag == seq!['F', 'E'] {
            Some(ActionView::FinishExercise { training: rest })
        } else if tag == seq!['E'] {
            match split_first(rest) {
                Some((training, exercise)) => Some(
                    ActionView::SelectExercise { training, exercise },
                ),
                None => None,
            }
        } else if tag == seq!['C', 'L'] {
            match split_first(rest) {
                Some((training, exercise)) => Some(ActionView::ChangeLoad { training, exercise }),
                None => None,
            }
        } else {
            None
        },
    }
}

/// Whether decoding gives the action back: always for the two actions on a
/// training alone; for the two on an exercise, where the training
/// identifier holds no colon.
pub open spec fn decodable(action: ActionView) -> bool {
    match action {
        ActionView::SelectTraining { training } => true,
        ActionView::SelectExercise { training, exercise } => !training.contains(':'),
        ActionView::ChangeLoad { training, exercise } => !training.contains(':'),
        ActionView::FinishExercise { training } => true,
    }
}

/// Splitting `head + ":" + tail` gives `head` and `tail`, where `head` holds
/// no colon.
pub proof fn lemma_split_joined(head: Seq<char>, tail: Seq<char>)
    requires
        !head.contains(':'),
    ensures
        split_first(head + seq![':'] + tail) == Some((head, tail)),
{
    let text = head + seq![':'] + tail;
    let i = head.len() as int;
    assert forall|j: int| 0 <= j < i implies text[j] != ':' by {
        assert(text[j] == head[j]);
        assert(head.contains(head[j]));
    }
    lemma_first_occurrence(text, ':', i);
    assert(text.subrange(0, i) =~= head);
    assert(text.subrange(i + 1, text.len() as int) =~= tail);
}

/// Decoding the payload of an action gives the action back, unless it is an
/// action on an exercise whose training identifier holds a colon.
pub proof fn lemma_decode_encode(action: ActionView)
    requires
        decodable(action),
    ensures
        decode_spec(encode_spec(action)) == Some(action),
{
    assert(!seq!['T'].contains(':'));
    assert(!seq!['E'].contains(':'));
    assert(!seq!['C', 'L'].contains(':'));
    assert(!seq!['F', 'E'].contains(':'));
    match action {
        ActionView::SelectTraining { training } => {
            lemma_split_joined(seq!['T'], training);
            assert(seq!['T'] + seq![':'] + training =~= encode_spec(action));
        },
        ActionView::SelectExercise { training, exercise } => {
            lemma_split_joined(seq!['E'], training + seq![':'] + exercise);
            lemma_split_joined(training, exercise);
            assert(seq!['E'] + seq![':'] + (training + seq![':'] + exercise) =~= encode_spec(
                action,
            ));
        },
        ActionView::ChangeLoad { training, exercise } => {
            lemma_split_joined(seq!['C', 'L'], training + seq![':'] + exercise);
            lemma_split_joined(training, exercise);
            assert(seq!['C', 'L'] + seq![':'] + (training + seq![':'] + exercise) =~= encode_spec(
                action,
            ));
            assert(seq!['C', 'L'] != seq!['T']) by {
                assert(seq!['C', 'L'].len() != seq!['T'].len());
            }
            assert(seq!['C', 'L'] != seq!['E']) by {
                assert(seq!['C', 'L'].len() != seq!['E'].len());
            }
            assert(seq!['C', 'L'] != seq!['F', 'E']) by {
                assert(seq!['C', 'L'][0] != seq!['F', 'E'][0]);
            }
        },
        ActionView::FinishExercise { training } => {
            lemma_split_joined(seq!['F', 'E'], training);
            assert(seq!['F', 'E'] + seq![':'] + training =~= encode_spec(action));
            assert(seq!['F', 'E'] != seq!['T']) by {
                assert(seq!['F', 'E'].len() != seq!['T'].len());
            }
        },
    }
    assert(seq!['E'] != seq!['T']) by {
        assert(seq!['E'][0] != seq!['T'][0]);
    }
    assert(seq!['E'] != seq!['F', 'E']) by {
        assert(seq!['E'].len() != seq!['F', 'E'].len());
    }
}

/// Two actions with the same payload are the same action, where both can
/// be decoded.
pub proof fn lemma_encode_injective(a: ActionView, b: ActionView)
    requires
        decodable(a),
        decodable(b),
        encode_spec(a) == encode_spec(b),
    ensures
        a == b,
{
    lemma_decode_encode(a);
    lemma_decode_encode(b);
}

/// Where the first colon of `text` stands.
fn find_colon(text: &str) -> (found: Option<usize>)
    ensures
        match found {
            Some(i) => text@.index_of_first(':') == Some(i as int),
            None => text@.index_of_first(':') is None,
        },
{
    let length = text.unicode_len();
    let mut i: usize = 0;
    while i < length
        invariant
            i <= length == text@.len(),
            forall|j: int| 0 <= j < i ==> text@[j] != ':',
        decreases length - i,
    {
        if text.get_char(i) == ':' {
            proof {
                lemma_first_occurrence(text@, ':', i as int);
            }
            return Some(i);
        }
        i += 1;
    }
    proof {
        lemma_no_occurrence(text@, ':');
    }
    None
}

/// The text before the first colon and the text after it.
fn split_once(text: &str) -> (parts: Option<(&str, &str)>)
    ensures
        match parts {
            Some((head, tail)) => split_first(text@) == Some((head@, tail@)),
            None => split_first(text@) is None,
        },
{
    match find_colon(text) {
        Some(i) => {
            proof {
                text@.index_of_first_ensures(':');
            }
            let length = text.unicode_len();
            Some((text.substring_char(0, i), text.substring_char(i + 1, length)))
        },
        None => None,
    }
}

/// Whether `text` is the one character `c`.
fn is_one(text: &str, c: char) -> (same: bool)
    ensures
        same <==> text@ == seq![c],
{
    let same = text.unicode_len() == 1 && text.get_char(0) == c;
    assert(same ==> text@ =~= seq![c]);
    same
}

/// Whether `text` is the two characters `c`, `d`.
fn is_two(text: &str, c: char, d: char) -> (same: bool)
    ensures
        same <==> text@ == seq![c, d],
{
    let same = text.unicode_len() == 2 && text.get_char(0) == c && text.get_char(1) == d;
    assert(same ==> text@ =~= seq![c, d]);
    same
}

impl Action {
    /// The payload to put on the button for this action.
    pub fn encode(&self) -> (payload: String)
        ensures
            payload@ == encode_spec(self@),
    {
        proof {
            reveal_strlit("T:");
            reveal_strlit("E:");
            reveal_strlit("CL:");
            reveal_strlit("FE:");
            reveal_strlit(":");
        }
        match self {
            Action::SelectTraining { training } => {
                let mut payload = String::from_str("T:");
                payload.append(training.as_str());
                assert(payload@ =~= encode_spec(self@));
                payload
            },
            Action::SelectExercise { training, exercise } => {
                let mut payload = String::from_str("E:");
                payload.append(training.as_str());
                payload.append(":");
                payload.append(exercise.as_str());
                assert(payload@ =~= encode_spec(self@));
                payload
            },
            Action::ChangeLoad { training, exercise } => {
                let mut payload = String::from_str("CL:");
                payload.append(training.as_str());
                payload.append(":");
                payload.append(exercise.as_str());
                assert(payload@ =~= encode_spec(self@));
                payload
            },
            Action::FinishExercise { training } => {
                let mut payload = String::from_str("FE:");
                payload.append(training.as_str());
                assert(payload@ =~= encode_spec(self@));
                payload
            },
        }
    }

    /// The action that a payload stands for, or
    /// [`CallbackError::MalformedCallback`] where it stands for none: no
    /// colon, a tag other than `T`, `E`, `CL` and `FE`, or no second colon
    /// after `E` or `CL`.
    pub fn decode(payload: &str) -> (decoded: Result<Action, CallbackError>)
        ensures
            match decoded {
                Ok(action) => decode_spec(payload@) == Some(action@),
                Err(error) => error == CallbackError::MalformedCallback && decode_spec(payload@)
                    is None,
            },
    {
        let (tag, rest) = match split_once(payload) {
            Some(parts) => parts,
            None => {
                return Err(CallbackError::MalformedCallback);
            },
        };
        if is_one(tag, 'T') {
            Ok(Action::SelectTraining { training: rest.to_owned() })
        } else if is_two(tag, 'F', 'E') {
            Ok(Action::FinishExercise { training: rest.to_owned() })
        } else if is_one(tag, 'E') {
            match split_once(rest) {
                Some((training, exercise)) => Ok(
                    Action::SelectExercise {
                        training: training.to_owned(),
                        exercise: exercise.to_owned(),
                    },
                ),
                None => Err(CallbackError::MalformedCallback),
            }
        } else if is_two(tag, 'C', 'L') {
            match split_once(rest) {
                Some((training, exercise)) => Ok(
                    Action::ChangeLoad {
                        training: training.to_owned(),
                        exercise: exercise.to_owned(),
                    },
                ),
                None => Err(CallbackError::MalformedCallback),
            }
        } else {
            Err(CallbackError::MalformedCallback)
        }
    }
}

} // verus!
