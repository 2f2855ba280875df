//! The recruiter's custom question set: a store with a single slot, which
//! every write overwrites.

use crate::stamp::{fresh_id, is_random_uuid_text, now, Timestamp};
use vstd::prelude::*;

verus! {

/// The question set a recruiter posts.
#[derive(Clone, Debug, PartialEq, Eq)]
pub struct RecruiterRequest {
    pub custom_question: String,
    pub mcq_question: String,
    pub mcq_options: Vec<String>,
    pub mcq_correct: String,
}

/// A posted question set, as stored.
#[derive(Debug, PartialEq, Eq)]
pub struct RecruiterInput {
    pub id: String,
    pub custom_question: String,
    pub mcq_question: String,
    pub mcq_options: Vec<String>,
    pub mcq_correct: String,
    pub created_at: Timestamp,
}

/// The content of a question set: a free-text question and a multiple-choice
/// question with its options, in order, and the correct option.
pub struct QuestionSet {
    pub custom_question: Seq<char>,
    pub mcq_question: Seq<char>,
    pub mcq_options: Seq<Seq<char>>,
    pub mcq_correct: Seq<char>,
}

/// The content of a stored question set.
pub struct NoteView {
    pub id: Seq<char>,
    pub questions: QuestionSet,
    pub created_at: Timestamp,
}

/// The texts of a list of strings, in order.
pub open spec fn texts(strings: Seq<String>) -> Seq<Seq<char>> {
    strings.map_values(|s: String| s@)
}

impl View for RecruiterRequest {
    type V = QuestionSet;

    open spec fn view(&self) -> QuestionSet {
        QuestionSet {
            custom_question: self.custom_question@,
            mcq_question: self.mcq_question@,
            mcq_options: texts(self.mcq_options@),
            mcq_correct: self.mcq_correct@,
        }
    }
}

impl View for RecruiterInput {
    type V = NoteView;

    open spec fn view(&self) -> NoteView {
        NoteView {
            id: self.id@,
            questions: QuestionSet {
                custom_question: self.custom_question@,
                mcq_question: self.mcq_question@,
                mcq_options: texts(self.mcq_options@),
                mcq_correct: self.mcq_correct@,
            },
            created_at: self.created_at,
        }
    }
}

impl Clone for RecruiterInput {
    fn clone(&self) -> (copy: Self)
        ensures
            copy@ == self@,
    {
        RecruiterInput {
            id: self.id.clone(),
            custom_question: self.custom_question.clone(),
            mcq_question: self.mcq_question.clone(),
            mcq_options: self.mcq_options.clone(),
            mcq_correct: self.mcq_correct.clone(),
            created_at: self.created_at,
        }
    }
}

/// Builds the stored form of a posted question set: the questions as posted,
/// under the given identifier and creation time.
pub fn make_note(request: RecruiterRequest, id: String, created_at: Timestamp) -> (note:
    RecruiterInput)
    ensures
        note@ == (NoteView { id: id@, questions: request@, created_at }),
{
    RecruiterInput {
        id,
        custom_question: request.custom_question,
        mcq_question: request.mcq_question,
        mcq_options: request.mcq_options,
        mcq_correct: request.mcq_correct,
        created_at,
    }
}

/// The content of the store after a write: the note written, whatever was
/// there before.
pub open spec fn after_set(before: Option<NoteView>, note: NoteView) -> Option<NoteView> {
    Some(note)
}

/// Every write overwrites: after two writes in a row the store holds the
/// second note and nothing of the first, whatever it held before.
pub proof fn lemma_last_write_wins(before: Option<NoteView>, first: NoteView, second: NoteView)
    ensures
        after_set(after_set(before, first), second) == Some(second),
{
}

/// The single-slot store of the current question set.
pub struct NoteStore {
    notes: Vec<RecruiterInput>,
}

impl View for NoteStore {
    type V = Option<NoteView>;

    closed spec fn view(&self) -> Option<NoteView> {
        if self.notes@.len() == 0 {
            None
        } else {
            Some(self.notes@[0]@)
        }
    }
}

impl NoteStore {
    #[verifier::type_invariant]
    spec fn at_most_one(self) -> bool {
        self.notes@.len() <= 1
    }

    /// An empty store.
    pub fn new() -> (store: NoteStore)
        ensures
            store@ is None,
    {
        NoteStore { notes: Vec::new() }
    }

    /// The number of notes held: 1 if one has been set, else 0.
    pub fn len(&self) -> (n: usize)
        ensures
            n == (if self@ is Some {
                1nat
            } else {
                0nat
            }),
    {
        proof {
            use_type_invariant(self);
        }
        self.notes.len()
    }

    /// Replaces whatever is stored by `note`.
    pub fn set(&mut self, note: RecruiterInput)
        ensures
            final(self)@ == after_set(old(self)@, note@),
    {
        let mut notes: Vec<RecruiterInput> = Vec::new();
        notes.push(note);
        self.notes = notes;
    }

    /// The current note, if one has been set.
    pub fn get(&self) -> (current: Option<&RecruiterInput>)
        ensures
            match current {
                Some(note) => self@ == Some(note@),
                None => self@ is None,
            },
    {
        if self.notes.len() == 0 {
            None
        } else {
            Some(&self.notes[0])
        }
    }
}

/// What the candidate portal is told about the custom question set.
#[derive(Clone, Debug, PartialEq, Eq)]
pub struct RecruiterStatus {
    pub has_custom: bool,
    pub input: Option<RecruiterInput>,
}

/// What a [`RecruiterStatus`] holds, as plain values.
pub struct StatusView {
    pub has_custom: bool,
    pub input: Option<NoteView>,
}

impl View for RecruiterStatus {
    type V = StatusView;

    open spec fn view(&self) -> StatusView {
        StatusView {
            has_custom: self.has_custom,
            input: match self.input {
                Some(note) => Some(note@),
                None => None,
            },
        }
    }
}

/// The status reported for a store: the current note, and whether there is
/// one.
pub open spec fn status_of(stored: Option<NoteView>) -> StatusView {
    StatusView { has_custom: stored is Some, input: stored }
}

/// Makes the stored form of a posted question set under a fresh identifier
/// and the current time. No store is touched, so a caller that shares its
/// store can make the note first and hold the store for the write alone.
pub fn new_note(request: RecruiterRequest) -> (note: RecruiterInput)
    ensures
        note@.questions == request@,
        is_random_uuid_text(note@.id),
        note@.created_at.well_formed(),
{
    make_note(request, fresh_id(), now())
}

/// Stores a posted question set in a store that the caller owns: makes the
/// note as [`new_note`] does, replaces the previous one by it and returns
/// what was stored.
pub fn recruiter_input(store: &mut NoteStore, request: RecruiterRequest) -> (note: RecruiterInput)
    ensures
        note@.questions == request@,
        is_random_uuid_text(note@.id),
        note@.created_at.well_formed(),
        final(store)@ == after_set(old(store)@, note@),
{
    let note = new_note(request);
    store.set(note.clone());
    note
}

/// Reports the current question set: whether there is one, and which.
pub fn get_recruiter_input(store: &NoteStore) -> (status: RecruiterStatus)
    ensures
        status@ == status_of(store@),
{
    match store.get() {
        Some(note) => RecruiterStatus { has_custom: true, input: Some(note.clone()) },
        None => RecruiterStatus { has_custom: false, input: None },
    }
}

} // verus!
