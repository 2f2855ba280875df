use assessment_backend::recruiter::{
    get_recruiter_input, make_note, new_note, recruiter_input, NoteStore, RecruiterInput,
    RecruiterRequest,
};
use assessment_backend::stamp::Timestamp;

fn questions(topic: &str) -> RecruiterRequest {
    RecruiterRequest {
        custom_question: format!("Describe {}", topic),
        mcq_question: format!("Which of these is {}?", topic),
        mcq_options: vec!["first".to_string(), "second".to_string(), "third".to_string()],
        mcq_correct: "second".to_string(),
    }
}

fn note(topic: &str, id: &str) -> RecruiterInput {
    make_note(questions(topic), id.to_string(), Timestamp { secs: 1, nanos: 2 })
}

#[test]
fn make_note_keeps_the_questions() {
    let made = make_note(questions("ownership"), "n-1".to_string(), Timestamp { secs: 10, nanos: 20 });
    assert_eq!(made.id, "n-1");
    assert_eq!(made.custom_question, "Describe ownership");
    assert_eq!(made.mcq_question, "Which of these is ownership?");
    assert_eq!(made.mcq_options, ["first", "second", "third"]);
    assert_eq!(made.mcq_correct, "second");
    assert_eq!(made.created_at, Timestamp { secs: 10, nanos: 20 });
}

#[test]
fn make_note_accepts_no_options() {
    let request = RecruiterRequest {
        custom_question: String::new(),
        mcq_question: String::new(),
        mcq_options: Vec::new(),
        mcq_correct: String::new(),
    };
    let made = make_note(request, String::new(), Timestamp { secs: 0, nanos: 0 });
    assert!(made.mcq_options.is_empty());
    assert_eq!(made.custom_question, "");
}

#[test]
fn note_clone_is_equal() {
    let made = note("traits", "n-2");
    assert_eq!(made.clone(), made);
}

#[test]
fn new_store_has_no_note() {
    let store = NoteStore::new();
    assert_eq!(store.len(), 0);
    assert!(store.get().is_none());
    let status = get_recruiter_input(&store);
    assert!(!status.has_custom);
    assert_eq!(status.input, None);
}

#[test]
fn set_then_get() {
    let mut store = NoteStore::new();
    store.set(note("lifetimes", "n-3"));
    assert_eq!(store.len(), 1);
    assert_eq!(store.get(), Some(&note("lifetimes", "n-3")));
    let status = get_recruiter_input(&store);
    assert!(status.has_custom);
    assert_eq!(status.input, Some(note("lifetimes", "n-3")));
}

#[test]
fn second_set_replaces_the_first() {
    let mut store = NoteStore::new();
    store.set(note("first topic", "n-1"));
    store.set(note("second topic", "n-2"));
    assert_eq!(store.len(), 1);
    assert_eq!(store.get(), Some(&note("second topic", "n-2")));
    let status = get_recruiter_input(&store);
    assert!(status.has_custom);
    assert_eq!(status.input, Some(note("second topic", "n-2")));
}

#[test]
fn store_never_holds_more_than_one_note() {
    let mut store = NoteStore::new();
    for k in 0..20 {
        store.set(note("topic", &format!("n-{}", k)));
        assert_eq!(store.len(), 1);
        assert_eq!(store.get().map(|n| n.id.clone()), Some(format!("n-{}", k)));
    }
}

#[test]
fn recruiter_input_stores_what_it_returns() {
    let mut store = NoteStore::new();
    let stored = recruiter_input(&mut store, questions("borrowing"));
    assert_eq!(stored.custom_question, "Describe borrowing");
    assert_eq!(stored.mcq_question, "Which of these is borrowing?");
    assert_eq!(stored.mcq_options, ["first", "second", "third"]);
    assert_eq!(stored.mcq_correct, "second");
    assert_eq!(stored.id.len(), 36);
    assert_eq!(stored.id.matches('-').count(), 4);
    assert!(stored.created_at.nanos < 1_000_000_000);
    assert!(stored.created_at.secs > 1_600_000_000);
    assert_eq!(store.get(), Some(&stored));
    assert_eq!(get_recruiter_input(&store).input, Some(stored));
}

#[test]
fn recruiter_input_overwrites_and_gives_fresh_identifiers() {
    let mut store = NoteStore::new();
    let first = recruiter_input(&mut store, questions("one"));
    let second = recruiter_input(&mut store, questions("two"));
    assert_ne!(first.id, second.id);
    assert_eq!(store.len(), 1);
    assert_eq!(store.get(), Some(&second));
    assert_eq!(get_recruiter_input(&store).input.map(|n| n.custom_question), Some("Describe two".to_string()));
}

#[test]
fn new_note_touches_no_store() {
    let made = new_note(questions("closures"));
    assert_eq!(made.custom_question, "Describe closures");
    assert_eq!(made.mcq_question, "Which of these is closures?");
    assert_eq!(made.mcq_options, ["first", "second", "third"]);
    assert_eq!(made.mcq_correct, "second");
    assert_eq!(made.id.len(), 36);
    assert_eq!(made.id.matches('-').count(), 4);
    assert!(made.created_at.nanos < 1_000_000_000);
    assert!(made.created_at.secs > 1_600_000_000);
    assert_ne!(new_note(questions("closures")).id, made.id);
    let mut store = NoteStore::new();
    store.set(made.clone());
    assert_eq!(store.get(), Some(&made));
}
