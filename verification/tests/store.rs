use question_flow::questions::Question;
use question_flow::session::SessionStore;

fn plain_question(key: &str, prompt: &str, answer_type: &str) -> Question {
    Question {
        id: 0,
        key: key.to_string(),
        question: prompt.to_string(),
        answer_type: answer_type.to_string(),
        parent_question: None,
        parent_question_option: None,
        category: None,
        max_value: None,
        min_value: None,
        show: false,
        display_name: key.to_string(),
        is_positive: true,
        cadence: "daily".to_string(),
        command: None,
        graph_type: "Line".to_string(),
        question_options: None,
    }
}

#[test]
fn enqueue_then_dequeue_is_fifo() {
    let mut store = SessionStore::new();
    store.add_questions(7, vec![plain_question("a", "A?", "text")]);
    store.add_questions(7, vec![plain_question("b", "B?", "text")]);
    let first = store.get_first_question(7).expect("queued question");
    assert_eq!(first.key, "a");
    let second = store.get_first_question(7).expect("queued question");
    assert_eq!(second.key, "b");
    assert!(store.get_first_question(7).is_none());
}

#[test]
fn enqueue_front_runs_before_previously_queued() {
    let mut store = SessionStore::new();
    store.add_questions(7, vec![plain_question("old1", "O1?", "text"), plain_question("old2", "O2?", "text")]);
    store.add_questions_to_front(7, vec![plain_question("new1", "N1?", "text"), plain_question("new2", "N2?", "text")]);
    let pending = store.get_all_questions(7).expect("session exists");
    let keys: Vec<&str> = pending.iter().map(|q| q.key.as_str()).collect();
    assert_eq!(keys, vec!["new1", "new2", "old1", "old2"]);
}

#[test]
fn dequeue_sets_current_and_empty_queue_clears_it() {
    let mut store = SessionStore::new();
    store.add_questions(7, vec![plain_question("a", "A?", "text")]);
    assert!(store.get_current_question(7).is_none());
    store.get_first_question(7).expect("queued question");
    assert_eq!(store.get_current_question(7).expect("current").key, "a");
    assert!(store.is_question_queue_empty(7));
    assert!(store.get_first_question(7).is_none());
    assert!(store.get_current_question(7).is_none());
}

#[test]
fn at_most_one_current_after_any_sequence() {
    let mut store = SessionStore::new();
    for round in 0..3 {
        store.add_questions(9, vec![plain_question("x", "X?", "text"), plain_question("y", "Y?", "text")]);
        store.get_first_question(9);
        store.add_questions_to_front(9, vec![plain_question("z", "Z?", "text")]);
        store.get_first_question(9);
        // the store hands out at most one current question, whatever was done
        let current = store.get_current_question(9);
        assert!(current.is_some());
        if round == 2 {
            store.remove_all_questions(9);
            assert!(store.get_current_question(9).is_none());
        }
    }
}

#[test]
fn remove_all_questions_drops_queue_and_current() {
    let mut store = SessionStore::new();
    store.add_questions(7, vec![plain_question("a", "A?", "text"), plain_question("b", "B?", "text")]);
    store.get_first_question(7);
    store.remove_all_questions(7);
    assert!(store.is_question_queue_empty(7));
    assert!(store.get_current_question(7).is_none());
    assert!(store.get_all_questions(7).is_none());
}

#[test]
fn users_have_independent_sessions() {
    let mut store = SessionStore::new();
    store.add_questions(1, vec![plain_question("a", "A?", "text")]);
    store.add_questions(2, vec![plain_question("b", "B?", "text")]);
    assert_eq!(store.get_first_question(1).expect("user 1 head").key, "a");
    assert_eq!(store.get_first_question(2).expect("user 2 head").key, "b");
    assert!(store.is_question_queue_empty(1));
    assert!(store.is_question_queue_empty(2));
}

#[test]
fn set_current_question_nulled_keeps_pending() {
    let mut store = SessionStore::new();
    store.add_questions(7, vec![plain_question("a", "A?", "text"), plain_question("b", "B?", "text")]);
    store.get_first_question(7);
    store.set_current_question_nulled(7);
    assert!(store.get_current_question(7).is_none());
    let pending = store.get_all_questions(7).expect("session exists");
    assert_eq!(pending.len(), 1);
    assert_eq!(pending[0].key, "b");
}
