use question_flow::catalog;
use question_flow::flow::{handle_update, AnswerValue, GeoPoint, Keyboard, Outcome, Update};
use question_flow::questions::{Question, QuestionOption};
use question_flow::session::SessionStore;

fn text_update(user_id: i64, text: &str) -> Update {
    Update { user_id, text: Some(text.to_string()), photo: None, location: None }
}

fn photo_update(user_id: i64, file_id: &str) -> Update {
    Update { user_id, text: None, photo: Some(file_id.to_string()), location: None }
}

fn location_update(user_id: i64, lat_micro: i64, lon_micro: i64) -> Update {
    Update { user_id, text: None, photo: None, location: Some(GeoPoint { lat_micro, lon_micro }) }
}

fn custom_question(key: &str, prompt: &str, answer_type: &str) -> Question {
    Question {
        id: 0,
        key: key.to_string(),
        question: prompt.to_string(),
        answer_type: answer_type.to_string(),
        parent_question: None,
        parent_question_option: None,
        category: None,
        max_value: None,
        min_value: None,
        show: false,
        display_name: key.to_string(),
        is_positive: true,
        cadence: "daily".to_string(),
        command: None,
        graph_type: "Line".to_string(),
        question_options: None,
    }
}

fn texts(out: &Outcome) -> Vec<String> {
    out.messages.iter().map(|m| m.text.clone()).collect()
}

#[test]
fn awake_walkthrough_with_follow_up() {
    let mut store = SessionStore::new();
    let user = 42;

    // the command loads the catalog and asks the first question
    let out = handle_update(&mut store, &text_update(user, "/awake"));
    assert_eq!(texts(&out), vec!["What is your name?"]);
    assert!(out.record.is_none());
    assert!(out.media.is_none());

    // the name is recorded; it matches no option, so no follow-up enters
    // and the age question comes next with its keyboard
    let out = handle_update(&mut store, &text_update(user, "Alice"));
    assert_eq!(texts(&out), vec!["What is your age?"]);
    let record = out.record.as_ref().expect("name recorded");
    assert_eq!(record.question_key, "name");
    match &record.value {
        AnswerValue::TextValue(v) => assert_eq!(v, "Alice"),
        AnswerValue::LocationValue(_) => panic!("expected a text record"),
    }
    match &out.messages[0].keyboard {
        Keyboard::Buttons(rows) => {
            assert_eq!(rows.len(), 1);
            assert_eq!(rows[0], vec!["0-10", "11-20", "21-30"]);
        }
        other => panic!("expected a button keyboard, got {:?}", other),
    }

    // tapping the middle age band records it and branches into the mood
    // follow-up, which is asked before anything else
    let out = handle_update(&mut store, &text_update(user, "11-20"));
    assert_eq!(texts(&out), vec!["What is your mood?"]);
    let record = out.record.expect("answer recorded");
    assert_eq!(record.user_id, user);
    assert_eq!(record.question_key, "age");
    match record.value {
        AnswerValue::TextValue(v) => assert_eq!(v, "11-20"),
        AnswerValue::LocationValue(_) => panic!("expected a text record"),
    }
    match &out.messages[0].keyboard {
        Keyboard::Buttons(rows) => assert_eq!(rows[0], vec!["Yes", "No"]),
        other => panic!("expected a button keyboard, got {:?}", other),
    }

    // the mood answer matches an option without follow-ups, so the drained
    // queue completes the conversation
    let out = handle_update(&mut store, &text_update(user, "Yes"));
    assert_eq!(texts(&out), vec!["All done for now"]);

    // with nothing awaited, a further message gets the forgotten-session note
    let out = handle_update(&mut store, &text_update(user, "hello?"));
    assert_eq!(texts(&out).len(), 1);
    assert!(texts(&out)[0].starts_with("Sorry, I forgot the question"));
}

#[test]
fn invalid_number_is_rejected_twice_identically() {
    let mut store = SessionStore::new();
    let user = 7;
    store.add_questions(user, vec![custom_question("steps", "How many steps?", "number")]);
    store.get_first_question(user);

    let before_pending = store.get_all_questions(user).expect("session").len();
    let out1 = handle_update(&mut store, &text_update(user, "not-a-number"));
    let out2 = handle_update(&mut store, &text_update(user, "not-a-number"));

    assert_eq!(texts(&out1), vec!["Invalid number, please try again"]);
    assert_eq!(texts(&out1), texts(&out2));
    assert!(out1.record.is_none() && out2.record.is_none());
    assert_eq!(store.get_all_questions(user).expect("session").len(), before_pending);
    assert_eq!(store.get_current_question(user).expect("still current").key, "steps");
}

#[test]
fn valid_number_is_recorded_and_advances() {
    let mut store = SessionStore::new();
    let user = 7;
    store.add_questions(user, vec![custom_question("steps", "How many steps?", "number")]);
    store.get_first_question(user);

    let out = handle_update(&mut store, &text_update(user, "-12034"));
    assert_eq!(texts(&out), vec!["All done for now"]);
    let record = out.record.expect("answer recorded");
    assert_eq!(record.question_key, "steps");
    match record.value {
        AnswerValue::TextValue(v) => assert_eq!(v, "-12034"),
        AnswerValue::LocationValue(_) => panic!("expected a text record"),
    }
    assert!(store.get_current_question(user).is_none());
}

#[test]
fn drained_queue_completes_exactly_once() {
    let mut store = SessionStore::new();
    let user = 5;
    store.add_questions(user, vec![custom_question("one", "Only question?", "text")]);
    store.get_first_question(user);

    // answering the last question drains the queue and completes
    let out = handle_update(&mut store, &text_update(user, "fine"));
    assert_eq!(texts(&out), vec!["All done for now"]);
    assert!(store.get_current_question(user).is_none());

    // completion is not repeated: the session is idle now
    let out = handle_update(&mut store, &text_update(user, "fine again"));
    assert!(texts(&out)[0].starts_with("Sorry, I forgot the question"));
}

#[test]
fn skip_on_idle_and_awaiting() {
    let mut store = SessionStore::new();
    let user = 11;

    // idle: nothing to skip, nothing changes
    let out = handle_update(&mut store, &text_update(user, "/skip"));
    assert_eq!(texts(&out), vec!["No question to skip"]);
    assert!(store.get_current_question(user).is_none());

    // awaiting: the current question is dropped without a record and the
    // next one is presented at once
    store.add_questions(
        user,
        vec![
            custom_question("first", "First?", "text"),
            custom_question("second", "Second?", "text"),
        ],
    );
    store.get_first_question(user);
    let out = handle_update(&mut store, &text_update(user, "/skip"));
    assert_eq!(texts(&out), vec!["Skipping the question", "Second?"]);
    assert!(out.record.is_none());
    assert_eq!(store.get_current_question(user).expect("current").key, "second");
}

#[test]
fn skip_all_empties_the_queue() {
    let mut store = SessionStore::new();
    let user = 11;
    store.add_questions(
        user,
        vec![custom_question("a", "A?", "text"), custom_question("b", "B?", "text")],
    );
    store.get_first_question(user);
    let out = handle_update(&mut store, &text_update(user, "/skipall"));
    assert_eq!(texts(&out), vec!["All questions removed from the queue"]);
    assert!(store.is_question_queue_empty(user));
    assert!(store.get_current_question(user).is_none());
}

#[test]
fn image_answer_advances_even_when_upload_will_fail() {
    let mut store = SessionStore::new();
    let user = 13;
    store.add_questions(
        user,
        vec![
            custom_question("selfie", "Send a photo", "image"),
            custom_question("next", "And next?", "text"),
        ],
    );
    store.get_first_question(user);

    let out = handle_update(&mut store, &photo_update(user, "file-123"));
    // the upload request is handed out; whatever the media store then does
    // with it cannot reach the conversation, which has already advanced
    let media = out.media.as_ref().expect("upload requested");
    assert_eq!(media.file_id, "file-123");
    assert_eq!(texts(&out), vec!["And next?"]);
    assert!(out.record.is_none());
    assert_eq!(store.get_current_question(user).expect("current").key, "next");
}

#[test]
fn location_answers() {
    let mut store = SessionStore::new();
    let user = 17;
    store.add_questions(user, vec![custom_question("where", "Where are you?", "location")]);
    store.get_first_question(user);

    // text instead of coordinates: rejected, nothing moves
    let out = handle_update(&mut store, &text_update(user, "home"));
    assert_eq!(texts(&out), vec!["Invalid location, please try again"]);
    assert_eq!(store.get_current_question(user).expect("current").key, "where");

    // coordinates: recorded and the conversation advances
    let out = handle_update(&mut store, &location_update(user, 12_971_599, 77_594_566));
    assert_eq!(texts(&out), vec!["All done for now"]);
    let record = out.record.expect("location recorded");
    match record.value {
        AnswerValue::LocationValue(p) => {
            assert_eq!(p.lat_micro, 12_971_599);
            assert_eq!(p.lon_micro, 77_594_566);
        }
        AnswerValue::TextValue(_) => panic!("expected a location record"),
    }
}

#[test]
fn unknown_answer_type_gets_fallback() {
    let mut store = SessionStore::new();
    let user = 19;
    store.add_questions(user, vec![custom_question("odd", "Odd?", "rating")]);
    store.get_first_question(user);
    let out = handle_update(&mut store, &text_update(user, "5"));
    assert_eq!(texts(&out), vec!["Sorry, I don't know how to handle this answer type"]);
    assert_eq!(store.get_current_question(user).expect("current").key, "odd");
}

#[test]
fn unknown_command_gets_help() {
    let mut store = SessionStore::new();
    let out = handle_update(&mut store, &text_update(3, "/dance"));
    assert_eq!(texts(&out)[0], "Invalid command, try the following");
    assert!(texts(&out)[1].contains("/awake"));
    assert!(store.get_current_question(3).is_none());
}

#[test]
fn help_lists_commands() {
    let mut store = SessionStore::new();
    let out = handle_update(&mut store, &text_update(3, "/help"));
    assert_eq!(out.messages.len(), 1);
    let help = &out.messages[0].text;
    assert!(help.contains("/help"));
    assert!(help.contains("/skip"));
    assert!(help.contains("/skipall"));
    assert!(help.contains("/awake"));
}

#[test]
fn command_while_awaiting_defers_new_questions() {
    let mut store = SessionStore::new();
    let user = 23;
    store.add_questions(user, vec![custom_question("open", "Open?", "text")]);
    store.get_first_question(user);
    let out = handle_update(&mut store, &text_update(user, "/awake"));
    assert_eq!(texts(&out), vec!["Okay, but answer my previous question first"]);
    // the catalog's questions were still queued behind the open one
    assert_eq!(store.get_all_questions(user).expect("session").len(), 2);
    assert_eq!(store.get_current_question(user).expect("current").key, "open");
}

#[test]
fn two_advances_cannot_hand_out_one_question_twice() {
    let mut store = SessionStore::new();
    let user = 29;
    store.add_questions(user, vec![custom_question("only", "Only?", "text")]);
    let first = store.get_first_question(user);
    let second = store.get_first_question(user);
    assert_eq!(first.expect("exactly one winner").key, "only");
    assert!(second.is_none());
}

#[test]
fn catalog_contents() {
    let questions = catalog::get_all_questions("/awake");
    assert_eq!(questions.len(), 2);
    assert_eq!(questions[0].key, "name");
    assert_eq!(questions[0].answer_type, "text");
    assert_eq!(questions[0].question, "What is your name?");
    assert_eq!(questions[1].key, "age");
    assert_eq!(questions[1].answer_type, "range");
    let options = questions[1].question_options.as_ref().expect("age options");
    let labels: Vec<&str> = options.iter().map(|o| o.name.as_str()).collect();
    assert_eq!(labels, vec!["0-10", "11-20", "21-30"]);

    // only option id 2 branches
    assert!(catalog::get_question_for_option("age".to_string(), 1).is_empty());
    let follow_ups = catalog::get_question_for_option("age".to_string(), 2);
    assert_eq!(follow_ups.len(), 1);
    assert_eq!(follow_ups[0].key, "mood");

    assert!(catalog::is_valid_command("/awake"));
    assert!(!catalog::is_valid_command("/asleep"));
}

#[test]
fn placeholder_rows() {
    let rows = catalog::get_questions_for_command("/awake");
    assert_eq!(rows.len(), 5);
    assert_eq!(rows[0].key, "key1");
    assert_eq!(rows[4].display_name, "display_name5");
    assert_eq!(rows[2].max_value, Some(3));
}

#[test]
fn range_question_keyboard_chunks_options_in_threes() {
    let mut store = SessionStore::new();
    let user = 31;
    let mut q = custom_question("scale", "Pick one", "range");
    let options: Vec<QuestionOption> = (1..=5)
        .map(|n| QuestionOption {
            id: n,
            name: format!("level-{}", n),
            question_key: "scale".to_string(),
        })
        .collect();
    q.set_question_options(options);
    store.add_questions(user, vec![q]);
    let out = handle_update(&mut store, &text_update(user, "/skip"));
    // skipping from idle? no: current is unset, so first force an advance
    assert_eq!(texts(&out), vec!["No question to skip"]);
    store.get_first_question(user);
    let presented = store.get_current_question(user).expect("current");
    assert_eq!(presented.key, "scale");
    let reply = question_flow::flow::present_question(presented);
    match reply.keyboard {
        Keyboard::Buttons(rows) => {
            assert_eq!(rows.len(), 2);
            assert_eq!(rows[0], vec!["level-1", "level-2", "level-3"]);
            assert_eq!(rows[1], vec!["level-4", "level-5"]);
        }
        other => panic!("expected a button keyboard, got {:?}", other),
    }
}

#[test]
fn number_validity_edges() {
    let is_valid_number = question_flow::text::is_valid_number;
    assert!(is_valid_number("0"));
    assert!(is_valid_number("+5"));
    assert!(is_valid_number("-12034"));
    assert!(is_valid_number("2147483647"));
    assert!(!is_valid_number("2147483648"));
    assert!(is_valid_number("-2147483648"));
    assert!(!is_valid_number("-2147483649"));
    assert!(!is_valid_number(""));
    assert!(!is_valid_number("+"));
    assert!(!is_valid_number("-"));
    assert!(!is_valid_number("12a"));
    assert!(!is_valid_number(" 12"));
    assert!(!is_valid_number("1.5"));
    assert!(is_valid_number("000000000000000000042"));
}
