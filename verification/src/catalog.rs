//! The question catalog: the command allow-list, the questions a command
//! loads, and the follow-up questions an answered option branches into.
//! Each lookup's result is pinned down field by field, so the flow
//! contracts can speak about exactly what enters a user's queue.

use vstd::prelude::*;
use vstd::string::StringExecFns;

use crate::questions::{question_models, OptionModel, Question, QuestionModel, QuestionOption};
use crate::records::VizQuestionsObj;

verus! {

/// Whether the command is on the allow-list of catalog commands.
pub open spec fn spec_valid_command(c: Seq<char>) -> bool {
    c == "/awake"@
}

/// Validates a catalog command against the allow-list.
pub fn is_valid_command(command: &str) -> (r: bool)
    ensures
        r == spec_valid_command(command@),
{
    crate::text::str_eq(command, "/awake")
}

/// The model of the first catalog question: a free-text prompt asking for
/// the user's name.
pub open spec fn name_question_model() -> QuestionModel {
    QuestionModel {
        id: 1,
        key: "name"@,
        question: "What is your name?"@,
        answer_type: "text"@,
        parent_question: None,
        parent_question_option: None,
        category: None,
        max_value: None,
        min_value: None,
        show: false,
        display_name: "Name"@,
        is_positive: true,
        cadence: "daily"@,
        command: None,
        graph_type: "Line"@,
        question_options: None,
    }
}

/// The model of the second catalog question: an age range with three
/// choice options.
pub open spec fn age_question_model() -> QuestionModel {
    QuestionModel {
        id: 2,
        key: "age"@,
        question: "What is your age?"@,
        answer_type: "range"@,
        parent_question: None,
        parent_question_option: None,
        category: None,
        max_value: None,
        min_value: None,
        show: false,
        display_name: "Age"@,
        is_positive: true,
        cadence: "daily"@,
        command: None,
        graph_type: "Line"@,
        question_options: Some(
            seq![
                OptionModel { id: 1, name: "0-10"@, question_key: "age"@ },
                OptionModel { id: 2, name: "11-20"@, question_key: "age"@ },
                OptionModel { id: 3, name: "21-30"@, question_key: "age"@ },
            ],
        ),
    }
}

/// The ordered questions a valid command loads into the queue.
pub open spec fn command_catalog() -> Seq<QuestionModel> {
    seq![name_question_model(), age_question_model()]
}

/// The model of the follow-up question asked after the branching option:
/// a mood range with yes/no options.
pub open spec fn mood_question_model() -> QuestionModel {
    QuestionModel {
        id: 3,
        key: "mood"@,
        question: "What is your mood?"@,
        answer_type: "range"@,
        parent_question: Some("name"@),
        parent_question_option: Some("Yes"@),
        category: None,
        max_value: Some(100),
        min_value: Some(0),
        show: false,
        display_name: "Age"@,
        is_positive: true,
        cadence: "daily"@,
        command: None,
        graph_type: "Line"@,
        question_options: Some(
            seq![
                OptionModel { id: 1, name: "Yes"@, question_key: "3"@ },
                OptionModel { id: 2, name: "No"@, question_key: "3"@ },
            ],
        ),
    }
}

/// The follow-up questions defined for an answered option: only the branch
/// behind option id 2 holds any, namely the mood question.
pub open spec fn follow_ups_for(parent_key: Seq<char>, option_id: int) -> Seq<QuestionModel> {
    if option_id == 2 {
        seq![mood_question_model()]
    } else {
        Seq::empty()
    }
}

/// Resolves the ordered questions behind a catalog command. Every valid
/// command currently maps to the same two-question sequence.
pub fn get_all_questions(command: &str) -> (r: Vec<Question>)
    ensures
        question_models(r@) == command_catalog(),
{
    let q1 = Question {
        id: 1,
        key: String::from_str("name"),
        question: String::from_str("What is your name?"),
        answer_type: String::from_str("text"),
        parent_question: None,
        parent_question_option: None,
        category: None,
        max_value: None,
        min_value: None,
        show: false,
        display_name: String::from_str("Name"),
        is_positive: true,
        cadence: String::from_str("daily"),
        command: None,
        graph_type: String::from_str("Line"),
        question_options: None,
    };
    let mut age_options: Vec<QuestionOption> = Vec::new();
    age_options.push(
        QuestionOption {
            id: 1,
            name: String::from_str("0-10"),
            question_key: String::from_str("age"),
        },
    );
    age_options.push(
        QuestionOption {
            id: 2,
            name: String::from_str("11-20"),
            question_key: String::from_str("age"),
        },
    );
    age_options.push(
        QuestionOption {
            id: 3,
            name: String::from_str("21-30"),
            question_key: String::from_str("age"),
        },
    );
    let q2 = Question {
        id: 2,
        key: String::from_str("age"),
        question: String::from_str("What is your age?"),
        answer_type: String::from_str("range"),
        parent_question: None,
        parent_question_option: None,
        category: None,
        max_value: None,
        min_value: None,
        show: false,
        display_name: String::from_str("Age"),
        is_positive: true,
        cadence: String::from_str("daily"),
        command: None,
        graph_type: String::from_str("Line"),
        question_options: Some(age_options),
    };
    proof {
        assert(q1@ =~~= name_question_model());
        assert(q2@ =~~= age_question_model());
    }
    let mut r: Vec<Question> = Vec::new();
    r.push(q1);
    r.push(q2);
    proof {
        assert(question_models(r@) =~~= command_catalog());
    }
    r
}

/// Resolves the follow-up questions behind an answered option. Only option
/// id 2 branches; it yields the mood question, whatever the parent key.
pub fn get_question_for_option(
    parent_question_key: String,
    parent_question_option: i32,
) -> (r: Vec<Question>)
    ensures
        question_models(r@) == follow_ups_for(parent_question_key@, parent_question_option as int),
{
    if parent_question_option != 2 {
        let r: Vec<Question> = Vec::new();
        proof {
            assert(question_models(r@) =~~= Seq::<QuestionModel>::empty());
        }
        return r;
    }

    let mut mood_options: Vec<QuestionOption> = Vec::new();
    mood_options.push(
        QuestionOption { id: 1, name: String::from_str("Yes"), question_key: String::from_str("3") },
    );
    mood_options.push(
        QuestionOption { id: 2, name: String::from_str("No"), question_key: String::from_str("3") },
    );
    let mood = Question {
        id: 3,
        key: String::from_str("mood"),
        question: String::from_str("What is your mood?"),
        answer_type: String::from_str("range"),
        parent_question: Some(String::from_str("name")),
        parent_question_option: Some(String::from_str("Yes")),
        category: None,
        max_value: Some(100),
        min_value: Some(0),
        show: false,
        display_name: String::from_str("Age"),
        is_positive: true,
        cadence: String::from_str("daily"),
        command: None,
        graph_type: String::from_str("Line"),
        question_options: Some(mood_options),
    };
    proof {
        assert(mood@ =~~= mood_question_model());
    }
    let mut r: Vec<Question> = Vec::new();
    r.push(mood);
    proof {
        assert(question_models(r@) =~~= seq![mood_question_model()]);
    }
    r
}

/// Whether a row carries exactly the given field values.
pub open spec fn row_matches(
    r: VizQuestionsObj,
    key: Seq<char>,
    question: Seq<char>,
    question_type: Seq<char>,
    bound: int,
    buttons: Seq<char>,
    display_name: Seq<char>,
) -> bool {
    &&& r.key@ == key
    &&& r.question@ == question
    &&& r.question_type@ == question_type
    &&& r.max_value == Some(bound as i32)
    &&& r.min_value == Some(bound as i32)
    &&& (match r.buttons {
        Some(b) => b@ == buttons,
        None => false,
    })
    &&& r.is_positive
    &&& r.is_reverse
    &&& r.display_name@ == display_name
}

/// Builds one placeholder question row of the early data model.
fn placeholder_row(
    key: &str,
    question: &str,
    question_type: &str,
    bound: i32,
    buttons: &str,
    display_name: &str,
) -> (r: VizQuestionsObj)
    requires
        0 <= bound,
    ensures
        row_matches(r, key@, question@, question_type@, bound as int, buttons@, display_name@),
{
    VizQuestionsObj {
        key: String::from_str(key),
        question: String::from_str(question),
        question_type: String::from_str(question_type),
        max_value: Some(bound),
        min_value: Some(bound),
        buttons: Some(String::from_str(buttons)),
        is_positive: true,
        is_reverse: true,
        display_name: String::from_str(display_name),
    }
}

/// The fixed placeholder rows of the early, row-based catalog: five
/// numbered entries, whatever the command.
pub fn get_questions_for_command(command: &str) -> (r: Vec<VizQuestionsObj>)
    ensures
        r@.len() == 5,
        row_matches(r@[0], "key1"@, "question1"@, "question_type1"@, 1, "buttons1"@,
            "display_name1"@),
        row_matches(r@[1], "key2"@, "question2"@, "question_type2"@, 2, "buttons2"@,
            "display_name2"@),
        row_matches(r@[2], "key3"@, "question3"@, "question_type3"@, 3, "buttons3"@,
            "display_name3"@),
        row_matches(r@[3], "key4"@, "question4"@, "question_type4"@, 4, "buttons4"@,
            "display_name4"@),
        row_matches(r@[4], "key5"@, "question5"@, "question_type5"@, 5, "buttons5"@,
            "display_name5"@),
{
    let mut r: Vec<VizQuestionsObj> = Vec::new();
    r.push(placeholder_row("key1", "question1", "question_type1", 1, "buttons1", "display_name1"));
    r.push(placeholder_row("key2", "question2", "question_type2", 2, "buttons2", "display_name2"));
    r.push(placeholder_row("key3", "question3", "question_type3", 3, "buttons3", "display_name3"));
    r.push(placeholder_row("key4", "question4", "question_type4", 4, "buttons4", "display_name4"));
    r.push(placeholder_row("key5", "question5", "question_type5", 5, "buttons5", "display_name5"));
    r
}

} // verus!
