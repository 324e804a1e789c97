//! The question catalog's data model: a question, its choice options, the
//! ghost models the contracts speak of, and the classification of answer
//! types that drives validation and presentation.

use vstd::prelude::*;

verus! {

/// A selectable option of a question. `question_key` points back at the
/// question the option belongs to; follow-up questions are resolved from
/// `(question_key, id)` when a reply matches `name` exactly.
#[derive(Debug, Clone)]
pub struct QuestionOption {
    pub id: i32,
    pub name: String,
    pub question_key: String,
}

/// The mathematical value of a [`QuestionOption`].
#[verifier::ext_equal]
pub struct OptionModel {
    pub id: int,
    pub name: Seq<char>,
    pub question_key: Seq<char>,
}

impl View for QuestionOption {
    type V = OptionModel;

    open spec fn view(&self) -> OptionModel {
        OptionModel { id: self.id as int, name: self.name@, question_key: self.question_key@ }
    }
}

impl QuestionOption {
    /// An explicit deep copy; the result is known to equal the original.
    pub fn duplicate(&self) -> (r: QuestionOption)
        ensures
            r == *self,
    {
        QuestionOption {
            id: self.id,
            name: self.name.clone(),
            question_key: self.question_key.clone(),
        }
    }
}

/// The stable string identifier of a question in the catalog.
#[derive(Debug, Clone)]
pub struct QuestionKey(pub String);

/// A catalog-defined question. Immutable once loaded into a queue; `key` is
/// stable across catalog versions while `id` is the numeric identity.
/// `answer_type` names one of the recognized kinds (see [`AnswerKind`]);
/// the remaining fields are catalog metadata that the engine carries along
/// but does not act on.
#[derive(Debug, Clone)]
pub struct Question {
    pub id: i32,
    pub key: String,
    pub question: String,
    pub answer_type: String,
    pub parent_question: Option<String>,
    pub parent_question_option: Option<String>,
    pub category: Option<i32>,
    pub max_value: Option<i32>,
    pub min_value: Option<i32>,
    pub show: bool,
    pub display_name: String,
    pub is_positive: bool,
    pub cadence: String,
    pub command: Option<String>,
    pub graph_type: String,
    pub question_options: Option<Vec<QuestionOption>>,
}

/// The mathematical value of a [`Question`]: the same fields over sequences
/// and unbounded integers.
#[verifier::ext_equal]
pub struct QuestionModel {
    pub id: int,
    pub key: Seq<char>,
    pub question: Seq<char>,
    pub answer_type: Seq<char>,
    pub parent_question: Option<Seq<char>>,
    pub parent_question_option: Option<Seq<char>>,
    pub category: Option<int>,
    pub max_value: Option<int>,
    pub min_value: Option<int>,
    pub show: bool,
    pub display_name: Seq<char>,
    pub is_positive: bool,
    pub cadence: Seq<char>,
    pub command: Option<Seq<char>>,
    pub graph_type: Seq<char>,
    pub question_options: Option<Seq<OptionModel>>,
}

/// The view of an optional string.
pub open spec fn opt_str_view(o: Option<String>) -> Option<Seq<char>> {
    match o {
        Some(s) => Some(s@),
        None => None,
    }
}

/// The view of an optional `i32`.
pub open spec fn opt_int_view(o: Option<i32>) -> Option<int> {
    match o {
        Some(n) => Some(n as int),
        None => None,
    }
}

/// The views of a sequence of options.
pub open spec fn option_models(s: Seq<QuestionOption>) -> Seq<OptionModel> {
    s.map_values(|o: QuestionOption| o@)
}

/// The views of a sequence of questions.
pub open spec fn question_models(s: Seq<Question>) -> Seq<QuestionModel> {
    s.map_values(|q: Question| q@)
}

impl View for Question {
    type V = QuestionModel;

    open spec fn view(&self) -> QuestionModel {
        QuestionModel {
            id: self.id as int,
            key: self.key@,
            question: self.question@,
            answer_type: self.answer_type@,
            parent_question: opt_str_view(self.parent_question),
            parent_question_option: opt_str_view(self.parent_question_option),
            category: opt_int_view(self.category),
            max_value: opt_int_view(self.max_value),
            min_value: opt_int_view(self.min_value),
            show: self.show,
            display_name: self.display_name@,
            is_positive: self.is_positive,
            cadence: self.cadence@,
            command: opt_str_view(self.command),
            graph_type: self.graph_type@,
            question_options: match self.question_options {
                Some(v) => Some(option_models(v@)),
                None => None,
            },
        }
    }
}

impl Question {
    /// Replaces the question's options with the given list.
    pub fn set_question_options(&mut self, question_options: Vec<QuestionOption>)
        ensures
            final(self)@ == (QuestionModel {
                question_options: Some(option_models(question_options@)),
                ..old(self)@
            }),
    {
        self.question_options = Some(question_options);
        proof {
            assert(self@ =~= (QuestionModel {
                question_options: Some(option_models(self.question_options->Some_0@)),
                ..old(self)@
            }));
        }
    }

    /// An explicit deep copy; the result has the same mathematical value.
    pub fn duplicate(&self) -> (r: Question)
        ensures
            r@ == self@,
    {
        let r = Question {
            id: self.id,
            key: self.key.clone(),
            question: self.question.clone(),
            answer_type: self.answer_type.clone(),
            parent_question: duplicate_opt_string(&self.parent_question),
            parent_question_option: duplicate_opt_string(&self.parent_question_option),
            category: self.category,
            max_value: self.max_value,
            min_value: self.min_value,
            show: self.show,
            display_name: self.display_name.clone(),
            is_positive: self.is_positive,
            cadence: self.cadence.clone(),
            command: duplicate_opt_string(&self.command),
            graph_type: self.graph_type.clone(),
            question_options: duplicate_opt_options(&self.question_options),
        };
        proof {
            assert(r@ =~= self@);
        }
        r
    }
}

/// Deep copy of an optional string; the result is known to be equal.
pub fn duplicate_opt_string(o: &Option<String>) -> (r: Option<String>)
    ensures
        r == *o,
{
    match o {
        Some(s) => Some(s.clone()),
        None => None,
    }
}

/// Deep copy of an option list; the result holds equal elements.
pub fn duplicate_options(v: &Vec<QuestionOption>) -> (r: Vec<QuestionOption>)
    ensures
        r@ == v@,
{
    let mut out: Vec<QuestionOption> = Vec::new();
    let mut i: usize = 0;
    while i < v.len()
        invariant
            i <= v.len(),
            out@ == v@.subrange(0, i as int),
        decreases v.len() - i,
    {
        out.push(v[i].duplicate());
        proof {
            assert(out@ =~= v@.subrange(0, i + 1 as int));
        }
        i = i + 1;
    }
    proof {
        assert(out@ =~= v@);
    }
    out
}

/// Deep copy of an optional option list; the elements stay equal.
pub fn duplicate_opt_options(o: &Option<Vec<QuestionOption>>) -> (r: Option<Vec<QuestionOption>>)
    ensures
        match (*o, r) {
            (Some(v), Some(w)) => w@ == v@,
            (None, None) => true,
            _ => false,
        },
{
    match o {
        Some(v) => Some(duplicate_options(v)),
        None => None,
    }
}

/// The closed set of answer kinds the dispatcher can handle. A catalog entry
/// whose `answer_type` string is none of the recognized names classifies as
/// `Unrecognized` and is answered with a fallback message.
#[derive(Debug, Clone, Copy, PartialEq, Eq, Structural)]
pub enum AnswerKind {
    FreeText,
    Numeric,
    Range,
    Boolean,
    Location,
    Image,
    Unrecognized,
}

/// The kind a given `answer_type` string denotes.
pub open spec fn kind_of_type(t: Seq<char>) -> AnswerKind {
    if t == "text"@ {
        AnswerKind::FreeText
    } else if t == "number"@ {
        AnswerKind::Numeric
    } else if t == "range"@ {
        AnswerKind::Range
    } else if t == "boolean"@ {
        AnswerKind::Boolean
    } else if t == "location"@ {
        AnswerKind::Location
    } else if t == "image"@ {
        AnswerKind::Image
    } else {
        AnswerKind::Unrecognized
    }
}

/// The answer kind of a question, read off its `answer_type` field.
pub open spec fn kind_of(q: QuestionModel) -> AnswerKind {
    kind_of_type(q.answer_type)
}

/// Classifies a question's `answer_type` string.
pub fn answer_kind(q: &Question) -> (k: AnswerKind)
    ensures
        k == kind_of(q@),
{
    let t: &str = q.answer_type.as_str();
    if crate::text::str_eq(t, "text") {
        AnswerKind::FreeText
    } else if crate::text::str_eq(t, "number") {
        AnswerKind::Numeric
    } else if crate::text::str_eq(t, "range") {
        AnswerKind::Range
    } else if crate::text::str_eq(t, "boolean") {
        AnswerKind::Boolean
    } else if crate::text::str_eq(t, "location") {
        AnswerKind::Location
    } else if crate::text::str_eq(t, "image") {
        AnswerKind::Image
    } else {
        AnswerKind::Unrecognized
    }
}

/// A query against the stored question rows, as the visualization endpoints
/// accept it: every field is optional and an absent field means "no filter".
#[derive(Debug, Clone)]
pub struct VizQuestionsQuery {
    pub category: Option<String>,
    pub is_visible: Option<bool>,
    pub command: Option<String>,
}

} // verus!
