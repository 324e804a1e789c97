//! The conversation engine: inbound updates, outbound replies, and the
//! handlers that turn one inbound update into a session-store transition
//! plus a list of outbound messages and side-effect requests.
//!
//! Each handler's contract describes the transition over the store's model
//! and pins the outbound messages down, so the caller that performs the
//! actual sending, recording and uploading needs no knowledge of the
//! engine's internals: it performs exactly what the returned [`Outcome`]
//! lists.

use vstd::prelude::*;
use vstd::string::StringExecFns;

use crate::catalog::{
    command_catalog, follow_ups_for, get_all_questions, get_question_for_option, is_valid_command,
    spec_valid_command,
};
use crate::questions::{
    answer_kind, kind_of, AnswerKind, OptionModel, Question, QuestionModel, QuestionOption,
};
use crate::session::{
    advance_model, advanced_question, clear_all_model, current_of, enqueue_front_model,
    enqueue_model, pending_of, SessModel, SessionStore,
};
use crate::text::{is_command_text, spec_is_command, spec_is_i32, str_eq};

verus! {

/// A geographic point in micro-degrees: degrees scaled by one million and
/// rounded, which keeps coordinates in plain integers.
#[derive(Debug, Clone, Copy, PartialEq, Eq, Structural)]
pub struct GeoPoint {
    pub lat_micro: i64,
    pub lon_micro: i64,
}

/// One inbound update from the messaging transport, reduced to the values
/// the engine reads: who sent it, its text if any, the file identifier of
/// an attached photo if any, and attached coordinates if any.
#[derive(Debug, Clone)]
pub struct Update {
    pub user_id: i64,
    pub text: Option<String>,
    pub photo: Option<String>,
    pub location: Option<GeoPoint>,
}

/// The reply keyboard attached to an outbound message.
#[derive(Debug, Clone)]
pub enum Keyboard {
    /// No keyboard: the user answers in free text.
    Plain,
    /// Rows of labelled buttons.
    Buttons(Vec<Vec<String>>),
    /// The single control that asks the user to share a location.
    LocationButton,
}

/// The mathematical value of a [`Keyboard`].
#[verifier::ext_equal]
pub enum KeyboardModel {
    Plain,
    Buttons(Seq<Seq<Seq<char>>>),
    LocationButton,
}

impl View for Keyboard {
    type V = KeyboardModel;

    open spec fn view(&self) -> KeyboardModel {
        match self {
            Keyboard::Plain => KeyboardModel::Plain,
            Keyboard::Buttons(rows) => KeyboardModel::Buttons(rows.deep_view()),
            Keyboard::LocationButton => KeyboardModel::LocationButton,
        }
    }
}

/// One outbound message: its text and the keyboard presented with it.
#[derive(Debug, Clone)]
pub struct Reply {
    pub text: String,
    pub keyboard: Keyboard,
}

/// The mathematical value of a [`Reply`].
#[verifier::ext_equal]
pub struct ReplyModel {
    pub text: Seq<char>,
    pub keyboard: KeyboardModel,
}

impl View for Reply {
    type V = ReplyModel;

    open spec fn view(&self) -> ReplyModel {
        ReplyModel { text: self.text@, keyboard: self.keyboard@ }
    }
}

/// The views of a sequence of replies.
pub open spec fn reply_models(s: Seq<Reply>) -> Seq<ReplyModel> {
    s.map_values(|r: Reply| r@)
}

/// Whether a reply is the given plain-text message, with no keyboard.
pub open spec fn msg_is(r: Reply, text: Seq<char>) -> bool {
    r.text@ == text && r.keyboard is Plain
}

/// The value of an accepted answer as handed to the persistence sink.
#[derive(Debug, Clone)]
pub enum AnswerValue {
    TextValue(String),
    LocationValue(GeoPoint),
}

/// A recorded answer: which user answered which question with what value.
#[derive(Debug, Clone)]
pub struct RecordedAnswer {
    pub user_id: i64,
    pub question_key: String,
    pub value: AnswerValue,
}

/// A request to fetch the referenced media from the transport and store it:
/// the best-effort side effect of an image answer. Its outcome never flows
/// back into the conversation.
#[derive(Debug, Clone)]
pub struct MediaUpload {
    pub user_id: i64,
    pub file_id: String,
}

/// Everything one inbound update asks the caller to perform: the messages
/// to send in order, at most one answer to record, and at most one media
/// upload to attempt.
#[derive(Debug, Clone)]
pub struct Outcome {
    pub messages: Vec<Reply>,
    pub record: Option<RecordedAnswer>,
    pub media: Option<MediaUpload>,
}


/// Splits button labels into keyboard rows of three.
pub open spec fn chunks3(s: Seq<Seq<char>>) -> Seq<Seq<Seq<char>>>
    decreases s.len(),
{
    if s.len() == 0 {
        Seq::empty()
    } else if s.len() <= 3 {
        seq![s]
    } else {
        seq![s.take(3)] + chunks3(s.skip(3))
    }
}

/// One unfolding step of [`chunks3`] at an arbitrary position.
proof fn lemma_chunks3_step(s: Seq<Seq<char>>, i: int)
    requires
        0 <= i < s.len(),
    ensures
        ({
            let end = if i + 3 < s.len() {
                i + 3
            } else {
                s.len() as int
            };
            chunks3(s.skip(i)) == seq![s.subrange(i, end)] + chunks3(s.skip(end))
        }),
{
    let end = if i + 3 < s.len() {
        i + 3
    } else {
        s.len() as int
    };
    if s.len() - i <= 3 {
        assert(s.skip(i) =~= s.subrange(i, end));
        assert(s.skip(end) =~= Seq::<Seq<char>>::empty());
        assert(chunks3(s.skip(i)) =~= seq![s.subrange(i, end)] + chunks3(s.skip(end)));
    } else {
        assert(s.skip(i).take(3) =~= s.subrange(i, end));
        assert(s.skip(i).skip(3) =~= s.skip(end));
        assert(chunks3(s.skip(i)) =~= seq![s.subrange(i, end)] + chunks3(s.skip(end)));
    }
}

/// Builds a reply keyboard from button labels: rows of three, in order.
pub fn make_keyboard(options: Vec<String>) -> (r: Keyboard)
    ensures
        (match r {
            Keyboard::Buttons(rows) => rows.deep_view() == chunks3(options.deep_view()),
            _ => false,
        }),
{
    let ghost dv = options.deep_view();
    let mut rows: Vec<Vec<String>> = Vec::new();
    let mut i: usize = 0;
    proof {
        assert(dv.skip(0) =~= dv);
        assert(rows.deep_view() + chunks3(dv.skip(0)) =~= chunks3(dv));
        assert forall|k: int| 0 <= k < dv.len() implies dv[k] == options@[k]@ by {}
    }
    while i < options.len()
        invariant
            i <= options.len(),
            dv.len() == options.len(),
            forall|k: int| 0 <= k < dv.len() ==> #[trigger] dv[k] == options@[k]@,
            rows.deep_view() + chunks3(dv.skip(i as int)) =~= chunks3(dv),
        decreases options.len() - i,
    {
        let end = if options.len() - i > 3 {
            i + 3
        } else {
            options.len()
        };
        let mut row: Vec<String> = Vec::new();
        let mut j: usize = i;
        while j < end
            invariant
                i <= j <= end,
                end <= options.len(),
                dv.len() == options.len(),
                forall|k: int| 0 <= k < dv.len() ==> #[trigger] dv[k] == options@[k]@,
                row@.len() == j - i,
                forall|k: int| 0 <= k < j - i ==> #[trigger] row@[k]@ == dv[i + k],
            decreases end - j,
        {
            row.push(options[j].clone());
            j = j + 1;
        }
        let ghost row_dv = row.deep_view();
        proof {
            assert forall|k: int| 0 <= k < row@.len() implies row_dv[k] == dv.subrange(
                i as int,
                end as int,
            )[k] by {
                assert(row_dv[k] == row@[k]@);
                assert(dv.subrange(i as int, end as int)[k] == dv[i + k]);
            }
            assert(row_dv =~= dv.subrange(i as int, end as int));
        }
        let ghost rows_dv0 = rows.deep_view();
        rows.push(row);
        proof {
            assert forall|k: int| 0 <= k < rows@.len() implies rows.deep_view()[k]
                == rows_dv0.push(row_dv)[k] by {
                assert(rows.deep_view()[k] == rows@[k].deep_view());
            }
            assert(rows.deep_view() =~= rows_dv0.push(row_dv));
            lemma_chunks3_step(dv, i as int);
            assert(chunks3(dv.skip(i as int)) =~= seq![row_dv] + chunks3(dv.skip(end as int)));
            assert(rows_dv0.push(row_dv) + chunks3(dv.skip(end as int)) =~= rows_dv0 + (seq![
                row_dv,
            ] + chunks3(dv.skip(end as int))));
            assert(rows.deep_view() + chunks3(dv.skip(end as int)) =~= chunks3(dv));
        }
        i = end;
    }
    proof {
        assert(dv.skip(i as int) =~= Seq::<Seq<char>>::empty());
        assert(rows.deep_view() =~= chunks3(dv));
    }
    Keyboard::Buttons(rows)
}

/// The keyboard that asks for a shared location.
pub fn make_location_keyboard() -> (r: Keyboard)
    ensures
        r is LocationButton,
{
    Keyboard::LocationButton
}

/// The labels of a question's options, in order; empty without options.
pub open spec fn option_names(q: QuestionModel) -> Seq<Seq<char>> {
    match q.question_options {
        Some(opts) => opts.map_values(|o: OptionModel| o.name),
        None => Seq::empty(),
    }
}

/// Whether a reply presents the given question the way its answer kind
/// requires: its prompt as text, with a button keyboard built from the
/// options for a range, a fixed yes/no keyboard for a boolean, the
/// location control for a location, and no keyboard otherwise.
pub open spec fn presents(q: QuestionModel, r: Reply) -> bool {
    &&& r.text@ == q.question
    &&& match kind_of(q) {
        AnswerKind::Range => (match r.keyboard {
            Keyboard::Buttons(rows) => rows.deep_view() == chunks3(option_names(q)),
            _ => false,
        }),
        AnswerKind::Boolean => (match r.keyboard {
            Keyboard::Buttons(rows) => rows.deep_view() == seq![seq!["Yes"@, "No"@]],
            _ => false,
        }),
        AnswerKind::Location => r.keyboard is LocationButton,
        _ => r.keyboard is Plain,
    }
}

/// Builds the reply that presents a range question: its prompt and a
/// keyboard of its option labels, three per row.
pub open spec fn names_of_options(o: Option<Vec<QuestionOption>>) -> Seq<Seq<char>> {
    match o {
        Some(opts) => opts@.map_values(|x: QuestionOption| x@.name),
        None => Seq::empty(),
    }
}

pub fn send_range_options(question_text: &str, question_options: Option<Vec<QuestionOption>>) -> (r:
    Reply)
    ensures
        r.text@ == question_text@,
        (match r.keyboard {
            Keyboard::Buttons(rows) => rows.deep_view() == chunks3(names_of_options(
                question_options,
            )),
            _ => false,
        }),
{
    let ghost names_model = names_of_options(question_options);
    let mut names: Vec<String> = Vec::new();
    match question_options {
        Some(opts) => {
            proof {
                assert forall|k: int| 0 <= k < names_model.len() implies names_model[k]
                    == opts@[k].name@ by {}
            }
            let mut i: usize = 0;
            while i < opts.len()
                invariant
                    i <= opts.len(),
                    names_model.len() == opts.len(),
                    forall|k: int| 0 <= k < names_model.len() ==> #[trigger] names_model[k]
                        == opts@[k].name@,
                    names@.len() == i,
                    forall|k: int| 0 <= k < i ==> #[trigger] names@[k]@ == names_model[k],
                decreases opts.len() - i,
            {
                names.push(opts[i].name.clone());
                i = i + 1;
            }
            proof {
                assert forall|k: int| 0 <= k < names@.len() implies names.deep_view()[k]
                    == names_model[k] by {
                    assert(names.deep_view()[k] == names@[k]@);
                }
                assert(names.deep_view() =~= names_model);
            }
        },
        None => {
            proof {
                assert(names.deep_view() =~= names_model);
            }
        },
    }
    let keyboard = make_keyboard(names);
    Reply { text: String::from_str(question_text), keyboard }
}

/// Builds the reply that presents a boolean question: its prompt and the
/// fixed yes/no keyboard.
pub fn send_boolean_options(question_text: &str) -> (r: Reply)
    ensures
        r.text@ == question_text@,
        (match r.keyboard {
            Keyboard::Buttons(rows) => rows.deep_view() == seq![seq!["Yes"@, "No"@]],
            _ => false,
        }),
{
    let mut names: Vec<String> = Vec::new();
    names.push(String::from_str("Yes"));
    names.push(String::from_str("No"));
    proof {
        assert(names.deep_view() =~= seq!["Yes"@, "No"@]);
        assert(chunks3(names.deep_view()) =~= seq![names.deep_view()]);
    }
    let keyboard = make_keyboard(names);
    Reply { text: String::from_str(question_text), keyboard }
}

/// Builds the reply that presents a location question: its prompt and the
/// location-request control.
pub fn send_location_options(question_text: &str) -> (r: Reply)
    ensures
        r.text@ == question_text@,
        r.keyboard is LocationButton,
{
    Reply { text: String::from_str(question_text), keyboard: make_location_keyboard() }
}

/// Whether a reply is the right one for an advance from the given store:
/// the terminal completion message when nothing was pending, else the
/// presentation of the question that was dequeued.
pub open spec fn advance_reply_ok(m: Map<i64, SessModel>, user_id: i64, r: Reply) -> bool {
    match advanced_question(m, user_id) {
        None => msg_is(r, "All done for now"@),
        Some(q) => presents(q, r),
    }
}

/// Presents one question the way its answer kind requires: a plain prompt
/// for free text, numbers and images, a button keyboard for ranges, the
/// fixed yes/no keyboard for booleans, and the location control for
/// locations.
pub fn present_question(question: Question) -> (r: Reply)
    ensures
        presents(question@, r),
{
    let ghost q_model = question@;
    let kind = answer_kind(&question);
    if kind == AnswerKind::Range {
        match question.question_options {
            Some(v) => {
                let ghost vv = v@;
                let r = send_range_options(question.question.as_str(), Some(v));
                proof {
                    assert(vv.map_values(|x: QuestionOption| x@.name) =~= option_names(q_model));
                }
                r
            },
            None => {
                let r = send_range_options(question.question.as_str(), None);
                proof {
                    assert(option_names(q_model) =~= Seq::<Seq<char>>::empty());
                }
                r
            },
        }
    } else if kind == AnswerKind::Boolean {
        send_boolean_options(question.question.as_str())
    } else if kind == AnswerKind::Location {
        send_location_options(question.question.as_str())
    } else {
        Reply { text: question.question, keyboard: Keyboard::Plain }
    }
}

/// Advances a user's conversation by one step: with an empty queue it
/// clears the current question and reports completion; otherwise it
/// dequeues the next question, makes it current, and presents it.
pub fn ask_next_question(store: &mut SessionStore, user_id: i64) -> (r: Reply)
    ensures
        final(store)@ == advance_model(old(store)@, user_id),
        advance_reply_ok(old(store)@, user_id, r),
{
    if store.is_question_queue_empty(user_id) {
        store.set_current_question_nulled(user_id);
        return Reply { text: String::from_str("All done for now"), keyboard: Keyboard::Plain };
    }
    let question = match store.get_first_question(user_id) {
        Some(q) => q,
        None => unreached(),
    };
    present_question(question)
}

/// The first option whose label equals the answer text, scanning in order.
pub open spec fn first_match_seq(s: Seq<OptionModel>, t: Seq<char>) -> Option<OptionModel>
    decreases s.len(),
{
    if s.len() == 0 {
        None
    } else if s.first().name == t {
        Some(s.first())
    } else {
        first_match_seq(s.drop_first(), t)
    }
}

/// The first of a question's options whose label equals the answer text.
pub open spec fn matched_option(q: QuestionModel, t: Seq<char>) -> Option<OptionModel> {
    match q.question_options {
        Some(opts) => first_match_seq(opts, t),
        None => None,
    }
}

/// A scan that finds a match at `i`, with no match before it, resolves to
/// exactly that option.
proof fn lemma_first_match_at(s: Seq<OptionModel>, t: Seq<char>, i: int)
    requires
        0 <= i < s.len(),
        forall|j: int| 0 <= j < i ==> #[trigger] s[j].name != t,
        s[i].name == t,
    ensures
        first_match_seq(s, t) == Some(s[i]),
    decreases i,
{
    if i > 0 {
        lemma_first_match_at(s.drop_first(), t, i - 1);
    }
}

/// A scan over labels none of which equals the text finds nothing.
proof fn lemma_first_match_none(s: Seq<OptionModel>, t: Seq<char>)
    requires
        forall|j: int| 0 <= j < s.len() ==> #[trigger] s[j].name != t,
    ensures
        first_match_seq(s, t) is None,
    decreases s.len(),
{
    if s.len() > 0 {
        lemma_first_match_none(s.drop_first(), t);
    }
}

/// The store after resolving follow-ups for an answered question: when the
/// answer text matches an option's label exactly, the follow-up questions
/// defined for that option enter the front of the queue; otherwise the
/// store is untouched.
pub open spec fn followup_model(
    m: Map<i64, SessModel>,
    user_id: i64,
    q: QuestionModel,
    answer: Seq<char>,
) -> Map<i64, SessModel> {
    match matched_option(q, answer) {
        None => m,
        Some(opt) => enqueue_front_model(m, user_id, follow_ups_for(opt.question_key, opt.id)),
    }
}

/// Compares the answered question's option labels with the literal answer
/// text (case-sensitive, exact); on a match, resolves the follow-up
/// questions behind the matched option and prepends them to the user's
/// queue. No match means no change.
#[verifier::loop_isolation(false)]
pub fn add_follow_up_question(
    store: &mut SessionStore,
    user_id: i64,
    question: Question,
    message_text: &str,
)
    ensures
        final(store)@ == followup_model(old(store)@, user_id, question@, message_text@),
{
    let ghost q_model = question@;
    match question.question_options {
        Some(options) => {
            let ghost opt_models = crate::questions::option_models(options@);
            proof {
                assert forall|k: int| 0 <= k < opt_models.len() implies opt_models[k]
                    == options@[k]@ by {}
            }
            let mut i: usize = 0;
            while i < options.len()
                invariant
                    i <= options.len(),
                    opt_models.len() == options.len(),
                    forall|k: int| 0 <= k < opt_models.len() ==> #[trigger] opt_models[k]
                        == options@[k]@,
                    q_model.question_options == Some(opt_models),
                    store@ == old(store)@,
                    forall|j: int| 0 <= j < i ==> #[trigger] opt_models[j].name != message_text@,
                decreases options.len() - i,
            {
                if str_eq(options[i].name.as_str(), message_text) {
                    proof {
                        assert(opt_models[i as int] == options@[i as int]@);
                        lemma_first_match_at(opt_models, message_text@, i as int);
                        assert(matched_option(q_model, message_text@) == Some(
                            opt_models[i as int],
                        ));
                    }
                    let key_arg = options[i].question_key.clone();
                    proof {
                        assert(key_arg@ == opt_models[i as int].question_key);
                    }
                    let new_questions = get_question_for_option(key_arg, options[i].id);
                    let ghost fu = crate::questions::question_models(new_questions@);
                    proof {
                        assert(fu == follow_ups_for(
                            opt_models[i as int].question_key,
                            opt_models[i as int].id,
                        ));
                    }
                    store.add_questions_to_front(user_id, new_questions);
                    proof {
                        assert(store@ == followup_model(
                            old(store)@,
                            user_id,
                            q_model,
                            message_text@,
                        ));
                    }
                    return ;
                }
                i = i + 1;
            }
            proof {
                lemma_first_match_none(opt_models, message_text@);
            }
        },
        None => (),
    }
}

/// Whether the record hands the sink this user's text answer to the given
/// question.
pub open spec fn record_is_text(
    rec: Option<RecordedAnswer>,
    user_id: i64,
    key: Seq<char>,
    answer: Seq<char>,
) -> bool {
    match rec {
        Some(ra) => {
            &&& ra.user_id == user_id
            &&& ra.question_key@ == key
            &&& match ra.value {
                AnswerValue::TextValue(s) => s@ == answer,
                AnswerValue::LocationValue(_) => false,
            }
        },
        None => false,
    }
}

/// Whether the record hands the sink this user's shared location for the
/// given question.
pub open spec fn record_is_location(
    rec: Option<RecordedAnswer>,
    user_id: i64,
    key: Seq<char>,
    point: GeoPoint,
) -> bool {
    match rec {
        Some(ra) => {
            &&& ra.user_id == user_id
            &&& ra.question_key@ == key
            &&& match ra.value {
                AnswerValue::TextValue(_) => false,
                AnswerValue::LocationValue(p) => p == point,
            }
        },
        None => false,
    }
}

/// Whether the outcome carries no record and no media request.
pub open spec fn no_side_effects(out: Outcome) -> bool {
    out.record is None && out.media is None
}

/// Whether the outcome leaves the store untouched and sends exactly the
/// one given message.
pub open spec fn unchanged_single_msg(
    m0: Map<i64, SessModel>,
    m1: Map<i64, SessModel>,
    out: Outcome,
    text: Seq<char>,
) -> bool {
    &&& m1 == m0
    &&& out.messages@.len() == 1
    &&& msg_is(out.messages@[0], text)
    &&& no_side_effects(out)
}

/// Whether the outcome is an accepted text answer: the answer recorded,
/// follow-ups resolved and prepended, the queue advanced, and the one
/// message presenting what comes next.
pub open spec fn accepted_text_outcome(
    m0: Map<i64, SessModel>,
    m1: Map<i64, SessModel>,
    user_id: i64,
    q: QuestionModel,
    answer: Seq<char>,
    out: Outcome,
) -> bool {
    let m_fu = followup_model(m0, user_id, q, answer);
    &&& m1 == advance_model(m_fu, user_id)
    &&& out.messages@.len() == 1
    &&& advance_reply_ok(m_fu, user_id, out.messages@[0])
    &&& record_is_text(out.record, user_id, q.key, answer)
    &&& out.media is None
}

/// Whether the outcome is an accepted location answer: the location
/// recorded, the queue advanced without follow-up resolution, and the one
/// message presenting what comes next.
pub open spec fn accepted_location_outcome(
    m0: Map<i64, SessModel>,
    m1: Map<i64, SessModel>,
    user_id: i64,
    q: QuestionModel,
    point: GeoPoint,
    out: Outcome,
) -> bool {
    &&& m1 == advance_model(m0, user_id)
    &&& out.messages@.len() == 1
    &&& advance_reply_ok(m0, user_id, out.messages@[0])
    &&& record_is_location(out.record, user_id, q.key, point)
    &&& out.media is None
}

/// Whether the outcome is an image answer's: the conversation advances
/// whatever happened, a media upload is requested exactly when the update
/// carried a photo, no answer is recorded, and no upload error can ever be
/// voiced because the messages are fixed here, before any upload runs.
pub open spec fn image_outcome(
    m0: Map<i64, SessModel>,
    m1: Map<i64, SessModel>,
    user_id: i64,
    photo: Option<String>,
    out: Outcome,
) -> bool {
    &&& m1 == advance_model(m0, user_id)
    &&& out.record is None
    &&& match photo {
        Some(file_id) => {
            &&& (out.media matches Some(mu) && mu.user_id == user_id && mu.file_id@ == file_id@)
            &&& out.messages@.len() == 1
            &&& advance_reply_ok(m0, user_id, out.messages@[0])
        },
        None => {
            &&& out.media is None
            &&& out.messages@.len() == 2
            &&& msg_is(out.messages@[0], "Invalid image, please try again"@)
            &&& advance_reply_ok(m0, user_id, out.messages@[1])
        },
    }
}

/// The dispatch table for an answer to the given current question, by the
/// question's answer kind: free text, ranges and booleans accept any text;
/// numbers insist on a well-formed integer and otherwise change nothing;
/// locations insist on coordinates and otherwise change nothing; images
/// advance regardless and only request a best-effort upload; anything
/// else is answered with a fallback message and no change.
pub open spec fn answer_outcome_ok(
    m0: Map<i64, SessModel>,
    m1: Map<i64, SessModel>,
    upd: Update,
    q: QuestionModel,
    out: Outcome,
) -> bool {
    match kind_of(q) {
        AnswerKind::FreeText | AnswerKind::Range | AnswerKind::Boolean => match upd.text {
            Some(t) => accepted_text_outcome(m0, m1, upd.user_id, q, t@, out),
            None => unchanged_single_msg(m0, m1, out, "Invalid answer, please try again"@),
        },
        AnswerKind::Numeric => match upd.text {
            Some(t) => if spec_is_i32(t@) {
                accepted_text_outcome(m0, m1, upd.user_id, q, t@, out)
            } else {
                unchanged_single_msg(m0, m1, out, "Invalid number, please try again"@)
            },
            None => unchanged_single_msg(m0, m1, out, "Invalid number, please try again"@),
        },
        AnswerKind::Location => match upd.location {
            Some(point) => accepted_location_outcome(m0, m1, upd.user_id, q, point, out),
            None => unchanged_single_msg(m0, m1, out, "Invalid location, please try again"@),
        },
        AnswerKind::Image => image_outcome(m0, m1, upd.user_id, upd.photo, out),
        AnswerKind::Unrecognized => unchanged_single_msg(
            m0,
            m1,
            out,
            "Sorry, I don't know how to handle this answer type"@,
        ),
    }
}

/// Builds the given plain-text reply.
fn single_msg(text: &str) -> (r: Reply)
    ensures
        msg_is(r, text@),
{
    Reply { text: String::from_str(text), keyboard: Keyboard::Plain }
}

/// Builds an outcome that sends the one given message and does nothing
/// else.
fn single_msg_outcome(text: &str) -> (out: Outcome)
    ensures
        out.messages@.len() == 1,
        msg_is(out.messages@[0], text@),
        no_side_effects(out),
{
    let mut messages: Vec<Reply> = Vec::new();
    messages.push(single_msg(text));
    Outcome { messages, record: None, media: None }
}

/// Records an accepted text answer, resolves follow-ups, and advances the
/// conversation.
pub fn on_question_answered(
    store: &mut SessionStore,
    user_id: i64,
    answer_text: &str,
    question: Question,
) -> (out: Outcome)
    ensures
        accepted_text_outcome(
            old(store)@,
            final(store)@,
            user_id,
            question@,
            answer_text@,
            out,
        ),
{
    let record = RecordedAnswer {
        user_id,
        question_key: question.key.clone(),
        value: AnswerValue::TextValue(String::from_str(answer_text)),
    };
    add_follow_up_question(store, user_id, question, answer_text);
    let reply = ask_next_question(store, user_id);
    let mut messages: Vec<Reply> = Vec::new();
    messages.push(reply);
    Outcome { messages, record: Some(record), media: None }
}

/// Dispatches an inbound answer against the current question by the
/// question's answer kind, as [`answer_outcome_ok`] lays out.
pub fn handle_answer(store: &mut SessionStore, upd: &Update, question: Question) -> (out: Outcome)
    ensures
        answer_outcome_ok(old(store)@, final(store)@, *upd, question@, out),
{
    let kind = answer_kind(&question);
    match kind {
        AnswerKind::FreeText | AnswerKind::Range | AnswerKind::Boolean => match &upd.text {
            Some(t) => on_question_answered(store, upd.user_id, t.as_str(), question),
            None => single_msg_outcome("Invalid answer, please try again"),
        },
        AnswerKind::Numeric => match &upd.text {
            Some(t) => {
                if crate::text::is_valid_number(t.as_str()) {
                    on_question_answered(store, upd.user_id, t.as_str(), question)
                } else {
                    single_msg_outcome("Invalid number, please try again")
                }
            },
            None => single_msg_outcome("Invalid number, please try again"),
        },
        AnswerKind::Location => match upd.location {
            Some(point) => {
                let record = RecordedAnswer {
                    user_id: upd.user_id,
                    question_key: question.key.clone(),
                    value: AnswerValue::LocationValue(point),
                };
                let reply = ask_next_question(store, upd.user_id);
                let mut messages: Vec<Reply> = Vec::new();
                messages.push(reply);
                Outcome { messages, record: Some(record), media: None }
            },
            None => single_msg_outcome("Invalid location, please try again"),
        },
        AnswerKind::Image => match &upd.photo {
            Some(file_id) => {
                let media = MediaUpload { user_id: upd.user_id, file_id: file_id.clone() };
                let reply = ask_next_question(store, upd.user_id);
                let mut messages: Vec<Reply> = Vec::new();
                messages.push(reply);
                Outcome { messages, record: None, media: Some(media) }
            },
            None => {
                let first = single_msg("Invalid image, please try again");
                let reply = ask_next_question(store, upd.user_id);
                let mut messages: Vec<Reply> = Vec::new();
                messages.push(first);
                messages.push(reply);
                Outcome { messages, record: None, media: None }
            },
        },
        AnswerKind::Unrecognized => single_msg_outcome(
            "Sorry, I don't know how to handle this answer type",
        ),
    }
}

/// The help message listing the supported commands.
pub open spec fn help_text() -> Seq<char> {
    "These commands are supported:\n/help - show all commands\n/skip - skip the current question\n/skipall - remove all queued questions\n/awake - track after waking up"@
}

/// Whether the outcome is the help response, sent without touching state.
pub open spec fn help_outcome(out: Outcome) -> bool {
    &&& out.messages@.len() == 1
    &&& msg_is(out.messages@[0], help_text())
    &&& no_side_effects(out)
}

/// Builds the help reply.
fn help_msg() -> (r: Reply)
    ensures
        msg_is(r, help_text()),
{
    single_msg(
        "These commands are supported:\n/help - show all commands\n/skip - skip the current question\n/skipall - remove all queued questions\n/awake - track after waking up",
    )
}

/// Sends the help message listing the supported commands.
pub fn on_help() -> (out: Outcome)
    ensures
        help_outcome(out),
{
    let mut messages: Vec<Reply> = Vec::new();
    messages.push(help_msg());
    Outcome { messages, record: None, media: None }
}

/// Whether the outcome answers an unrecognized command: the state is left
/// alone and the user is pointed at the help text.
pub open spec fn invalid_command_outcome(
    m0: Map<i64, SessModel>,
    m1: Map<i64, SessModel>,
    out: Outcome,
) -> bool {
    &&& m1 == m0
    &&& no_side_effects(out)
    &&& out.messages@.len() == 2
    &&& msg_is(out.messages@[0], "Invalid command, try the following"@)
    &&& msg_is(out.messages@[1], help_text())
}

/// Builds the unrecognized-command response: the rejection note followed
/// by the help text.
fn invalid_command_messages() -> (out: Outcome)
    ensures
        out.messages@.len() == 2,
        msg_is(out.messages@[0], "Invalid command, try the following"@),
        msg_is(out.messages@[1], help_text()),
        no_side_effects(out),
{
    let mut messages: Vec<Reply> = Vec::new();
    messages.push(single_msg("Invalid command, try the following"));
    messages.push(help_msg());
    Outcome { messages, record: None, media: None }
}

/// The outcome of a catalog command: an invalid command is rejected with
/// help and no change; a valid one enqueues the catalog's questions, and
/// then either defers to the outstanding current question or advances and
/// presents the first new question.
pub open spec fn command_outcome_ok(
    m0: Map<i64, SessModel>,
    m1: Map<i64, SessModel>,
    user_id: i64,
    command: Seq<char>,
    out: Outcome,
) -> bool {
    if !spec_valid_command(command) {
        invalid_command_outcome(m0, m1, out)
    } else {
        let m_q = enqueue_model(m0, user_id, command_catalog());
        &&& no_side_effects(out)
        &&& if current_of(m0, user_id) is Some {
            &&& m1 == m_q
            &&& out.messages@.len() == 1
            &&& msg_is(out.messages@[0], "Okay, but answer my previous question first"@)
        } else {
            &&& m1 == advance_model(m_q, user_id)
            &&& out.messages@.len() == 1
            &&& advance_reply_ok(m_q, user_id, out.messages@[0])
        }
    }
}

/// Handles a command message: validates it against the allow-list, loads
/// the catalog's questions into the queue, and either asks the first one
/// or, while another question is still awaited, says so.
pub fn on_question_command(store: &mut SessionStore, user_id: i64, command: &str) -> (out: Outcome)
    ensures
        command_outcome_ok(old(store)@, final(store)@, user_id, command@, out),
{
    if !is_valid_command(command) {
        return invalid_command_messages();
    }
    let current = store.get_current_question(user_id);
    let questions = get_all_questions(command);
    store.add_questions(user_id, questions);
    if current.is_some() {
        single_msg_outcome("Okay, but answer my previous question first")
    } else {
        let reply = ask_next_question(store, user_id);
        let mut messages: Vec<Reply> = Vec::new();
        messages.push(reply);
        Outcome { messages, record: None, media: None }
    }
}

/// The outcome of a skip: with no question awaited there is nothing to
/// skip and nothing changes; otherwise the current question is discarded
/// without recording an answer and the next one is presented at once.
pub open spec fn skip_outcome_ok(
    m0: Map<i64, SessModel>,
    m1: Map<i64, SessModel>,
    user_id: i64,
    out: Outcome,
) -> bool {
    if current_of(m0, user_id) is None {
        unchanged_single_msg(m0, m1, out, "No question to skip"@)
    } else {
        &&& m1 == advance_model(m0, user_id)
        &&& no_side_effects(out)
        &&& out.messages@.len() == 2
        &&& msg_is(out.messages@[0], "Skipping the question"@)
        &&& advance_reply_ok(m0, user_id, out.messages@[1])
    }
}

/// Skips the current question: discards it without recording an answer
/// and presents whatever comes next; with nothing awaited it only says so.
pub fn on_skip(store: &mut SessionStore, user_id: i64) -> (out: Outcome)
    ensures
        skip_outcome_ok(old(store)@, final(store)@, user_id, out),
{
    let current = store.get_current_question(user_id);
    if current.is_none() {
        return single_msg_outcome("No question to skip");
    }
    let first = single_msg("Skipping the question");
    let reply = ask_next_question(store, user_id);
    let mut messages: Vec<Reply> = Vec::new();
    messages.push(first);
    messages.push(reply);
    Outcome { messages, record: None, media: None }
}

/// The outcome of clearing everything: the user's whole session is
/// dropped and the emptying is confirmed.
pub open spec fn skip_all_outcome_ok(
    m0: Map<i64, SessModel>,
    m1: Map<i64, SessModel>,
    user_id: i64,
    out: Outcome,
) -> bool {
    &&& m1 == clear_all_model(m0, user_id)
    &&& no_side_effects(out)
    &&& out.messages@.len() == 1
    &&& msg_is(out.messages@[0], "All questions removed from the queue"@)
}

/// Empties the user's queue and clears the awaited question, confirming
/// the removal.
pub fn on_skip_all(store: &mut SessionStore, user_id: i64) -> (out: Outcome)
    ensures
        skip_all_outcome_ok(old(store)@, final(store)@, user_id, out),
{
    let out = single_msg_outcome("All questions removed from the queue");
    store.remove_all_questions(user_id);
    out
}

/// The outcome of a non-command message: command syntax that reached this
/// fallback is unrecognized and rejected with help; otherwise the message
/// answers the awaited question, or, with none awaited, the user is told
/// the session was forgotten and to start over with a command.
pub open spec fn message_outcome_ok(
    m0: Map<i64, SessModel>,
    m1: Map<i64, SessModel>,
    upd: Update,
    out: Outcome,
) -> bool {
    if (upd.text matches Some(t) && spec_is_command(t@)) {
        invalid_command_outcome(m0, m1, out)
    } else {
        match current_of(m0, upd.user_id) {
            Some(q) => answer_outcome_ok(m0, m1, upd, q, out),
            None => unchanged_single_msg(m0, m1, out, forgotten_text()),
        }
    }
}

/// The message sent when a non-command message arrives with nothing
/// awaited.
pub open spec fn forgotten_text() -> Seq<char> {
    "Sorry, I forgot the question I asked, this usually means it took too long for you to respond, please trigger the question again by running the `/` command"@
}

/// Handles a non-command message (or an unrecognized command that fell
/// through the routing): routes it to the awaited question's dispatcher,
/// or reports that no question is awaited.
pub fn message_handler(store: &mut SessionStore, upd: &Update) -> (out: Outcome)
    ensures
        message_outcome_ok(old(store)@, final(store)@, *upd, out),
{
    let is_cmd = match &upd.text {
        Some(t) => is_command_text(t.as_str()),
        None => false,
    };
    if is_cmd {
        return invalid_command_messages();
    }
    match store.get_current_question(upd.user_id) {
        Some(question) => handle_answer(store, upd, question),
        None => single_msg_outcome(
            "Sorry, I forgot the question I asked, this usually means it took too long for you to respond, please trigger the question again by running the `/` command",
        ),
    }
}

/// Acknowledges a callback query.
pub fn callback_handler() -> (r: Reply)
    ensures
        msg_is(r, "Callback Handler"@),
{
    single_msg("Callback Handler")
}

/// Acknowledges an inline query.
pub fn inline_query_handler() -> (r: Reply)
    ensures
        msg_is(r, "Inline Query Handler"@),
{
    single_msg("Inline Query Handler")
}

/// The routing table for one inbound update: `/help`, `/skip` and
/// `/skipall` go to their handlers, any other command syntax goes to the
/// catalog-command handler, and everything else is treated as an answer
/// or reported as an expired session.
pub open spec fn update_outcome_ok(
    m0: Map<i64, SessModel>,
    m1: Map<i64, SessModel>,
    upd: Update,
    out: Outcome,
) -> bool {
    match upd.text {
        Some(t) => {
            if !spec_is_command(t@) {
                message_outcome_ok(m0, m1, upd, out)
            } else if t@ == "/help"@ {
                m1 == m0 && help_outcome(out)
            } else if t@ == "/skip"@ {
                skip_outcome_ok(m0, m1, upd.user_id, out)
            } else if t@ == "/skipall"@ {
                skip_all_outcome_ok(m0, m1, upd.user_id, out)
            } else {
                command_outcome_ok(m0, m1, upd.user_id, t@, out)
            }
        },
        None => message_outcome_ok(m0, m1, upd, out),
    }
}

/// Routes one inbound update to its handler and returns everything the
/// caller must perform for it.
pub fn handle_update(store: &mut SessionStore, upd: &Update) -> (out: Outcome)
    ensures
        update_outcome_ok(old(store)@, final(store)@, *upd, out),
{
    let is_cmd = match &upd.text {
        Some(t) => is_command_text(t.as_str()),
        None => false,
    };
    if is_cmd {
        let t: &str = match &upd.text {
            Some(t) => t.as_str(),
            None => unreached(),
        };
        if str_eq(t, "/help") {
            on_help()
        } else if str_eq(t, "/skip") {
            on_skip(store, upd.user_id)
        } else if str_eq(t, "/skipall") {
            on_skip_all(store, upd.user_id)
        } else {
            on_question_command(store, upd.user_id, t)
        }
    } else {
        message_handler(store, upd)
    }
}

/// Law: a number answer that fails to parse is rejected without touching
/// the session, and sending the same malformed text again is rejected
/// identically: both outcomes carry the same single rejection message and
/// the session ends where it began.
pub proof fn lemma_invalid_number_is_idempotent(
    m0: Map<i64, SessModel>,
    m1: Map<i64, SessModel>,
    m2: Map<i64, SessModel>,
    upd: Update,
    q: QuestionModel,
    out1: Outcome,
    out2: Outcome,
)
    requires
        upd.text matches Some(t) && !spec_is_command(t@) && !spec_is_i32(t@),
        current_of(m0, upd.user_id) == Some(q),
        kind_of(q) == AnswerKind::Numeric,
        update_outcome_ok(m0, m1, upd, out1),
        update_outcome_ok(m1, m2, upd, out2),
    ensures
        m1 == m0,
        m2 == m0,
        out1.messages@.len() == 1,
        msg_is(out1.messages@[0], "Invalid number, please try again"@),
        reply_models(out2.messages@) == reply_models(out1.messages@),
        no_side_effects(out1),
        no_side_effects(out2),
{
    assert(reply_models(out2.messages@) =~~= reply_models(out1.messages@));
}

/// Law: once the queue is drained, one more advance yields the terminal
/// completion message and clears the awaited question, and the store it
/// leaves behind is a fixed point of advancing: completion is reported
/// for the drained queue once, not accumulated.
pub proof fn lemma_drained_queue_completion(m: Map<i64, SessModel>, user_id: i64, r: Reply)
    requires
        pending_of(m, user_id).len() == 0,
        advance_reply_ok(m, user_id, r),
    ensures
        msg_is(r, "All done for now"@),
        current_of(advance_model(m, user_id), user_id) is None,
        advance_model(advance_model(m, user_id), user_id) == advance_model(m, user_id),
{
    crate::session::lemma_advance_on_empty(m, user_id);
}

} // verus!
