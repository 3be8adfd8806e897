//! The quiz data model: what a schema-conformant payload describes.

use vstd::prelude::*;
use crate::json::{JsonModel, obj_lookup};

verus! {

/// One answer offered for a question.
pub struct Choice {
    pub text: String,
    pub is_correct: bool,
}

/// One question together with its offered answers.
pub struct Question {
    pub text: String,
    pub choices: Vec<Choice>,
}

/// A full quiz: the subject and difficulty it was generated for, and its
/// questions in order.
pub struct Quiz {
    pub subject: String,
    pub difficulty: String,
    pub questions: Vec<Question>,
}

/// A parsed document conforms to the choice schema: an object with a string
/// `text` and a boolean `is_correct`.
pub open spec fn choice_wf(m: JsonModel) -> bool {
    &&& obj_lookup(m, "text"@) matches Some(t) && t is Text
    &&& obj_lookup(m, "is_correct"@) matches Some(b) && b is Bool
}

/// Every element conforms to the choice schema.
pub open spec fn all_choices_wf(cs: Seq<JsonModel>) -> bool {
    forall|i: int| 0 <= i < cs.len() ==> choice_wf(#[trigger] cs[i])
}

/// A parsed document conforms to the question schema: an object with a
/// string `text` and an array `choices` of conformant choices.
pub open spec fn question_wf(m: JsonModel) -> bool {
    &&& obj_lookup(m, "text"@) matches Some(t) && t is Text
    &&& obj_lookup(m, "choices"@) matches Some(JsonModel::Arr(cs)) && all_choices_wf(cs)
}

/// Every element conforms to the question schema.
pub open spec fn all_questions_wf(qs: Seq<JsonModel>) -> bool {
    forall|i: int| 0 <= i < qs.len() ==> question_wf(#[trigger] qs[i])
}

/// A parsed document conforms to the quiz schema: an object with a string
/// `subject`, a string `difficulty`, and an array `questions` of conformant
/// questions. Members beyond these are tolerated, and empty arrays conform:
/// the schema constrains shape only.
pub open spec fn quiz_wf(m: JsonModel) -> bool {
    &&& obj_lookup(m, "subject"@) matches Some(s) && s is Text
    &&& obj_lookup(m, "difficulty"@) matches Some(d) && d is Text
    &&& obj_lookup(m, "questions"@) matches Some(JsonModel::Arr(qs)) && all_questions_wf(qs)
}

/// The choice carries exactly what the document's choice holds.
pub open spec fn choice_models(c: Choice, m: JsonModel) -> bool {
    &&& obj_lookup(m, "text"@) matches Some(JsonModel::Text(t)) && c.text@ == t
    &&& obj_lookup(m, "is_correct"@) matches Some(JsonModel::Bool(b)) && c.is_correct == b
}

/// Each choice carries exactly what the corresponding document choice
/// holds, in order.
pub open spec fn all_choices_modeled(cv: Seq<Choice>, cs: Seq<JsonModel>) -> bool {
    cv.len() == cs.len() && (forall|i: int|
        0 <= i < cs.len() ==> choice_models(#[trigger] cv[i], cs[i]))
}

/// The question carries exactly what the document's question holds, choice
/// by choice, in order.
pub open spec fn question_models(q: Question, m: JsonModel) -> bool {
    &&& obj_lookup(m, "text"@) matches Some(JsonModel::Text(t)) && q.text@ == t
    &&& obj_lookup(m, "choices"@) matches Some(JsonModel::Arr(cs)) && all_choices_modeled(
        q.choices@,
        cs,
    )
}

/// Each question carries exactly what the corresponding document question
/// holds, in order.
pub open spec fn all_questions_modeled(qv: Seq<Question>, qs: Seq<JsonModel>) -> bool {
    qv.len() == qs.len() && (forall|i: int|
        0 <= i < qs.len() ==> question_models(#[trigger] qv[i], qs[i]))
}

/// The quiz carries exactly what the document holds, question by question,
/// in order.
pub open spec fn quiz_models(q: Quiz, m: JsonModel) -> bool {
    &&& obj_lookup(m, "subject"@) matches Some(JsonModel::Text(s)) && q.subject@ == s
    &&& obj_lookup(m, "difficulty"@) matches Some(JsonModel::Text(d)) && q.difficulty@ == d
    &&& obj_lookup(m, "questions"@) matches Some(JsonModel::Arr(qs)) && all_questions_modeled(
        q.questions@,
        qs,
    )
}

/// The question offers at least one answer marked correct.
pub open spec fn question_has_answer(q: Question) -> bool {
    exists|i: int| 0 <= i < q.choices@.len() && (#[trigger] q.choices@[i]).is_correct
}

/// Every question of the quiz offers at least one answer, one of them
/// marked correct. Schema validation does not enforce this; it is what a
/// well-behaved generation is asked to produce.
pub open spec fn quiz_has_answer_key(q: Quiz) -> bool {
    forall|i: int|
        0 <= i < q.questions@.len() ==> {
            &&& (#[trigger] q.questions@[i]).choices@.len() > 0
            &&& question_has_answer(q.questions@[i])
        }
}

impl Question {
    /// Whether this question offers at least one answer marked correct.
    pub fn has_answer(&self) -> (r: bool)
        ensures
            r == question_has_answer(*self),
    {
        let mut i: usize = 0;
        while i < self.choices.len()
            invariant
                0 <= i <= self.choices@.len(),
                forall|k: int| 0 <= k < i ==> !(#[trigger] self.choices@[k]).is_correct,
            decreases self.choices@.len() - i,
        {
            if self.choices[i].is_correct {
                return true;
            }
            i = i + 1;
        }
        false
    }
}

impl Quiz {
    /// Whether every question offers a non-empty list of answers with at
    /// least one marked correct.
    pub fn has_answer_key(&self) -> (r: bool)
        ensures
            r == quiz_has_answer_key(*self),
    {
        let mut i: usize = 0;
        while i < self.questions.len()
            invariant
                0 <= i <= self.questions@.len(),
                forall|k: int|
                    0 <= k < i ==> {
                        &&& (#[trigger] self.questions@[k]).choices@.len() > 0
                        &&& question_has_answer(self.questions@[k])
                    },
            decreases self.questions@.len() - i,
        {
            if self.questions[i].choices.len() == 0 {
                return false;
            }
            if !self.questions[i].has_answer() {
                return false;
            }
            i = i + 1;
        }
        true
    }
}

} // verus!
