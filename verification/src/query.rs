//! The parsed intent of a research question.

use vstd::prelude::*;

use crate::strutil::clone_strings;

verus! {

/// The broad kind of question being asked.
#[derive(Clone, Copy, Debug, PartialEq, Eq, Structural)]
pub enum QuestionType {
    Factual,
    Comparison,
    Explanation,
    CurrentEvent,
    HowTo,
    Opinion,
}

/// A time bound the question carries, with instants as milliseconds since
/// the Unix epoch.
#[derive(Clone, Copy, Debug, PartialEq, Eq, Structural)]
pub enum TimeConstraint {
    Recent,
    Historical,
    SpecificDate(i64),
    DateRange { from: Option<i64>, to: Option<i64> },
}

/// What the question asks for: its kind, the entities it names, a time
/// bound, and its language.
pub struct QueryIntent {
    pub question_type: QuestionType,
    pub entities: Vec<String>,
    pub time_constraint: Option<TimeConstraint>,
    pub language: String,
}

impl QueryIntent {
    /// Creates an intent of the given kind, in English, with no entities.
    pub fn new(question_type: QuestionType) -> (r: QueryIntent)
        ensures
            r.question_type == question_type,
            r.entities@.len() == 0,
            r.time_constraint is None,
            r.language@ == "en"@,
    {
        QueryIntent {
            question_type,
            entities: Vec::new(),
            time_constraint: None,
            language: "en".to_owned(),
        }
    }

    /// Replaces the named entities.
    pub fn with_entities(self, entities: Vec<String>) -> (r: QueryIntent)
        ensures
            r.entities == entities,
            r.question_type == self.question_type,
            r.time_constraint == self.time_constraint,
            r.language == self.language,
    {
        QueryIntent { entities, ..self }
    }

    /// Records a time bound.
    pub fn with_time_constraint(self, constraint: TimeConstraint) -> (r: QueryIntent)
        ensures
            r.time_constraint == Some(constraint),
            r.question_type == self.question_type,
            r.entities == self.entities,
            r.language == self.language,
    {
        QueryIntent { time_constraint: Some(constraint), ..self }
    }

    /// Records the language of the question.
    pub fn with_language(self, language: &str) -> (r: QueryIntent)
        ensures
            r.language@ == language@,
            r.question_type == self.question_type,
            r.entities == self.entities,
            r.time_constraint == self.time_constraint,
    {
        QueryIntent { language: language.to_owned(), ..self }
    }
}

/// The mathematical value of an intent.
pub ghost struct IntentView {
    pub question_type: QuestionType,
    pub entities: Seq<Seq<char>>,
    pub time_constraint: Option<TimeConstraint>,
    pub language: Seq<char>,
}

impl View for QueryIntent {
    type V = IntentView;

    open spec fn view(&self) -> IntentView {
        IntentView {
            question_type: self.question_type,
            entities: self.entities.deep_view(),
            time_constraint: self.time_constraint,
            language: self.language@,
        }
    }
}

/// Two intents agree field by field; the entity lists agree element by
/// element.
pub open spec fn intent_equiv(a: &QueryIntent, b: &QueryIntent) -> bool {
    a.question_type == b.question_type && a.entities@ == b.entities@ && a.time_constraint
        == b.time_constraint && a.language == b.language
}

impl Clone for QueryIntent {
    fn clone(&self) -> (r: Self)
        ensures
            intent_equiv(&r, self),
            r@ == self@,
    {
        let r = QueryIntent {
            question_type: self.question_type,
            entities: clone_strings(&self.entities),
            time_constraint: self.time_constraint,
            language: self.language.clone(),
        };
        proof {
            assert(r.entities.deep_view() =~= self.entities.deep_view());
        }
        r
    }
}

} // verus!
