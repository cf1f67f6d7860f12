//! The answer resource.

use vstd::prelude::*;
use crate::question::QuestionId;

verus! {

/// Numeric identity of an answer, assigned by the store on creation.
#[derive(Debug, Clone, Copy, PartialEq, Eq, Hash, Structural)]
pub struct AnswerId(pub i32);

/// A stored answer to a question.
#[derive(Debug, Clone, PartialEq, Eq)]
pub struct Answer {
    pub id: AnswerId,
    pub content: String,
    pub question_id: QuestionId,
}

/// An answer as submitted for creation, before the store assigns an id.
#[derive(Debug, Clone, PartialEq, Eq)]
pub struct NewAnswer {
    pub content: String,
    pub question_id: QuestionId,
}

} // verus!
