//! The question resource: the mutable record the ownership rules guard.

use vstd::prelude::*;

verus! {

/// Numeric identity of a question, assigned by the store on creation.
#[derive(Debug, Clone, Copy, PartialEq, Eq, Hash, Structural)]
pub struct QuestionId(pub i32);

/// A stored question.  Its owner is recorded by the store; only the
/// owning account may update or delete it.
#[derive(Debug, Clone, PartialEq, Eq)]
pub struct Question {
    pub id: QuestionId,
    pub title: String,
    pub content: String,
    pub tags: Option<Vec<String>>,
}

/// A question as submitted for creation, before the store assigns an id.
/// Its free-text fields pass moderation before it is persisted.
#[derive(Debug, Clone, PartialEq, Eq)]
pub struct NewQuestion {
    pub title: String,
    pub content: String,
    pub tags: Option<Vec<String>>,
}

} // verus!
