//! The decision core of each route handler.
//!
//! The handlers themselves live outside this crate: they parse the request,
//! run the authorization guard, query the store and call the moderation
//! provider.  What they decide with those answers is here, as functions on
//! plain values, so that the order and outcome of every decision is
//! verified: ownership is settled strictly before moderation, moderation of
//! both fields strictly before any cleaned resource exists, and a failure
//! anywhere yields exactly one failure kind.

use vstd::prelude::*;
use crate::account::AccountId;
use crate::account::Session;
use crate::errors::Error;
use crate::moderation::combine_moderation;
use crate::moderation::spec_combine;
use crate::answer::NewAnswer;
use crate::pagination::Pagination;
use crate::pagination::extract_pagination;
use crate::pagination::spec_extract_pagination;
use crate::question::NewQuestion;
use crate::question::Question;
use crate::question::QuestionId;

verus! {

/// What the listing route asks the store for: the default window when the
/// request carries no parameters, else the extracted ones.
pub open spec fn spec_get_questions(ps: Seq<(String, String)>) -> Result<Pagination, Error> {
    if ps.len() == 0 {
        Ok(Pagination { limit: None, offset: 0 })
    } else {
        spec_extract_pagination(ps)
    }
}

/// The decision of the question-listing route: the pagination window the
/// store will be queried with.  Listing is unauthenticated by design.
pub fn get_questions(params: &Vec<(String, String)>) -> (r: Result<Pagination, Error>)
    ensures
        r == spec_get_questions(params@),
{
    if params.len() == 0 {
        Ok(Pagination { limit: None, offset: 0 })
    } else {
        extract_pagination(params)
    }
}

/// The decision of the question-creation route, after the guard has
/// yielded a session and both moderation calls have answered: the cleaned
/// question and its owner when both fields came back clean, else the one
/// failure that fails the whole request — never a question with only one
/// field cleaned.
pub fn add_question(
    session: &Session,
    title: Result<String, Error>,
    content: Result<String, Error>,
    tags: Option<Vec<String>>,
) -> (r: Result<(NewQuestion, AccountId), Error>)
    ensures
        match spec_combine(title, content) {
            Ok((t, c)) => r == Ok::<(NewQuestion, AccountId), Error>(
                (NewQuestion { title: t, content: c, tags }, session.account_id),
            ),
            Err(e) => r == Err::<(NewQuestion, AccountId), Error>(e),
        },
{
    match combine_moderation(title, content) {
        Ok((t, c)) => Ok((NewQuestion { title: t, content: c, tags }, session.account_id)),
        Err(e) => Err(e),
    }
}

/// The decision of the question-update route, after the ownership guard
/// has passed and both moderation calls have answered: the stored
/// question with both fields replaced by their cleaned text, same id and
/// tags, or the one failure — never a question with only one field
/// cleaned.
pub fn update_question(
    question: Question,
    title: Result<String, Error>,
    content: Result<String, Error>,
) -> (r: Result<Question, Error>)
    ensures
        match spec_combine(title, content) {
            Ok((t, c)) => r == Ok::<Question, Error>(
                Question { id: question.id, title: t, content: c, tags: question.tags },
            ),
            Err(e) => r == Err::<Question, Error>(e),
        },
{
    match combine_moderation(title, content) {
        Ok((t, c)) => Ok(Question { id: question.id, title: t, content: c, tags: question.tags }),
        Err(e) => Err(e),
    }
}

/// The decision of the answer-creation route, after the guard has
/// yielded a session and the moderation call for the answer's content has
/// answered: the cleaned answer when the content came back clean, else
/// the failure that fails the whole request — an uncleaned answer is
/// never produced.
pub fn add_answer(content: Result<String, Error>, question_id: QuestionId) -> (r: Result<
    NewAnswer,
    Error,
>)
    ensures
        match content {
            Ok(c) => r == Ok::<NewAnswer, Error>(NewAnswer { content: c, question_id }),
            Err(e) => r == Err::<NewAnswer, Error>(e),
        },
{
    match content {
        Ok(c) => Ok(NewAnswer { content: c, question_id }),
        Err(e) => Err(e),
    }
}

} // verus!
