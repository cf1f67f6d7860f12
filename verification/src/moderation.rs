//! Classification of the external moderation provider's replies, and the
//! all-or-nothing join of the two per-field moderation calls.
//!
//! The HTTP call itself is made outside this crate; what comes back — the
//! status code and what could be read from the body — is classified here.
//! A 2xx reply yields the (possibly censored) text that replaces the
//! submitted field; everything else is a classified failure that fails the
//! whole request.  No retry happens here.

use vstd::prelude::*;
use crate::errors::APILayerError;
use crate::errors::Error;

verus! {

/// What the provider's reply classifies into.  `censored` is the censored
/// text if the body of a 2xx reply could be read, `message` the
/// provider's error message as far as the body of a failure reply gave
/// one.
pub open spec fn spec_classify(status: u16, censored: Option<String>, message: String) -> Result<
    String,
    Error,
> {
    if 200 <= status < 300 {
        match censored {
            Some(t) => Ok(t),
            None => Err(Error::ReqwestAPIError),
        }
    } else if 400 <= status < 500 {
        Err(Error::ClientError(APILayerError { status, message }))
    } else {
        Err(Error::ServerError(APILayerError { status, message }))
    }
}

/// Classifies one moderation reply.  A 2xx reply whose body was read
/// yields the censored text; a 2xx reply whose body could not be read is
/// the HTTP-client failure; a 4xx reply is the caller-side provider
/// failure and anything else the provider-side failure, each carrying
/// the provider's status and message for the operator log.
pub fn classify_moderation_response(status: u16, censored: Option<String>, message: String) -> (r:
    Result<String, Error>)
    ensures
        r == spec_classify(status, censored, message),
{
    if 200 <= status && status < 300 {
        match censored {
            Some(t) => Ok(t),
            None => Err(Error::ReqwestAPIError),
        }
    } else if 400 <= status && status < 500 {
        Err(Error::ClientError(APILayerError { status, message }))
    } else {
        Err(Error::ServerError(APILayerError { status, message }))
    }
}

/// The join of the two independent moderation outcomes for a resource's
/// title and content: the pair of cleaned texts when both succeeded,
/// else the title's failure, else the content's.
pub open spec fn spec_combine(title: Result<String, Error>, content: Result<String, Error>) -> Result<
    (String, String),
    Error,
> {
    match (title, content) {
        (Ok(t), Ok(c)) => Ok((t, c)),
        (Err(e), _) => Err(e),
        (Ok(_), Err(e)) => Err(e),
    }
}

/// Waits for both per-field moderation outcomes and commits to neither
/// unless both succeeded; if either failed, the other's result is
/// discarded and the failure propagates.
pub fn combine_moderation(title: Result<String, Error>, content: Result<String, Error>) -> (r:
    Result<(String, String), Error>)
    ensures
        r == spec_combine(title, content),
{
    match (title, content) {
        (Ok(t), Ok(c)) => Ok((t, c)),
        (Err(e), _) => Err(e),
        (Ok(_), Err(e)) => Err(e),
    }
}

/// If either moderation call fails, no partially-cleaned pair is ever
/// produced: the join fails, with the title's failure first and the
/// content's otherwise.
pub proof fn lemma_no_partial_moderation(title: Result<String, Error>, content: Result<
    String,
    Error,
>)
    requires
        title is Err || content is Err,
    ensures
        spec_combine(title, content) is Err,
        title is Err ==> spec_combine(title, content) == Err::<(String, String), Error>(
            title->Err_0,
        ),
        title is Ok && content is Err ==> spec_combine(title, content) == Err::<
            (String, String),
            Error,
        >(content->Err_0),
{
}

} // verus!
