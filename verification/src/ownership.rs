//! The per-resource ownership check and the mutation guard.
//!
//! Every mutable resource records the account that created it.  Before an
//! update or delete touches the store, that record is compared with the
//! authenticated session; anyone but the owner — including a caller
//! asking about a resource that does not exist — receives the same
//! unauthorized failure an unauthenticated caller would, so existence is
//! not leaked to non-owners.

use vstd::prelude::*;
use crate::account::AccountId;
use crate::account::Session;
use crate::errors::Error;
use crate::errors::STATUS_UNAUTHORIZED;
use crate::errors::spec_status;

verus! {

/// Whether the recorded owner of a resource is this account.  `owner` is
/// the store's record, `None` when the resource does not exist; absence
/// counts as "not owner".
pub open spec fn spec_is_owner(owner: Option<AccountId>, account_id: AccountId) -> bool {
    owner == Some(account_id)
}

/// The ownership predicate, evaluated on the store's answer to the
/// owner lookup for a resource.
pub fn is_owner(owner: Option<AccountId>, account_id: &AccountId) -> (r: bool)
    ensures
        r == spec_is_owner(owner, *account_id),
{
    match owner {
        Some(o) => o.0 == account_id.0,
        None => false,
    }
}

/// What the mutation guard decides: only the owner may proceed; everyone
/// else is unauthorized, in the same shape whatever the reason.
pub open spec fn spec_authorize_mutation(owner: Option<AccountId>, account_id: AccountId) -> Result<
    (),
    Error,
> {
    if spec_is_owner(owner, account_id) {
        Ok(())
    } else {
        Err(Error::Unauthorized)
    }
}

/// The mutation guard: run strictly before an update or delete touches a
/// resource, on the authenticated session and the store's owner record.
pub fn authorize_mutation(owner: Option<AccountId>, session: &Session) -> (r: Result<(), Error>)
    ensures
        r == spec_authorize_mutation(owner, session.account_id),
{
    if is_owner(owner, &session.account_id) {
        Ok(())
    } else {
        Err(Error::Unauthorized)
    }
}

/// An account other than the recorded owner is turned away with the
/// unauthorized failure, which the responder maps to 401 — so no
/// mutation of the resource is ever reached.
pub proof fn lemma_non_owner_rejected(owner_id: AccountId, other: AccountId)
    requires
        owner_id != other,
    ensures
        spec_authorize_mutation(Some(owner_id), other) == Err::<(), Error>(Error::Unauthorized),
        spec_status(Error::Unauthorized) == STATUS_UNAUTHORIZED,
{
}

/// A caller asking about an absent resource is turned away in exactly the
/// same shape as a non-owner: absence is not revealed.
pub proof fn lemma_absent_resource_not_leaked(account_id: AccountId, owner_id: AccountId)
    requires
        owner_id != account_id,
    ensures
        spec_authorize_mutation(None, account_id) == spec_authorize_mutation(
            Some(owner_id),
            account_id,
        ),
{
}

} // verus!
