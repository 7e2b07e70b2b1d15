//! The request-level outcomes of the four API operations: fetch, create and
//! delete a user, and log in for a token. Every storage failure and
//! credential mismatch collapses into the one internal error the API
//! surfaces, and the best-effort notification mail never changes a result.

use vstd::prelude::*;

use crate::models::UniqueUser;
use crate::models::User;
use crate::store::UserStore;
use crate::store::find_by_credentials;
use crate::store::find_by_id;
use crate::store::find_by_mail;
use crate::token::Claims;
use crate::token::TOKEN_LIFETIME_SECS;
use crate::token::claims_of;
use crate::token::current_timestamp;
use crate::token::make_claims;
use crate::token::sign_claims;
use crate::token::token_of;

verus! {

/// The one error kind the API surfaces to callers.
#[derive(Clone, Copy, PartialEq, Eq, Structural, Debug)]
pub enum ApiError {
    /// Internal server error: covers storage failure and credential mismatch
    /// alike; no distinct not-found or unauthorized signal is exposed.
    Internal,
}

/// Outcome of the best-effort notification mail sent after a successful
/// creation; the mail transport itself is an outside collaborator.
#[derive(Clone, Copy, PartialEq, Eq, Structural, Debug)]
pub enum MailOutcome {
    Sent,
    Failed,
}

/// Fetch the authenticated caller's record; the caller's identity comes from
/// a previously verified token's claims.
pub fn get_user(store: &UserStore, caller: &Claims) -> (r: Result<User, ApiError>)
    ensures
        match r {
            Ok(u) => find_by_id(store@, caller.id) == Some(u@),
            Err(e) => e == ApiError::Internal && find_by_id(store@, caller.id) is None,
        },
{
    match store.get_user(caller.id) {
        Ok(u) => Ok(u),
        Err(_) => Err(ApiError::Internal),
    }
}

/// Create a user from the submitted form and hand the stored record back.
/// Succeeds exactly when the mail address is fresh and an id is left to hand
/// out; any failure surfaces as the internal error.
pub fn add_user(store: &mut UserStore, form: &UniqueUser) -> (r: Result<User, ApiError>)
    requires
        old(store).wf(),
    ensures
        final(store).wf(),
        match r {
            Ok(u) => {
                &&& find_by_mail(old(store)@, form@.mail) is None
                &&& old(store).id_bound() < u64::MAX
                &&& u@.id == old(store).id_bound()
                &&& u@.mail == form@.mail
                &&& u@.password == form@.password
                &&& final(store)@ == old(store)@.push(u@)
                &&& final(store).id_bound() == old(store).id_bound() + 1
            },
            Err(e) => {
                &&& e == ApiError::Internal
                &&& final(store)@ == old(store)@
                &&& final(store).id_bound() == old(store).id_bound()
                &&& (find_by_mail(old(store)@, form@.mail) is Some || old(store).id_bound()
                    == u64::MAX)
            },
        },
{
    match store.add_user(form) {
        Ok(u) => Ok(u),
        Err(_) => Err(ApiError::Internal),
    }
}

/// What the create call answers, given the stored-record result and the
/// outcome of the notification mail: the mail outcome plays no part.
pub open spec fn add_user_response_spec(created: Result<User, ApiError>, mail: MailOutcome) -> Result<
    User,
    ApiError,
> {
    created
}

/// Combine the creation result with the notification-mail outcome into the
/// response of the create call; the mail outcome is discarded
/// unconditionally.
pub fn add_user_response(created: Result<User, ApiError>, mail: MailOutcome) -> (r: Result<
    User,
    ApiError,
>)
    ensures
        r == add_user_response_spec(created, mail),
{
    created
}

/// Law: a mail-send failure never changes the outcome of the create call —
/// the response is the same whatever became of the notification.
pub proof fn lemma_mail_outcome_ignored(
    created: Result<User, ApiError>,
    m1: MailOutcome,
    m2: MailOutcome,
)
    ensures
        add_user_response_spec(created, m1) == add_user_response_spec(created, m2),
{
}

/// Delete the authenticated caller's record and hand the deleted record
/// back; any failure surfaces as the internal error.
pub fn del_user(store: &mut UserStore, caller: &Claims) -> (r: Result<User, ApiError>)
    requires
        old(store).wf(),
    ensures
        final(store).wf(),
        final(store).id_bound() == old(store).id_bound(),
        match r {
            Ok(u) => {
                &&& find_by_id(old(store)@, caller.id) == Some(u@)
                &&& exists|k: int|
                    0 <= k < old(store)@.len() && old(store)@[k].id == caller.id && final(store)@
                        == old(store)@.remove(k)
            },
            Err(e) => {
                &&& e == ApiError::Internal
                &&& find_by_id(old(store)@, caller.id) is None
                &&& final(store)@ == old(store)@
            },
        },
{
    match store.delete_user(caller.id) {
        Ok(u) => Ok(u),
        Err(_) => Err(ApiError::Internal),
    }
}

/// Log in with the submitted credentials at issuance time `now`, signing
/// with `secret`. On a match the token carries claims with the matched
/// user's id and an expiry strictly greater than the issuance time; on a
/// mismatch — and only then — the internal error comes back.
pub fn login(store: &UserStore, form: &UniqueUser, now: u64, secret: &[u8]) -> (r: Result<
    String,
    ApiError,
>)
    requires
        now <= u64::MAX - TOKEN_LIFETIME_SECS,
    ensures
        match r {
            Ok(token) => ({
                let m = find_by_credentials(store@, form@);
                let exp = (now + TOKEN_LIFETIME_SECS) as u64;
                &&& m is Some
                &&& token@ == token_of(secret@, m.unwrap().id, exp)
                &&& claims_of(secret@, token@) == Some((m.unwrap().id, exp))
                &&& exp > now
            }),
            Err(e) => e == ApiError::Internal && find_by_credentials(store@, form@) is None,
        },
{
    let user = match store.credentials_get_user(form) {
        Ok(u) => u,
        Err(_) => return Err(ApiError::Internal),
    };
    let claims = make_claims(user.id, now);
    Ok(sign_claims(secret, &claims))
}

/// Log in, reading the issuance time from the system clock. A credential
/// mismatch always fails; a success carries a token signed for the matched
/// user at some clock reading of this call.
pub fn login_now(store: &UserStore, form: &UniqueUser, secret: &[u8]) -> (r: Result<
    String,
    ApiError,
>)
    ensures
        find_by_credentials(store@, form@) is None ==> r is Err,
        match r {
            Ok(token) => ({
                let m = find_by_credentials(store@, form@);
                &&& m is Some
                &&& exists|now: u64|
                    now <= u64::MAX - TOKEN_LIFETIME_SECS && token@ == #[trigger] token_of(
                        secret@,
                        m.unwrap().id,
                        (now + TOKEN_LIFETIME_SECS) as u64,
                    ) && claims_of(secret@, token@) == Some(
                        (m.unwrap().id, (now + TOKEN_LIFETIME_SECS) as u64),
                    )
            }),
            Err(e) => e == ApiError::Internal,
        },
{
    let now = current_timestamp();
    if now > u64::MAX - TOKEN_LIFETIME_SECS {
        return Err(ApiError::Internal);
    }
    login(store, form, now, secret)
}

} // verus!
