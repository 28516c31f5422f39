//! The server's request handlers, as functions from request, store and
//! clock to response and new store state.
//!
//! The transport layer only decodes a request, calls one of these with the
//! current time, and renders the result; every decision is made here.

use crate::errors::ApiError;
use crate::store::{Paste, PasteStore, fresh_paste_id, is_paste_id};
use crate::timefmt::{DEFAULT_TTL_SECS, parse_rfc3339, rfc3339_timestamp};
use crate::wire::{CreatePasteRequest, CreatePasteResponse, GetPasteResponse};
use vstd::prelude::*;

verus! {

/// The expiry a creation request asks for: its timestamp when one is
/// given (nothing when that is unparsable), one day past now when none is.
pub open spec fn requested_expiry(req: CreatePasteRequest, now: i64) -> Option<int> {
    match req.expires_at {
        Some(s) => rfc3339_timestamp(s@),
        None => Some(now + DEFAULT_TTL_SECS),
    }
}

/// Handle a creation request at time `now`: resolve the expiry, draw a
/// fresh identifier, and persist the blob.
///
/// Refuses with a validation error exactly when the request carries an
/// unparsable expiry; reports a storage error, leaving the store
/// unchanged, only when the fresh identifier collides with a stored one —
/// which an empty store rules out.
pub fn create_paste(store: &mut PasteStore, req: CreatePasteRequest, now: i64) -> (r: Result<
    CreatePasteResponse,
    ApiError,
>)
    requires
        old(store).wf(),
        req.expires_at is None ==> now <= i64::MAX - DEFAULT_TTL_SECS,
    ensures
        final(store).wf(),
        r == Err::<CreatePasteResponse, ApiError>(ApiError::Validation) <==> requested_expiry(
            req,
            now,
        ) is None,
        r is Err ==> final(store).entries() == old(store).entries(),
        r matches Err(e) ==> e == ApiError::Validation || e == ApiError::Storage,
        r == Err::<CreatePasteResponse, ApiError>(ApiError::Storage)
            ==> old(store).entries().len() > 0,
        r matches Ok(resp) ==> {
            let stored = final(store).entries().last();
            &&& requested_expiry(req, now) matches Some(exp) && stored.expires_at == exp
            &&& !old(store).has_id(resp.uuid@)
            &&& final(store).entries() == old(store).entries().push(stored)
            &&& stored.id@ == resp.uuid@
            &&& stored.content@ == req.content@
            &&& is_paste_id(resp.uuid@)
        },
{
    let expires_at: i64 = match &req.expires_at {
        Some(s) => {
            match parse_rfc3339(s.as_str()) {
                Some(t) => t,
                None => {
                    return Err(ApiError::Validation);
                },
            }
        },
        None => now + DEFAULT_TTL_SECS,
    };
    let id = fresh_paste_id();
    let uuid = id.clone();
    match store.put(id, req.content, expires_at) {
        Ok(_) => Ok(CreatePasteResponse { uuid }),
        Err(e) => Err(e),
    }
}

/// Handle a retrieval request at time `now`: return the blob stored under
/// the id exactly when the paste is live, and not-found otherwise — an
/// expired paste answers as if it never existed.
pub fn get_paste(store: &PasteStore, uuid: &String, now: i64) -> (r: Result<
    GetPasteResponse,
    ApiError,
>)
    requires
        store.wf(),
    ensures
        r is Ok <==> store.is_live(uuid@, now),
        r matches Ok(resp) ==> store.spec_get(uuid@) matches Some(p) && resp.content@
            == p.content@,
        r matches Err(e) ==> e == ApiError::NotFound,
{
    match store.get(uuid, now) {
        Ok(content) => Ok(GetPasteResponse { content }),
        Err(_) => Err(ApiError::NotFound),
    }
}

/// Handle a sweep request at time `now`: delete every expired paste and
/// report how many went.
pub fn clean_expired(store: &mut PasteStore, now: i64) -> (r: usize)
    requires
        old(store).wf(),
    ensures
        final(store).wf(),
        final(store).entries() == old(store).entries().filter(|p: Paste| p.expires_at > now),
        r == old(store).entries().len() - final(store).entries().len(),
{
    store.sweep_expired(now)
}

/// Liveness probe: answers, independent of any paste data.
pub fn health_check() -> (r: bool)
    ensures
        r,
{
    true
}

/// The HTTP status a server reports for each failure: bad request for a
/// malformed field, not-found for an unknown or expired id, internal
/// error for a storage failure.
pub fn status_of(e: ApiError) -> (r: u16)
    ensures
        e == ApiError::Validation ==> r == 400,
        e == ApiError::NotFound ==> r == 404,
        e == ApiError::Storage ==> r == 500,
{
    match e {
        ApiError::Validation => 400,
        ApiError::NotFound => 404,
        ApiError::Storage => 500,
    }
}

} // verus!
