//! The five operations on users. Each is a short exchange with the store:
//! a handler starts it, the caller makes the call that the handler asks
//! for, and [`resume`] takes the reply and says what comes next, another
//! call or the response.

use crate::http::{plain, Response, ResponseView, Status};
use crate::json::{decoded, user_json, user_to_json, users_json, users_to_json};
use crate::object_id::{decode_hex, is_object_id_text, UserId};
use crate::store::{StoreReply, StoreReplyView, StoreRequest, StoreRequestView};
use crate::user::{UserFields, UserFieldsView};
use vstd::prelude::*;

verus! {

/// Where an operation stands while a call is under way.
#[derive(Clone, Debug, PartialEq, Eq)]
pub enum Pending {
    /// Create: the insert.
    CreateInsert,
    /// Create: the fetch of what was inserted.
    CreateFetch,
    /// List: the listing.
    List,
    /// Get: the fetch.
    Get,
    /// Update: the update of the document under `id`.
    UpdateWrite { id: UserId },
    /// Update: the fetch of what was updated.
    UpdateFetch,
    /// Delete: the delete.
    Delete,
}

/// The mathematical value of a [`Pending`].
#[verifier::ext_equal]
pub enum PendingView {
    CreateInsert,
    CreateFetch,
    List,
    Get,
    UpdateWrite { id: Seq<u8> },
    UpdateFetch,
    Delete,
}

impl View for Pending {
    type V = PendingView;

    open spec fn view(&self) -> PendingView {
        match self {
            Pending::CreateInsert => PendingView::CreateInsert,
            Pending::CreateFetch => PendingView::CreateFetch,
            Pending::List => PendingView::List,
            Pending::Get => PendingView::Get,
            Pending::UpdateWrite { id } => PendingView::UpdateWrite { id: id@ },
            Pending::UpdateFetch => PendingView::UpdateFetch,
            Pending::Delete => PendingView::Delete,
        }
    }
}

/// What a handler wants next.
#[derive(Clone, Debug, PartialEq, Eq)]
pub enum Step {
    /// Make this call, then hand `then` and the reply to [`resume`].
    Call { request: StoreRequest, then: Pending },
    /// The operation is over: send this.
    Respond { response: Response },
}

/// The mathematical value of a [`Step`].
#[verifier::ext_equal]
pub enum StepView {
    Call { request: StoreRequestView, then: PendingView },
    Respond { response: ResponseView },
}

impl View for Step {
    type V = StepView;

    open spec fn view(&self) -> StepView {
        match self {
            Step::Call { request, then } => StepView::Call { request: request@, then: then@ },
            Step::Respond { response } => StepView::Respond { response: response@ },
        }
    }
}

/// The answer to an identifier that is not twenty-four hexadecimal digits.
pub open spec fn invalid_id() -> ResponseView {
    plain(Status::InternalServerError, "INVALID ID"@)
}

/// The step that ends an operation with a response without headers.
pub open spec fn respond(status: Status, text: Seq<char>) -> StepView {
    StepView::Respond { response: plain(status, text) }
}

/// How a creation starts: with the insert of the two fields.
pub open spec fn spec_create_user(fields: UserFieldsView) -> StepView {
    StepView::Call {
        request: StoreRequestView::InsertOne { fields },
        then: PendingView::CreateInsert,
    }
}

/// How a listing starts: with the fetch of every document.
pub open spec fn spec_get_users() -> StepView {
    StepView::Call { request: StoreRequestView::FindAll, then: PendingView::List }
}

/// How a fetch starts: with the fetch by the identifier that `id` spells, or
/// with the answer to an identifier that spells none.
pub open spec fn spec_get_user(id: Seq<char>) -> StepView {
    if is_object_id_text(id) {
        StepView::Call {
            request: StoreRequestView::FindOne { id: decode_hex(id) },
            then: PendingView::Get,
        }
    } else {
        StepView::Respond { response: invalid_id() }
    }
}

/// How an update starts: with the update of both fields under the
/// identifier that `id` spells, or with the answer to an identifier that
/// spells none.
pub open spec fn spec_update_user(id: Seq<char>, fields: UserFieldsView) -> StepView {
    if is_object_id_text(id) {
        StepView::Call {
            request: StoreRequestView::UpdateOne { id: decode_hex(id), fields },
            then: PendingView::UpdateWrite { id: decode_hex(id) },
        }
    } else {
        StepView::Respond { response: invalid_id() }
    }
}

/// How a delete starts: with the delete under the identifier that `id`
/// spells, or with the answer to an identifier that spells none.
pub open spec fn spec_delete_user(id: Seq<char>) -> StepView {
    if is_object_id_text(id) {
        StepView::Call {
            request: StoreRequestView::DeleteOne { id: decode_hex(id) },
            then: PendingView::Delete,
        }
    } else {
        StepView::Respond { response: invalid_id() }
    }
}

/// What follows a reply. A reply of another kind than the call asks for
/// counts as a failed call.
///
/// | after | reply | next |
/// |---|---|---|
/// | create, insert | inserted under `id` | fetch `id` |
/// | | anything else | 500 `ERROR CREATING USER` |
/// | create, fetch | found a user | 201, the user |
/// | | found nothing, anything else | 500 `ERROR FINDING CREATED USER` |
/// | list | listed | 200, the users that decoded |
/// | | anything else | 500 `CANNOT GET USERS` |
/// | get | found a user | 200, the user |
/// | | found nothing | 404 `USER NOT FOUND` |
/// | | anything else | 404 `USER NOT FOUND ` |
/// | update, write | updated | fetch the same identifier |
/// | | anything else | 404 `USER NOT FOUND ` |
/// | update, fetch | found a user | 200, the user |
/// | | found nothing, anything else | 404 `UPDATED USER NOT FOUND ` |
/// | delete | deleted | 204 `DELETED` |
/// | | anything else | 500 `NOT FOUND` |
pub open spec fn spec_resume(then: PendingView, reply: StoreReplyView) -> StepView {
    match then {
        PendingView::CreateInsert => match reply {
            StoreReplyView::Inserted { id } => StepView::Call {
                request: StoreRequestView::FindOne { id },
                then: PendingView::CreateFetch,
            },
            _ => respond(Status::InternalServerError, "ERROR CREATING USER"@),
        },
        PendingView::CreateFetch => match reply {
            StoreReplyView::Found { user: Some(user) } => respond(Status::Created, user_json(user)),
            _ => respond(Status::InternalServerError, "ERROR FINDING CREATED USER"@),
        },
        PendingView::List => match reply {
            StoreReplyView::Listed { documents } => respond(
                Status::Okay,
                users_json(decoded(documents)),
            ),
            _ => respond(Status::InternalServerError, "CANNOT GET USERS"@),
        },
        PendingView::Get => match reply {
            StoreReplyView::Found { user: Some(user) } => respond(Status::Okay, user_json(user)),
            StoreReplyView::Found { user: None } => respond(Status::NotFound, "USER NOT FOUND"@),
            _ => respond(Status::NotFound, "USER NOT FOUND "@),
        },
        PendingView::UpdateWrite { id } => match reply {
            StoreReplyView::Updated => StepView::Call {
                request: StoreRequestView::FindOne { id },
                then: PendingView::UpdateFetch,
            },
            _ => respond(Status::NotFound, "USER NOT FOUND "@),
        },
        PendingView::UpdateFetch => match reply {
            StoreReplyView::Found { user: Some(user) } => respond(Status::Okay, user_json(user)),
            _ => respond(Status::NotFound, "UPDATED USER NOT FOUND "@),
        },
        PendingView::Delete => match reply {
            StoreReplyView::Deleted => respond(Status::NoContent, "DELETED"@),
            _ => respond(Status::InternalServerError, "NOT FOUND"@),
        },
    }
}

/// Ends an operation with a response without headers.
fn answer(status: Status, text: &str) -> (step: Step)
    ensures
        step@ == respond(status, text@),
{
    Step::Respond { response: Response::text(status, text) }
}

/// Starts the creation of a user from `fields`.
pub fn create_user(fields: UserFields) -> (step: Step)
    ensures
        step@ == spec_create_user(fields@),
{
    Step::Call { request: StoreRequest::InsertOne { fields }, then: Pending::CreateInsert }
}

/// Starts the listing of all users.
pub fn get_users() -> (step: Step)
    ensures
        step@ == spec_get_users(),
{
    Step::Call { request: StoreRequest::FindAll, then: Pending::List }
}

/// Starts the fetch of the user whose identifier `id` spells. An `id` that
/// spells none is answered at once, and no call is made.
pub fn get_user(id: &str) -> (step: Step)
    ensures
        step@ == spec_get_user(id@),
        !is_object_id_text(id@) ==> step@ == (StepView::Respond { response: invalid_id() }),
{
    match UserId::parse(id) {
        Some(id) => Step::Call { request: StoreRequest::FindOne { id }, then: Pending::Get },
        None => answer(Status::InternalServerError, "INVALID ID"),
    }
}

/// Starts the replacement of both fields of the user whose identifier `id`
/// spells. An `id` that spells none is answered at once, and no call is
/// made.
pub fn update_user(id: &str, fields: UserFields) -> (step: Step)
    ensures
        step@ == spec_update_user(id@, fields@),
        !is_object_id_text(id@) ==> step@ == (StepView::Respond { response: invalid_id() }),
{
    match UserId::parse(id) {
        Some(id) => Step::Call {
            request: StoreRequest::UpdateOne { id, fields },
            then: Pending::UpdateWrite { id },
        },
        None => answer(Status::InternalServerError, "INVALID ID"),
    }
}

/// Starts the deletion of the user whose identifier `id` spells. An `id`
/// that spells none is answered at once, and no call is made.
pub fn delete_user(id: &str) -> (step: Step)
    ensures
        step@ == spec_delete_user(id@),
        !is_object_id_text(id@) ==> step@ == (StepView::Respond { response: invalid_id() }),
{
    match UserId::parse(id) {
        Some(id) => Step::Call { request: StoreRequest::DeleteOne { id }, then: Pending::Delete },
        None => answer(Status::InternalServerError, "INVALID ID"),
    }
}

/// Create, after the insert: fetch what was inserted.
fn create_user_inserted(reply: StoreReply) -> (step: Step)
    ensures
        step@ == spec_resume(PendingView::CreateInsert, reply@),
{
    match reply {
        StoreReply::Inserted { id } => Step::Call {
            request: StoreRequest::FindOne { id },
            then: Pending::CreateFetch,
        },
        _ => answer(Status::InternalServerError, "ERROR CREATING USER"),
    }
}

/// Create, after the fetch: the created user.
fn create_user_fetched(reply: StoreReply) -> (step: Step)
    ensures
        step@ == spec_resume(PendingView::CreateFetch, reply@),
{
    match reply {
        StoreReply::Found { user: Some(user) } => {
            let body = user_to_json(&user);
            answer(Status::Created, body.as_str())
        },
        _ => answer(Status::InternalServerError, "ERROR FINDING CREATED USER"),
    }
}

/// List, after the listing: the users that decoded.
fn get_users_listed(reply: StoreReply) -> (step: Step)
    ensures
        step@ == spec_resume(PendingView::List, reply@),
{
    match reply {
        StoreReply::Listed { documents } => {
            let body = users_to_json(&documents);
            answer(Status::Okay, body.as_str())
        },
        _ => answer(Status::InternalServerError, "CANNOT GET USERS"),
    }
}

/// Get, after the fetch: the user, or that there is none.
fn get_user_fetched(reply: StoreReply) -> (step: Step)
    ensures
        step@ == spec_resume(PendingView::Get, reply@),
{
    match reply {
        StoreReply::Found { user: Some(user) } => {
            let body = user_to_json(&user);
            answer(Status::Okay, body.as_str())
        },
        StoreReply::Found { user: None } => answer(Status::NotFound, "USER NOT FOUND"),
        _ => answer(Status::NotFound, "USER NOT FOUND "),
    }
}

/// Update, after the write: fetch what was updated.
fn update_user_written(id: UserId, reply: StoreReply) -> (step: Step)
    ensures
        step@ == spec_resume(PendingView::UpdateWrite { id: id@ }, reply@),
{
    match reply {
        StoreReply::Updated => Step::Call {
            request: StoreRequest::FindOne { id },
            then: Pending::UpdateFetch,
        },
        _ => answer(Status::NotFound, "USER NOT FOUND "),
    }
}

/// Update, after the fetch: the updated user.
fn update_user_fetched(reply: StoreReply) -> (step: Step)
    ensures
        step@ == spec_resume(PendingView::UpdateFetch, reply@),
{
    match reply {
        StoreReply::Found { user: Some(user) } => {
            let body = user_to_json(&user);
            answer(Status::Okay, body.as_str())
        },
        _ => answer(Status::NotFound, "UPDATED USER NOT FOUND "),
    }
}

/// Delete, after the delete: done, whether or not a document matched.
fn delete_user_done(reply: StoreReply) -> (step: Step)
    ensures
        step@ == spec_resume(PendingView::Delete, reply@),
{
    match reply {
        StoreReply::Deleted => answer(Status::NoContent, "DELETED"),
        _ => answer(Status::InternalServerError, "NOT FOUND"),
    }
}

/// Takes the reply to the call that was under way and says what comes next.
pub fn resume(then: Pending, reply: StoreReply) -> (step: Step)
    ensures
        step@ == spec_resume(then@, reply@),
{
    match then {
        Pending::CreateInsert => create_user_inserted(reply),
        Pending::CreateFetch => create_user_fetched(reply),
        Pending::List => get_users_listed(reply),
        Pending::Get => get_user_fetched(reply),
        Pending::UpdateWrite { id } => update_user_written(id, reply),
        Pending::UpdateFetch => update_user_fetched(reply),
        Pending::Delete => delete_user_done(reply),
    }
}

} // verus!
