use users_api::handlers::{
    create_user, delete_user, get_user, get_users, resume, update_user, Pending, Step,
};
use users_api::http::{Response, Status};
use users_api::json::{user_to_json, users_to_json};
use users_api::object_id::UserId;
use users_api::store::{StoreReply, StoreRequest};
use users_api::user::{User, UserFields};

const ID_TEXT: &str = "64b7f0c2a1d3e4f5a6b7c8d9";
const ID: UserId =
    UserId { bytes: [0x64, 0xb7, 0xf0, 0xc2, 0xa1, 0xd3, 0xe4, 0xf5, 0xa6, 0xb7, 0xc8, 0xd9] };

fn fields(user_name: &str, email: &str) -> UserFields {
    UserFields { user_name: user_name.to_string(), email: email.to_string() }
}

fn alice() -> User {
    User { id: ID, user_name: "alice".to_string(), email: "a@x.com".to_string() }
}

fn respond(status: Status, text: &str) -> Step {
    Step::Respond { response: Response::text(status, text) }
}

fn every_reply() -> Vec<StoreReply> {
    vec![
        StoreReply::Inserted { id: ID },
        StoreReply::Found { user: Some(alice()) },
        StoreReply::Found { user: None },
        StoreReply::Listed { documents: vec![Some(alice()), None] },
        StoreReply::Updated,
        StoreReply::Deleted,
        StoreReply::Failed,
    ]
}

#[test]
fn create_starts_with_the_insert() {
    assert_eq!(
        create_user(fields("alice", "a@x.com")),
        Step::Call {
            request: StoreRequest::InsertOne { fields: fields("alice", "a@x.com") },
            then: Pending::CreateInsert,
        }
    );
}

#[test]
fn create_takes_any_payload() {
    assert_eq!(
        create_user(fields("", "")),
        Step::Call {
            request: StoreRequest::InsertOne { fields: fields("", "") },
            then: Pending::CreateInsert,
        }
    );
}

#[test]
fn list_starts_with_the_listing() {
    assert_eq!(get_users(), Step::Call { request: StoreRequest::FindAll, then: Pending::List });
}

#[test]
fn get_starts_with_the_fetch() {
    assert_eq!(
        get_user(ID_TEXT),
        Step::Call { request: StoreRequest::FindOne { id: ID }, then: Pending::Get }
    );
}

#[test]
fn get_reads_upper_case_identifiers() {
    assert_eq!(
        get_user("64B7F0C2A1D3E4F5A6B7C8D9"),
        Step::Call { request: StoreRequest::FindOne { id: ID }, then: Pending::Get }
    );
}

#[test]
fn update_starts_with_the_write() {
    assert_eq!(
        update_user(ID_TEXT, fields("alice2", "a2@x.com")),
        Step::Call {
            request: StoreRequest::UpdateOne { id: ID, fields: fields("alice2", "a2@x.com") },
            then: Pending::UpdateWrite { id: ID },
        }
    );
}

#[test]
fn delete_starts_with_the_delete() {
    assert_eq!(
        delete_user(ID_TEXT),
        Step::Call { request: StoreRequest::DeleteOne { id: ID }, then: Pending::Delete }
    );
}

#[test]
fn malformed_identifiers_are_answered_without_a_call() {
    for text in ["", "42", "not-an-id", "64b7f0c2a1d3e4f5a6b7c8d", "64b7f0c2a1d3e4f5a6b7c8d9a", "64b7f0c2a1d3e4f5a6b7c8dg"] {
        let invalid = respond(Status::InternalServerError, "INVALID ID");
        assert_eq!(get_user(text), invalid);
        assert_eq!(update_user(text, fields("alice2", "a2@x.com")), invalid);
        assert_eq!(delete_user(text), invalid);
    }
}

#[test]
fn invalid_id_is_a_server_error() {
    match update_user("xyz", fields("a", "b")) {
        Step::Respond { response } => assert_eq!(response.status.code(), 500),
        Step::Call { .. } => panic!("a malformed identifier reached the store"),
    }
}

#[test]
fn create_after_insert_fetches_what_was_inserted() {
    assert_eq!(
        resume(Pending::CreateInsert, StoreReply::Inserted { id: ID }),
        Step::Call { request: StoreRequest::FindOne { id: ID }, then: Pending::CreateFetch }
    );
}

#[test]
fn create_after_failed_insert_is_a_server_error() {
    assert_eq!(
        resume(Pending::CreateInsert, StoreReply::Failed),
        respond(Status::InternalServerError, "ERROR CREATING USER")
    );
}

#[test]
fn create_after_fetch_answers_created() {
    assert_eq!(
        resume(Pending::CreateFetch, StoreReply::Found { user: Some(alice()) }),
        respond(Status::Created, &user_to_json(&alice()))
    );
}

#[test]
fn create_after_empty_or_failed_fetch_is_a_server_error() {
    let error = respond(Status::InternalServerError, "ERROR FINDING CREATED USER");
    assert_eq!(resume(Pending::CreateFetch, StoreReply::Found { user: None }), error);
    assert_eq!(resume(Pending::CreateFetch, StoreReply::Failed), error);
}

#[test]
fn list_answers_the_users_that_decoded() {
    let documents = vec![None, Some(alice()), None];
    assert_eq!(
        resume(Pending::List, StoreReply::Listed { documents: documents.clone() }),
        respond(Status::Okay, &users_to_json(&documents))
    );
    assert_eq!(
        resume(Pending::List, StoreReply::Listed { documents: vec![] }),
        respond(Status::Okay, "[]")
    );
}

#[test]
fn list_after_failure_is_a_server_error() {
    assert_eq!(
        resume(Pending::List, StoreReply::Failed),
        respond(Status::InternalServerError, "CANNOT GET USERS")
    );
}

#[test]
fn get_answers_the_user() {
    assert_eq!(
        resume(Pending::Get, StoreReply::Found { user: Some(alice()) }),
        respond(Status::Okay, &user_to_json(&alice()))
    );
}

#[test]
fn get_of_nothing_is_not_found() {
    assert_eq!(
        resume(Pending::Get, StoreReply::Found { user: None }),
        respond(Status::NotFound, "USER NOT FOUND")
    );
}

#[test]
fn get_after_failure_is_not_found_with_a_trailing_space() {
    assert_eq!(
        resume(Pending::Get, StoreReply::Failed),
        respond(Status::NotFound, "USER NOT FOUND ")
    );
}

#[test]
fn update_after_write_fetches_the_same_identifier() {
    assert_eq!(
        resume(Pending::UpdateWrite { id: ID }, StoreReply::Updated),
        Step::Call { request: StoreRequest::FindOne { id: ID }, then: Pending::UpdateFetch }
    );
}

#[test]
fn update_after_failed_write_is_not_found() {
    assert_eq!(
        resume(Pending::UpdateWrite { id: ID }, StoreReply::Failed),
        respond(Status::NotFound, "USER NOT FOUND ")
    );
}

#[test]
fn update_after_fetch_answers_the_user() {
    assert_eq!(
        resume(Pending::UpdateFetch, StoreReply::Found { user: Some(alice()) }),
        respond(Status::Okay, &user_to_json(&alice()))
    );
}

#[test]
fn update_after_empty_or_failed_fetch_is_not_found() {
    let missing = respond(Status::NotFound, "UPDATED USER NOT FOUND ");
    assert_eq!(resume(Pending::UpdateFetch, StoreReply::Found { user: None }), missing);
    assert_eq!(resume(Pending::UpdateFetch, StoreReply::Failed), missing);
}

#[test]
fn delete_answers_no_content() {
    let step = resume(Pending::Delete, StoreReply::Deleted);
    assert_eq!(step, respond(Status::NoContent, "DELETED"));
    match step {
        Step::Respond { response } => assert_eq!(response.status.code(), 204),
        Step::Call { .. } => panic!("the delete was over"),
    }
}

#[test]
fn delete_after_failure_is_a_server_error_that_says_not_found() {
    let step = resume(Pending::Delete, StoreReply::Failed);
    assert_eq!(step, respond(Status::InternalServerError, "NOT FOUND"));
    match step {
        Step::Respond { response } => assert_eq!(response.status.code(), 500),
        Step::Call { .. } => panic!("the delete was over"),
    }
}

#[test]
fn a_reply_of_another_kind_counts_as_a_failed_call() {
    let waiting = [
        (Pending::CreateInsert, 0),
        (Pending::CreateFetch, 1),
        (Pending::List, 3),
        (Pending::Get, 1),
        (Pending::UpdateWrite { id: ID }, 4),
        (Pending::UpdateFetch, 1),
        (Pending::Delete, 5),
    ];
    for (then, expected) in waiting {
        let failed = resume(then.clone(), StoreReply::Failed);
        for (kind, reply) in every_reply().into_iter().enumerate() {
            // the two fetch replies are of one kind
            let same_kind = kind == expected || (expected == 1 && kind == 2);
            if !same_kind {
                assert_eq!(resume(then.clone(), reply), failed);
            }
        }
    }
}
