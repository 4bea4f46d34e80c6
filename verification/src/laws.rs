//! What holds of the operations when the store works: a model of whole
//! exchanges, and the laws proved of it.

use crate::handlers::{
    invalid_id, spec_create_user, spec_delete_user, spec_get_user, spec_get_users, spec_resume,
    spec_update_user, StepView,
};
use crate::http::{plain, ResponseView, Status};
use crate::json::{decoded, user_json, users_json};
use crate::object_id::{decode_hex, encode_hex, is_object_id_text, lemma_decode_encode_hex};
use crate::store::{StoreModel, StoreReplyView};
use crate::user::{user_of, UserFieldsView, UserView};
use vstd::prelude::*;

verus! {

/// How an operation ended: what it answered, and what the store then held.
#[verifier::ext_equal]
pub struct Outcome {
    pub response: ResponseView,
    pub store: StoreModel,
}

/// An operation run to its end against a working store. The operation
/// stands at `step`, the store holds `store`, and `replies` are the store's
/// answers, in order. The result is the response and what the store holds
/// afterwards. It is `None` where a working store does not give these
/// answers, or where they are too few or too many.
pub open spec fn run(store: StoreModel, step: StepView, replies: Seq<StoreReplyView>) -> Option<
    Outcome,
>
    decreases replies.len(),
{
    match step {
        StepView::Respond { response } => if replies.len() == 0 {
            Some(Outcome { response, store })
        } else {
            None
        },
        StepView::Call { request, then } => if replies.len() == 0 {
            None
        } else {
            match store.exchange(request, replies[0]) {
                Some(next) => run(next, spec_resume(then, replies[0]), replies.drop_first()),
                None => None,
            }
        },
    }
}

/// The hexadecimal form of an identifier of twelve bytes is well formed,
/// and spells the identifier.
pub proof fn lemma_path_of_id(id: Seq<u8>)
    requires
        id.len() == 12,
    ensures
        is_object_id_text(encode_hex(id)),
        decode_hex(encode_hex(id)) == id,
{
    lemma_decode_encode_hex(id);
}

/// A creation against a working store takes two answers: the identifier
/// that the store assigned, which was free, and the user found under it. It
/// ends in 201 with that user, and the store then holds the user.
pub proof fn lemma_run_create(
    store: StoreModel,
    fields: UserFieldsView,
    replies: Seq<StoreReplyView>,
)
    requires
        run(store, spec_create_user(fields), replies) is Some,
    ensures
        replies.len() == 2,
        replies[0] is Inserted,
        replies[0]->id.len() == 12,
        !store.holds(replies[0]->id),
        run(store, spec_create_user(fields), replies) == Some(
            Outcome {
                response: plain(Status::Created, user_json(user_of(replies[0]->id, fields))),
                store: StoreModel { users: store.users.insert(replies[0]->id, fields) },
            },
        ),
{
    reveal_with_fuel(run, 3);
    let id = replies[0]->id;
    let after = StoreModel { users: store.users.insert(id, fields) };
    assert(after.find(id) == Some(user_of(id, fields)));
}

/// A fetch by a well-formed identifier against a working store takes one
/// answer and changes nothing: 200 with the user where the store holds one
/// under the identifier, 404 where it holds none.
pub proof fn lemma_run_get(store: StoreModel, path: Seq<char>, replies: Seq<StoreReplyView>)
    requires
        is_object_id_text(path),
        run(store, spec_get_user(path), replies) is Some,
    ensures
        replies.len() == 1,
        run(store, spec_get_user(path), replies) == Some(
            Outcome {
                response: match store.find(decode_hex(path)) {
                    Some(user) => plain(Status::Okay, user_json(user)),
                    None => plain(Status::NotFound, "USER NOT FOUND"@),
                },
                store,
            },
        ),
{
    reveal_with_fuel(run, 2);
}

/// An update under a well-formed identifier against a working store takes
/// two answers. Where the store holds a user under the identifier, it ends
/// in 200 with the identifier and the new fields, which the store then
/// holds; where it holds none, it ends in 404 and the store is as it was.
pub proof fn law_update_replaces_fields(
    store: StoreModel,
    path: Seq<char>,
    fields: UserFieldsView,
    replies: Seq<StoreReplyView>,
)
    requires
        is_object_id_text(path),
        run(store, spec_update_user(path, fields), replies) is Some,
    ensures
        replies.len() == 2,
        run(store, spec_update_user(path, fields), replies) == Some(
            if store.holds(decode_hex(path)) {
                Outcome {
                    response: plain(Status::Okay, user_json(user_of(decode_hex(path), fields))),
                    store: StoreModel { users: store.users.insert(decode_hex(path), fields) },
                }
            } else {
                Outcome { response: plain(Status::NotFound, "UPDATED USER NOT FOUND "@), store }
            },
        ),
{
    reveal_with_fuel(run, 3);
    let id = decode_hex(path);
    if store.holds(id) {
        let after = StoreModel { users: store.users.insert(id, fields) };
        assert(after.find(id) == Some(user_of(id, fields)));
    }
}

/// A working store can carry each operation through: with an identifier
/// that is free, a creation; with a listing of what it holds, a listing;
/// and a fetch, an update and a delete under any well-formed identifier.
pub proof fn law_working_store_answers(
    store: StoreModel,
    fields: UserFieldsView,
    free: Seq<u8>,
    documents: Seq<Option<UserView>>,
    path: Seq<char>,
)
    requires
        free.len() == 12,
        !store.holds(free),
        store.lists(documents),
        is_object_id_text(path),
    ensures
        run(
            store,
            spec_create_user(fields),
            seq![
                StoreReplyView::Inserted { id: free },
                StoreReplyView::Found { user: Some(user_of(free, fields)) },
            ],
        ) is Some,
        run(store, spec_get_users(), seq![StoreReplyView::Listed { documents }]) is Some,
        run(
            store,
            spec_get_user(path),
            seq![StoreReplyView::Found { user: store.find(decode_hex(path)) }],
        ) is Some,
        run(
            store,
            spec_update_user(path, fields),
            seq![
                StoreReplyView::Updated,
                StoreReplyView::Found {
                    user: if store.holds(decode_hex(path)) {
                        Some(user_of(decode_hex(path), fields))
                    } else {
                        None
                    },
                },
            ],
        ) is Some,
        run(store, spec_delete_user(path), seq![StoreReplyView::Deleted]) is Some,
{
    reveal_with_fuel(run, 3);
    let id = decode_hex(path);
    let created = seq![
        StoreReplyView::Inserted { id: free },
        StoreReplyView::Found { user: Some(user_of(free, fields)) },
    ];
    let inserted = StoreModel { users: store.users.insert(free, fields) };
    assert(inserted.find(free) == Some(user_of(free, fields)));
    assert(created.drop_first() =~= seq![
        StoreReplyView::Found { user: Some(user_of(free, fields)) },
    ]);
    assert(created.drop_first().drop_first() =~= Seq::empty());
    let updated = seq![
        StoreReplyView::Updated,
        StoreReplyView::Found {
            user: if store.holds(id) {
                Some(user_of(id, fields))
            } else {
                None
            },
        },
    ];
    assert(updated.drop_first().drop_first() =~= Seq::empty());
    if store.holds(id) {
        let replaced = StoreModel { users: store.users.insert(id, fields) };
        assert(replaced.find(id) == Some(user_of(id, fields)));
    }
}

/// A user that was created is fetched under the identifier that the
/// creation returned, with that identifier and the fields it was created
/// from.
pub proof fn law_create_then_get(
    store: StoreModel,
    fields: UserFieldsView,
    replies: Seq<StoreReplyView>,
    later: Seq<StoreReplyView>,
)
    requires
        run(store, spec_create_user(fields), replies) is Some,
        run(
            run(store, spec_create_user(fields), replies)->Some_0.store,
            spec_get_user(encode_hex(replies[0]->id)),
            later,
        ) is Some,
    ensures
        ({
            let user = user_of(replies[0]->id, fields);
            let created = run(store, spec_create_user(fields), replies)->Some_0;
            let fetched = run(created.store, spec_get_user(encode_hex(user.id)), later)->Some_0;
            &&& created.response == plain(Status::Created, user_json(user))
            &&& fetched.response == plain(Status::Okay, user_json(user))
            &&& fetched.store == created.store
        }),
{
    lemma_run_create(store, fields, replies);
    let id = replies[0]->id;
    let after = StoreModel { users: store.users.insert(id, fields) };
    lemma_path_of_id(id);
    lemma_run_get(after, encode_hex(id), later);
    assert(after.find(id) == Some(user_of(id, fields)));
}

/// After a delete, a fetch under the same identifier finds nothing: the
/// delete ends in 204 and the fetch in 404, whether or not the store held a
/// user under the identifier.
pub proof fn law_delete_then_get(
    store: StoreModel,
    path: Seq<char>,
    replies: Seq<StoreReplyView>,
    later: Seq<StoreReplyView>,
)
    requires
        is_object_id_text(path),
        run(store, spec_delete_user(path), replies) is Some,
        run(
            run(store, spec_delete_user(path), replies)->Some_0.store,
            spec_get_user(path),
            later,
        ) is Some,
    ensures
        ({
            let deleted = run(store, spec_delete_user(path), replies)->Some_0;
            let fetched = run(deleted.store, spec_get_user(path), later)->Some_0;
            &&& deleted.response == plain(Status::NoContent, "DELETED"@)
            &&& !deleted.store.holds(decode_hex(path))
            &&& fetched.response == plain(Status::NotFound, "USER NOT FOUND"@)
        }),
{
    reveal_with_fuel(run, 2);
    let after = StoreModel { users: store.users.remove(decode_hex(path)) };
    lemma_run_get(after, path, later);
}

/// An identifier that is not twenty-four hexadecimal digits is answered
/// with the invalid-identifier response and never reaches the store: the
/// update, and likewise the fetch and the delete, end at once, with no
/// call, and the store is as it was.
pub proof fn law_malformed_id_makes_no_call(
    store: StoreModel,
    path: Seq<char>,
    fields: UserFieldsView,
    replies: Seq<StoreReplyView>,
)
    requires
        !is_object_id_text(path),
    ensures
        spec_update_user(path, fields) == (StepView::Respond { response: invalid_id() }),
        spec_get_user(path) == (StepView::Respond { response: invalid_id() }),
        spec_delete_user(path) == (StepView::Respond { response: invalid_id() }),
        run(store, spec_update_user(path, fields), Seq::empty()) == Some(
            Outcome { response: invalid_id(), store },
        ),
        run(store, spec_get_user(path), Seq::empty()) == Some(
            Outcome { response: invalid_id(), store },
        ),
        run(store, spec_delete_user(path), Seq::empty()) == Some(
            Outcome { response: invalid_id(), store },
        ),
        replies.len() > 0 ==> run(store, spec_update_user(path, fields), replies) is None,
        replies.len() > 0 ==> run(store, spec_get_user(path), replies) is None,
        replies.len() > 0 ==> run(store, spec_delete_user(path), replies) is None,
{
}

/// A delete under a well-formed identifier that the store does not hold
/// still ends in 204, and the store is as it was.
pub proof fn law_delete_of_absent_user(
    store: StoreModel,
    path: Seq<char>,
    replies: Seq<StoreReplyView>,
)
    requires
        is_object_id_text(path),
        !store.holds(decode_hex(path)),
        run(store, spec_delete_user(path), replies) is Some,
    ensures
        run(store, spec_delete_user(path), replies) == Some(
            Outcome { response: plain(Status::NoContent, "DELETED"@), store },
        ),
{
    reveal_with_fuel(run, 2);
    assert(store.users.remove(decode_hex(path)) =~= store.users);
}

/// What the store holds after users were created one after another, the
/// `k`-th from `payloads[k]` with the answers `replies[k]`; `None` where a
/// working store does not give these answers.
pub open spec fn create_all(
    store: StoreModel,
    payloads: Seq<UserFieldsView>,
    replies: Seq<Seq<StoreReplyView>>,
) -> Option<StoreModel>
    decreases payloads.len(),
{
    if payloads.len() == 0 {
        Some(store)
    } else {
        match create_all(store, payloads.drop_last(), replies.drop_last()) {
            Some(before) => match run(before, spec_create_user(payloads.last()), replies.last()) {
                Some(outcome) => Some(outcome.store),
                None => None,
            },
            None => None,
        }
    }
}

/// The user that the `k`-th of a run of creations made: the fields it was
/// created from, under the identifier that the store assigned.
pub open spec fn created_user(
    payloads: Seq<UserFieldsView>,
    replies: Seq<Seq<StoreReplyView>>,
    k: int,
) -> UserView {
    user_of(replies[k][0]->id, payloads[k])
}

/// What the `k`-th of a run of creations answered.
pub open spec fn creation_answer(
    store: StoreModel,
    payloads: Seq<UserFieldsView>,
    replies: Seq<Seq<StoreReplyView>>,
    k: int,
) -> Option<ResponseView> {
    match create_all(store, payloads.take(k), replies.take(k)) {
        Some(before) => match run(before, spec_create_user(payloads[k]), replies[k]) {
            Some(outcome) => Some(outcome.response),
            None => None,
        },
        None => None,
    }
}

/// A user in a listing is among the users that the listing decodes to.
pub proof fn lemma_decoded_contains(documents: Seq<Option<UserView>>, user: UserView)
    requires
        documents.contains(Some(user)),
    ensures
        decoded(documents).contains(user),
    decreases documents.len(),
{
    let i = choose|i: int| 0 <= i < documents.len() && documents[i] == Some(user);
    let rest = decoded(documents.drop_last());
    if i == documents.len() - 1 {
        assert(rest.push(user)[rest.len() as int] == user);
    } else {
        assert(documents.drop_last()[i] == Some(user));
        lemma_decoded_contains(documents.drop_last(), user);
        let j = choose|j: int| 0 <= j < rest.len() && rest[j] == user;
        assert(decoded(documents)[j] == user);
    }
}

/// A listing of a store decodes to at least as many users as the store
/// holds, and to each of them.
pub proof fn lemma_listing_is_complete(store: StoreModel, documents: Seq<Option<UserView>>)
    requires
        store.wf(),
        store.lists(documents),
    ensures
        decoded(documents).len() >= store.users.dom().len(),
        forall|id: Seq<u8>| #[trigger]
            store.holds(id) ==> decoded(documents).contains(store.user(id)),
{
    let users = decoded(documents);
    assert forall|id: Seq<u8>| #[trigger] store.holds(id) implies users.contains(
        store.user(id),
    ) by {
        lemma_decoded_contains(documents, store.user(id));
    }
    let ids = users.map_values(|user: UserView| user.id);
    assert forall|id: Seq<u8>| store.users.dom().contains(id) implies ids.to_set().contains(
        id,
    ) by {
        assert(store.holds(id));
        let j = choose|j: int| 0 <= j < users.len() && users[j] == store.user(id);
        assert(ids[j] == id);
    }
    ids.lemma_cardinality_of_set();
    vstd::seq_lib::seq_to_set_is_finite(ids);
    vstd::set_lib::lemma_len_subset(store.users.dom(), ids.to_set());
}

/// After a run of creations the store holds every user that was created,
/// and as many more users as were created.
pub proof fn lemma_create_all(
    store: StoreModel,
    payloads: Seq<UserFieldsView>,
    replies: Seq<Seq<StoreReplyView>>,
)
    requires
        store.wf(),
        payloads.len() == replies.len(),
        create_all(store, payloads, replies) is Some,
    ensures
        create_all(store, payloads, replies)->Some_0.wf(),
        create_all(store, payloads, replies)->Some_0.users.dom().len() == store.users.dom().len()
            + payloads.len(),
        forall|k: int|
            0 <= k < payloads.len() ==> create_all(store, payloads, replies)->Some_0.find(
                created_user(payloads, replies, k).id,
            ) == Some(#[trigger] created_user(payloads, replies, k)),
    decreases payloads.len(),
{
    if payloads.len() > 0 {
        let before = create_all(store, payloads.drop_last(), replies.drop_last())->Some_0;
        lemma_create_all(store, payloads.drop_last(), replies.drop_last());
        lemma_run_create(before, payloads.last(), replies.last());
        let after = create_all(store, payloads, replies)->Some_0;
        let id = replies.last()[0]->id;
        assert(after.users == before.users.insert(id, payloads.last()));
        assert forall|k: int| 0 <= k < payloads.len() implies after.find(
            created_user(payloads, replies, k).id,
        ) == Some(#[trigger] created_user(payloads, replies, k)) by {
            if k < payloads.len() - 1 {
                assert(created_user(payloads, replies, k) == created_user(
                    payloads.drop_last(),
                    replies.drop_last(),
                    k,
                ));
            }
        }
    }
}

/// In a run of creations, the `k`-th was answered with 201 and the user it
/// made.
pub proof fn lemma_creations_answer_created(
    store: StoreModel,
    payloads: Seq<UserFieldsView>,
    replies: Seq<Seq<StoreReplyView>>,
    k: int,
)
    requires
        payloads.len() == replies.len(),
        create_all(store, payloads, replies) is Some,
        0 <= k < payloads.len(),
    ensures
        creation_answer(store, payloads, replies, k) == Some(
            plain(Status::Created, user_json(created_user(payloads, replies, k))),
        ),
    decreases payloads.len(),
{
    if k == payloads.len() - 1 {
        assert(payloads.take(k) =~= payloads.drop_last());
        assert(replies.take(k) =~= replies.drop_last());
        let before = create_all(store, payloads.drop_last(), replies.drop_last())->Some_0;
        lemma_run_create(before, payloads.last(), replies.last());
    } else {
        lemma_creations_answer_created(store, payloads.drop_last(), replies.drop_last(), k);
        assert(payloads.drop_last().take(k) =~= payloads.take(k));
        assert(replies.drop_last().take(k) =~= replies.take(k));
    }
}

/// After `payloads.len()` users were created, each answered with 201 and
/// the user it made, the listing answers 200 with an array of at least that
/// many users, which holds each of those users; nothing is said of their
/// order.
pub proof fn law_list_after_creates(
    store: StoreModel,
    payloads: Seq<UserFieldsView>,
    replies: Seq<Seq<StoreReplyView>>,
    listing: Seq<StoreReplyView>,
)
    requires
        store.wf(),
        payloads.len() == replies.len(),
        create_all(store, payloads, replies) is Some,
        run(create_all(store, payloads, replies)->Some_0, spec_get_users(), listing) is Some,
    ensures
        ({
            let after = create_all(store, payloads, replies)->Some_0;
            let users = decoded(listing[0]->documents);
            &&& run(after, spec_get_users(), listing) == Some(
                Outcome { response: plain(Status::Okay, users_json(users)), store: after },
            )
            &&& users.len() >= payloads.len()
            &&& forall|k: int|
                0 <= k < payloads.len() ==> {
                    &&& #[trigger] creation_answer(store, payloads, replies, k) == Some(
                        plain(Status::Created, user_json(created_user(payloads, replies, k))),
                    )
                    &&& users.contains(created_user(payloads, replies, k))
                }
        }),
{
    reveal_with_fuel(run, 2);
    let after = create_all(store, payloads, replies)->Some_0;
    let documents = listing[0]->documents;
    lemma_create_all(store, payloads, replies);
    lemma_listing_is_complete(after, documents);
    assert forall|k: int| 0 <= k < payloads.len() implies {
        &&& #[trigger] creation_answer(store, payloads, replies, k) == Some(
            plain(Status::Created, user_json(created_user(payloads, replies, k))),
        )
        &&& decoded(documents).contains(created_user(payloads, replies, k))
    } by {
        lemma_creations_answer_created(store, payloads, replies, k);
        let user = created_user(payloads, replies, k);
        assert(after.find(user.id) == Some(user));
        assert(after.holds(user.id));
    }
}

} // verus!
