//! The document store, seen from the handlers: the calls they ask for, the
//! replies they take, and a model of a store that works.

use crate::json::documents_view;
use crate::object_id::UserId;
use crate::user::{user_of, User, UserFields, UserFieldsView, UserView};
use vstd::prelude::*;

verus! {

/// The collection that holds the users.
pub const COLLECTION: &'static str = "users";

/// A call on the collection that a handler asks its caller to make.
#[derive(Clone, Debug, PartialEq, Eq)]
pub enum StoreRequest {
    /// Insert a document with these fields; the store assigns the identifier.
    InsertOne { fields: UserFields },
    /// Fetch the document with this identifier.
    FindOne { id: UserId },
    /// Fetch every document, in the store's own order.
    FindAll,
    /// Set both fields, and the identifier, of the document with this
    /// identifier.
    UpdateOne { id: UserId, fields: UserFields },
    /// Delete the document with this identifier.
    DeleteOne { id: UserId },
}

/// The mathematical value of a [`StoreRequest`].
#[verifier::ext_equal]
pub enum StoreRequestView {
    InsertOne { fields: UserFieldsView },
    FindOne { id: Seq<u8> },
    FindAll,
    UpdateOne { id: Seq<u8>, fields: UserFieldsView },
    DeleteOne { id: Seq<u8> },
}

impl View for StoreRequest {
    type V = StoreRequestView;

    open spec fn view(&self) -> StoreRequestView {
        match self {
            StoreRequest::InsertOne { fields } => StoreRequestView::InsertOne { fields: fields@ },
            StoreRequest::FindOne { id } => StoreRequestView::FindOne { id: id@ },
            StoreRequest::FindAll => StoreRequestView::FindAll,
            StoreRequest::UpdateOne { id, fields } => StoreRequestView::UpdateOne {
                id: id@,
                fields: fields@,
            },
            StoreRequest::DeleteOne { id } => StoreRequestView::DeleteOne { id: id@ },
        }
    }
}

/// What came back from a call.
#[derive(Clone, Debug, PartialEq, Eq)]
pub enum StoreReply {
    /// The insert went through, and this is the identifier the store assigned.
    Inserted { id: UserId },
    /// The fetch went through: the document, or nothing under that identifier.
    Found { user: Option<User> },
    /// The listing went through. Each document is there as the user it
    /// decodes to, or as `None` where it does not decode.
    Listed { documents: Vec<Option<User>> },
    /// The update went through, whether or not a document matched.
    Updated,
    /// The delete went through, whether or not a document matched.
    Deleted,
    /// The call failed.
    Failed,
}

/// The mathematical value of a [`StoreReply`].
#[verifier::ext_equal]
pub enum StoreReplyView {
    Inserted { id: Seq<u8> },
    Found { user: Option<UserView> },
    Listed { documents: Seq<Option<UserView>> },
    Updated,
    Deleted,
    Failed,
}

impl View for StoreReply {
    type V = StoreReplyView;

    open spec fn view(&self) -> StoreReplyView {
        match self {
            StoreReply::Inserted { id } => StoreReplyView::Inserted { id: id@ },
            StoreReply::Found { user } => StoreReplyView::Found {
                user: match user {
                    Some(user) => Some(user@),
                    None => None,
                },
            },
            StoreReply::Listed { documents } => StoreReplyView::Listed {
                documents: documents_view(documents@),
            },
            StoreReply::Updated => StoreReplyView::Updated,
            StoreReply::Deleted => StoreReplyView::Deleted,
            StoreReply::Failed => StoreReplyView::Failed,
        }
    }
}

/// A model of the collection: the fields of each stored user, by identifier.
#[verifier::ext_equal]
pub struct StoreModel {
    pub users: Map<Seq<u8>, UserFieldsView>,
}

impl StoreModel {
    /// Finitely many users, each under an identifier of twelve bytes.
    pub open spec fn wf(self) -> bool {
        &&& self.users.dom().finite()
        &&& forall|id: Seq<u8>| #[trigger] self.users.contains_key(id) ==> id.len() == 12
    }

    /// Whether a user is stored under `id`.
    pub open spec fn holds(self, id: Seq<u8>) -> bool {
        self.users.contains_key(id)
    }

    /// The user stored under `id`.
    pub open spec fn user(self, id: Seq<u8>) -> UserView
        recommends
            self.holds(id),
    {
        user_of(id, self.users[id])
    }

    /// What a fetch by `id` finds.
    pub open spec fn find(self, id: Seq<u8>) -> Option<UserView> {
        if self.holds(id) {
            Some(self.user(id))
        } else {
            None
        }
    }

    /// Whether `documents` is a listing of this store: every stored user
    /// once, in any order, among any number of documents that did not
    /// decode.
    pub open spec fn lists(self, documents: Seq<Option<UserView>>) -> bool {
        &&& forall|i: int|
            #![trigger documents[i]]
            0 <= i < documents.len() ==> (documents[i] matches Some(user) ==> self.find(user.id)
                == Some(user))
        &&& forall|i: int, j: int|
            #![trigger documents[i], documents[j]]
            0 <= i < j < documents.len() ==> (documents[i] matches Some(a) ==> (
            documents[j] matches Some(b) ==> a.id != b.id))
        &&& forall|id: Seq<u8>| #[trigger]
            self.holds(id) ==> documents.contains(Some(self.user(id)))
    }

    /// The store after a call that a working store answered with `reply`;
    /// `None` where a working store that holds `self` does not answer
    /// `request` with `reply`.
    ///
    /// An insert puts the fields under an identifier that was free. An
    /// update replaces the fields where the identifier is held and changes
    /// nothing where it is not. A delete leaves nothing under the
    /// identifier. The fetches change nothing.
    pub open spec fn exchange(self, request: StoreRequestView, reply: StoreReplyView) -> Option<
        StoreModel,
    > {
        match request {
            StoreRequestView::InsertOne { fields } => match reply {
                StoreReplyView::Inserted { id } => if id.len() == 12 && !self.holds(id) {
                    Some(StoreModel { users: self.users.insert(id, fields) })
                } else {
                    None
                },
                _ => None,
            },
            StoreRequestView::FindOne { id } => if reply == (StoreReplyView::Found {
                user: self.find(id),
            }) {
                Some(self)
            } else {
                None
            },
            StoreRequestView::FindAll => match reply {
                StoreReplyView::Listed { documents } => if self.lists(documents) {
                    Some(self)
                } else {
                    None
                },
                _ => None,
            },
            StoreRequestView::UpdateOne { id, fields } => if reply == StoreReplyView::Updated {
                if self.holds(id) {
                    Some(StoreModel { users: self.users.insert(id, fields) })
                } else {
                    Some(self)
                }
            } else {
                None
            },
            StoreRequestView::DeleteOne { id } => if reply == StoreReplyView::Deleted {
                Some(StoreModel { users: self.users.remove(id) })
            } else {
                None
            },
        }
    }
}

} // verus!
