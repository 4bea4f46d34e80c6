//! The JSON text of users: one user as an object, a list of them as an
//! array.

use crate::object_id::encode_hex;
use crate::user::{User, UserView};
use vstd::prelude::*;
use vstd::string::StringExecFns;

verus! {

/// The JSON string literal for `text`, quotes and escapes included, as
/// `serde_json::to_string` writes it.
pub uninterp spec fn json_string(text: Seq<char>) -> Seq<char>;

/// Calls `serde_json::to_string` on a string slice. Not proved here: that
/// the call succeeds, and that its result depends on the text alone.
/// serde_json documents two ways for the call to fail, a `Serialize` impl
/// that fails and a map with keys that are no strings; a string slice is
/// neither.
#[verifier::external_body]
fn encode_json_string(text: &str) -> (r: Option<String>)
    ensures
        r is Some,
        r matches Some(literal) ==> literal@ == json_string(text@),
{
    serde_json::to_string(text).ok()
}

/// A user object around its three parts: the identifier's hexadecimal
/// digits, and the two fields, each already a JSON string literal.
pub open spec fn user_frame(
    id_hex: Seq<char>,
    user_name_json: Seq<char>,
    email_json: Seq<char>,
) -> Seq<char> {
    "{\"_id\":{\"$oid\":\""@ + id_hex + "\"},\"user_name\":"@ + user_name_json + ",\"email\":"@
        + email_json + "}"@
}

/// The JSON object of a user: `{"_id":{"$oid":<hex>},"user_name":..,"email":..}`.
pub open spec fn user_json(user: UserView) -> Seq<char> {
    user_frame(encode_hex(user.id), json_string(user.user_name), json_string(user.email))
}

/// The users that a listing decoded, in the order of the listing; what
/// did not decode is left out.
pub open spec fn decoded(documents: Seq<Option<UserView>>) -> Seq<UserView>
    decreases documents.len(),
{
    if documents.len() == 0 {
        Seq::empty()
    } else {
        match documents.last() {
            Some(user) => decoded(documents.drop_last()).push(user),
            None => decoded(documents.drop_last()),
        }
    }
}

/// The JSON objects of `users`, with a comma between neighbours.
pub open spec fn joined(users: Seq<UserView>) -> Seq<char>
    decreases users.len(),
{
    if users.len() == 0 {
        Seq::empty()
    } else if users.len() == 1 {
        user_json(users[0])
    } else {
        joined(users.drop_last()) + ","@ + user_json(users.last())
    }
}

/// The JSON array of `users`.
pub open spec fn users_json(users: Seq<UserView>) -> Seq<char> {
    "["@ + joined(users) + "]"@
}

/// The mathematical value of a listing.
pub open spec fn documents_view(documents: Seq<Option<User>>) -> Seq<Option<UserView>> {
    Seq::new(
        documents.len(),
        |i: int|
            match documents[i] {
                Some(user) => Some(user@),
                None => None,
            },
    )
}

/// Puts the parts of a user object together.
pub fn frame_user(id_hex: &str, user_name_json: &str, email_json: &str) -> (r: String)
    ensures
        r@ == user_frame(id_hex@, user_name_json@, email_json@),
{
    let mut out = String::from_str("{\"_id\":{\"$oid\":\"");
    out.append(id_hex);
    out.append("\"},\"user_name\":");
    out.append(user_name_json);
    out.append(",\"email\":");
    out.append(email_json);
    out.append("}");
    out
}

/// The JSON string literal for `text`.
pub fn quote(text: &str) -> (r: String)
    ensures
        r@ == json_string(text@),
{
    match encode_json_string(text) {
        Some(literal) => literal,
        // not reached: the encoder does not fail on a string slice
        None => String::new(),
    }
}

/// The JSON object of `user`.
pub fn user_to_json(user: &User) -> (r: String)
    ensures
        r@ == user_json(user@),
{
    let id_hex = user.id.to_hex();
    let user_name_json = quote(user.user_name.as_str());
    let email_json = quote(user.email.as_str());
    frame_user(id_hex.as_str(), user_name_json.as_str(), email_json.as_str())
}

/// The JSON array of the users that a listing decoded.
pub fn users_to_json(documents: &Vec<Option<User>>) -> (r: String)
    ensures
        r@ == users_json(decoded(documents_view(documents@))),
{
    let ghost all = documents_view(documents@);
    let mut out = String::from_str("[");
    let mut any = false;
    let mut i: usize = 0;
    while i < documents.len()
        invariant
            i <= documents.len(),
            all == documents_view(documents@),
            any <==> decoded(all.take(i as int)).len() > 0,
            out@ == "["@ + joined(decoded(all.take(i as int))),
        decreases documents.len() - i,
    {
        let ghost before = decoded(all.take(i as int));
        proof {
            assert(all.take(i + 1).drop_last() =~= all.take(i as int));
            assert(all.take(i + 1).last() == all[i as int]);
        }
        match &documents[i] {
            Some(user) => {
                if any {
                    out.append(",");
                }
                let text = user_to_json(user);
                out.append(text.as_str());
                any = true;
                proof {
                    let after = decoded(all.take(i + 1));
                    assert(after == before.push(user@));
                    assert(after.drop_last() =~= before);
                    assert(after.last() == user@);
                    if before.len() == 0 {
                        assert(joined(before) =~= Seq::<char>::empty());
                    }
                    assert(out@ =~= "["@ + joined(after));
                }
            },
            None => {},
        }
        i += 1;
    }
    proof {
        assert(all.take(i as int) =~= all);
    }
    out.append("]");
    out
}

} // verus!
