//! Properties of the users table that hold across operations.
use vstd::prelude::*;

use super::cache::{
    lemma_user_removed_keeps_keying, lemma_user_set_keeps_keying, user_removed, user_set, users_after_change, MetadataCacheAction, MetadataCacheType,
    MetadataChangeData,
};
use super::user::User;

verus! {

/// After a user is stored, looking up its name gives back that user.
pub proof fn lemma_set_then_lookup(users: Map<Seq<char>, User>, user: User)
    ensures
        user_set(users, user).contains_key(user.username@),
        user_set(users, user)[user.username@] == user,
{
}

/// Storing a user touches no entry under another name.
pub proof fn lemma_set_keeps_other_names(users: Map<Seq<char>, User>, user: User, name: Seq<char>)
    requires
        name != user.username@,
    ensures
        user_set(users, user).contains_key(name) == users.contains_key(name),
        users.contains_key(name) ==> user_set(users, user)[name] == users[name],
{
}

/// Dropping a user touches no entry under another name.
pub proof fn lemma_del_keeps_other_names(users: Map<Seq<char>, User>, user: User, name: Seq<char>)
    requires
        name != user.username@,
    ensures
        user_removed(users, user).contains_key(name) == users.contains_key(name),
        users.contains_key(name) ==> user_removed(users, user)[name] == users[name],
{
}

/// After a user is dropped, no entry has its name.
pub proof fn lemma_del_then_lookup(users: Map<Seq<char>, User>, user: User)
    ensures
        !user_removed(users, user).contains_key(user.username@),
{
}

/// Storing the same user twice is the same as storing it once.
pub proof fn lemma_set_idempotent(users: Map<Seq<char>, User>, user: User)
    ensures
        user_set(user_set(users, user), user) == user_set(users, user),
{
    assert(user_set(user_set(users, user), user) =~= user_set(users, user));
}

/// A later store under a name replaces an earlier one.
pub proof fn lemma_set_overwrites(users: Map<Seq<char>, User>, first: User, second: User)
    requires
        first.username@ == second.username@,
    ensures
        user_set(user_set(users, first), second) == user_set(users, second),
{
    assert(user_set(user_set(users, first), second) =~= user_set(users, second));
}

/// Dropping a user that was just stored is the same as dropping it from the
/// table as it was before the store.
pub proof fn lemma_del_undoes_set(users: Map<Seq<char>, User>, stored: User, dropped: User)
    requires
        stored.username@ == dropped.username@,
    ensures
        user_removed(user_set(users, stored), dropped) == user_removed(users, dropped),
{
    assert(user_removed(user_set(users, stored), dropped) =~= user_removed(users, dropped));
}

/// Dropping a user that is not there leaves the table as it is.
pub proof fn lemma_del_absent_is_noop(users: Map<Seq<char>, User>, user: User)
    requires
        !users.contains_key(user.username@),
    ensures
        user_removed(users, user) == users,
{
    assert(user_removed(users, user) =~= users);
}

/// Dropping a user twice is the same as dropping it once.
pub proof fn lemma_del_idempotent(users: Map<Seq<char>, User>, user: User)
    ensures
        user_removed(user_removed(users, user), user) == user_removed(users, user),
{
    assert(user_removed(user_removed(users, user), user) =~= user_removed(users, user));
}

/// Stores of users with different names may come in either order.
pub proof fn lemma_set_distinct_commute(users: Map<Seq<char>, User>, a: User, b: User)
    requires
        a.username@ != b.username@,
    ensures
        user_set(user_set(users, a), b) == user_set(user_set(users, b), a),
{
    assert(user_set(user_set(users, a), b) =~= user_set(user_set(users, b), a));
}

/// Changes that are not about users leave the users table as it is.
pub proof fn lemma_non_user_change_is_noop(
    users: Map<Seq<char>, User>,
    data: MetadataChangeData,
    user: Option<User>,
)
    requires
        data.data_type != MetadataCacheType::User,
    ensures
        users_after_change(users, data, user) == users,
{
}

/// A user `Put` record stores the decoded user under its name, and a user
/// `Del` record drops exactly the entry of that name.
pub proof fn lemma_user_change_matches_direct_calls(
    users: Map<Seq<char>, User>,
    data: MetadataChangeData,
    user: User,
)
    requires
        data.data_type == MetadataCacheType::User,
    ensures
        data.action == MetadataCacheAction::Put ==> users_after_change(users, data, Some(user))
            == users.insert(user.username@, user),
        data.action == MetadataCacheAction::Del ==> users_after_change(users, data, Some(user))
            == users.remove(user.username@),
{
}

/// Exactly the user records carry an encoded user, whatever their action and
/// value; cluster and topic records never do.
pub proof fn lemma_only_user_records_carry_user(data: MetadataChangeData)
    ensures
        data.spec_carries_user() <==> data.data_type == MetadataCacheType::User,
{
}

/// Applying a user `Put` record leaves the record's user under its name and
/// every other entry as it was.
pub proof fn lemma_put_record_stores_user(
    users: Map<Seq<char>, User>,
    data: MetadataChangeData,
    user: User,
    name: Seq<char>,
)
    requires
        data.data_type == MetadataCacheType::User,
        data.action == MetadataCacheAction::Put,
    ensures
        users_after_change(users, data, Some(user)).contains_key(user.username@),
        users_after_change(users, data, Some(user))[user.username@] == user,
        name != user.username@ ==> (users_after_change(users, data, Some(user)).contains_key(name)
            <==> users.contains_key(name)),
        name != user.username@ && users.contains_key(name) ==> users_after_change(
            users,
            data,
            Some(user),
        )[name] == users[name],
{
}

/// Applying a user `Del` record removes at most the entry named like the
/// record's user and leaves every other entry as it was, whatever user value
/// comes with it.
pub proof fn lemma_del_record_drops_only_its_user(
    users: Map<Seq<char>, User>,
    data: MetadataChangeData,
    user: Option<User>,
    name: Seq<char>,
)
    requires
        data.data_type == MetadataCacheType::User,
        data.action == MetadataCacheAction::Del,
        user is None || name != user->0.username@,
    ensures
        users_after_change(users, data, user).contains_key(name) <==> users.contains_key(name),
        users.contains_key(name) ==> users_after_change(users, data, user)[name] == users[name],
        user is Some ==> !users_after_change(users, data, user).contains_key(user->0.username@),
{
}

/// A record that comes without a decoded user changes no entry.
pub proof fn lemma_change_without_user_is_noop(
    users: Map<Seq<char>, User>,
    data: MetadataChangeData,
)
    ensures
        users_after_change(users, data, None) == users,
{
}

/// Dropping a user from a finite table never makes it larger.
pub proof fn lemma_del_never_grows(users: Map<Seq<char>, User>, user: User)
    requires
        users.dom().finite(),
    ensures
        user_removed(users, user).dom().finite(),
        user_removed(users, user).len() <= users.len(),
{
    lemma_user_removed_keeps_keying(users, user);
}

/// Storing a user into a finite table adds at most one entry.
pub proof fn lemma_set_grows_by_at_most_one(users: Map<Seq<char>, User>, user: User)
    requires
        users.dom().finite(),
    ensures
        user_set(users, user).dom().finite(),
        user_set(users, user).len() <= users.len() + 1,
{
    lemma_user_set_keeps_keying(users, user);
}

} // verus!
