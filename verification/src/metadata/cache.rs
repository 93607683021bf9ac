use vstd::hash_map::StringHashMap;
use vstd::prelude::*;

use super::cluster::Cluster;
use super::session::Session;
use super::user::User;

verus! {

/// What a change record does to the entry it names.
#[derive(Clone, Copy, Debug, PartialEq, Eq, Structural)]
pub enum MetadataCacheAction {
    Put,
    Del,
}

/// Which part of the metadata a change record is about.
#[derive(Clone, Copy, Debug, PartialEq, Eq, Structural)]
pub enum MetadataCacheType {
    Cluster,
    User,
    Topic,
}

/// One change record. `value` holds the encoded entry; for a user change it
/// is the encoded `User`.
#[derive(Clone, Debug)]
pub struct MetadataChangeData {
    pub action: MetadataCacheAction,
    pub data_type: MetadataCacheType,
    pub value: String,
}

/// The users table after `user` was stored under its name.
pub open spec fn user_set(users: Map<Seq<char>, User>, user: User) -> Map<Seq<char>, User> {
    users.insert(user.username@, user)
}

/// The users table after the entry named like `user` was dropped.
pub open spec fn user_removed(users: Map<Seq<char>, User>, user: User) -> Map<Seq<char>, User> {
    users.remove(user.username@)
}

/// Every user is stored under its own name.
pub open spec fn users_keyed_by_name(users: Map<Seq<char>, User>) -> bool {
    forall|name: Seq<char>| #[trigger] users.contains_key(name) ==> users[name].username@ == name
}

/// The users table after a change record was applied; `user` is the decoded
/// value of a user change.
pub open spec fn users_after_change(
    users: Map<Seq<char>, User>,
    data: MetadataChangeData,
    user: Option<User>,
) -> Map<Seq<char>, User> {
    match (data.data_type, user) {
        (MetadataCacheType::User, Some(u)) => match data.action {
            MetadataCacheAction::Put => user_set(users, u),
            MetadataCacheAction::Del => user_removed(users, u),
        },
        _ => users,
    }
}

impl MetadataChangeData {
    /// A change record whose value is an encoded `User`.
    pub open spec fn spec_carries_user(&self) -> bool {
        self.data_type == MetadataCacheType::User
    }

    /// Tells whether `value` must be decoded as a `User` before the record
    /// can be applied.
    pub fn carries_user(&self) -> (carries: bool)
        ensures
            carries == self.spec_carries_user(),
            carries == (self.data_type == MetadataCacheType::User),
    {
        match self.data_type {
            MetadataCacheType::User => true,
            _ => false,
        }
    }
}

/// The broker's copy of the metadata.
pub struct MetadataCache {
    pub cluster_info: Cluster,
    pub user_info: StringHashMap<User>,
    pub session_info: StringHashMap<Session>,
}

impl MetadataCache {
    /// The cache is well formed when both tables are finite and every user is
    /// stored under its name.
    pub open spec fn wf(&self) -> bool {
        &&& self.user_info@.dom().finite()
        &&& self.session_info@.dom().finite()
        &&& users_keyed_by_name(self.user_info@)
    }

    /// An empty cache with default cluster settings.
    pub fn new() -> (cache: Self)
        ensures
            cache.user_info@ == Map::<Seq<char>, User>::empty(),
            cache.session_info@ == Map::<Seq<char>, Session>::empty(),
            cache.cluster_info == (Cluster {}),
            cache.wf(),
    {
        return MetadataCache {
            user_info: StringHashMap::new(),
            session_info: StringHashMap::new(),
            cluster_info: Cluster::default(),
        };
    }

    /// Applies one change record. Only user changes act on the cache: `Put`
    /// stores the user under its name, `Del` drops the entry of that name.
    /// Cluster and topic changes leave it as it is.
    pub fn apply(&mut self, data: MetadataChangeData, user: Option<User>)
        requires
            data.data_type == MetadataCacheType::User ==> user is Some,
        ensures
            final(self).user_info@ == users_after_change(old(self).user_info@, data, user),
            data.data_type != MetadataCacheType::User ==> final(self).user_info@ == old(
                self,
            ).user_info@,
            data.data_type == MetadataCacheType::User && data.action == MetadataCacheAction::Put
                ==> final(self).user_info@ == old(self).user_info@.insert(
                user->0.username@,
                user->0,
            ),
            data.data_type == MetadataCacheType::User && data.action == MetadataCacheAction::Del
                ==> final(self).user_info@ == old(self).user_info@.remove(user->0.username@),
            final(self).session_info@ == old(self).session_info@,
            final(self).cluster_info == old(self).cluster_info,
            old(self).wf() ==> final(self).wf(),
            old(self).wf() && data.action == MetadataCacheAction::Put ==> final(self).user_info@.len()
                <= old(self).user_info@.len() + 1,
            old(self).wf() && data.action == MetadataCacheAction::Del ==> final(self).user_info@.len()
                <= old(self).user_info@.len(),
    {
        match data.data_type {
            MetadataCacheType::User => {
                let u = match user {
                    Some(u) => u,
                    None => {
                        proof {
                            assert(false);
                        }
                        return;
                    },
                };
                match data.action {
                    MetadataCacheAction::Put => self.set_user(u),
                    MetadataCacheAction::Del => self.del_user(u),
                }
            },
            MetadataCacheType::Topic => match data.action {
                MetadataCacheAction::Put => {},
                MetadataCacheAction::Del => {},
            },
            MetadataCacheType::Cluster => match data.action {
                MetadataCacheAction::Put => {},
                MetadataCacheAction::Del => {},
            },
        }
    }

    /// Stores `user` under its name, replacing any user of that name.
    pub fn set_user(&mut self, user: User)
        ensures
            final(self).user_info@ == user_set(old(self).user_info@, user),
            final(self).user_info@ == old(self).user_info@.insert(user.username@, user),
            final(self).session_info@ == old(self).session_info@,
            final(self).cluster_info == old(self).cluster_info,
            old(self).wf() ==> final(self).wf(),
            old(self).wf() ==> final(self).user_info@.len() == old(self).user_info@.len() + (
            if old(self).user_info@.contains_key(user.username@) {
                0int
            } else {
                1int
            }),
    {
        let name = user.username.clone();
        self.user_info.insert(name, user);
        proof {
            lemma_user_set_keeps_keying(old(self).user_info@, user);
        }
    }

    /// Drops the user whose name is the name of `user`, if there is one.
    pub fn del_user(&mut self, user: User)
        ensures
            final(self).user_info@ == user_removed(old(self).user_info@, user),
            final(self).user_info@ == old(self).user_info@.remove(user.username@),
            final(self).session_info@ == old(self).session_info@,
            final(self).cluster_info == old(self).cluster_info,
            old(self).wf() ==> final(self).wf(),
            old(self).wf() ==> final(self).user_info@.len() == old(self).user_info@.len() - (
            if old(self).user_info@.contains_key(user.username@) {
                1int
            } else {
                0int
            }),
    {
        self.user_info.remove(user.username.as_str());
        proof {
            lemma_user_removed_keeps_keying(old(self).user_info@, user);
        }
    }
}

/// Storing a user keeps every user under its own name, keeps a finite table
/// finite, and adds one entry unless the name was already there.
pub proof fn lemma_user_set_keeps_keying(users: Map<Seq<char>, User>, user: User)
    ensures
        users_keyed_by_name(users) ==> users_keyed_by_name(user_set(users, user)),
        users.dom().finite() ==> user_set(users, user).dom().finite(),
        users.dom().finite() ==> user_set(users, user).len() == users.len() + (
        if users.contains_key(user.username@) {
            0int
        } else {
            1int
        }),
{
}

/// Dropping a user keeps every user under its own name, keeps a finite table
/// finite, and removes one entry if the name was there.
pub proof fn lemma_user_removed_keeps_keying(users: Map<Seq<char>, User>, user: User)
    ensures
        users_keyed_by_name(users) ==> users_keyed_by_name(user_removed(users, user)),
        users.dom().finite() ==> user_removed(users, user).dom().finite(),
        users.dom().finite() ==> user_removed(users, user).len() == users.len() - (
        if users.contains_key(user.username@) {
            1int
        } else {
            0int
        }),
{
}

} // verus!
