use vstd::prelude::*;

verus! {

/// A person: a local account or a mirror of a remote identity.
/// Timestamps are microseconds since the Unix epoch.
#[derive(Clone, Debug, PartialEq, Eq)]
pub struct Person {
    pub id: i32,
    pub name: String,
    pub display_name: Option<String>,
    pub avatar: Option<String>,
    pub banned: bool,
    pub published: i64,
    pub updated: Option<i64>,
    /// The external identifier: unique over all persons.
    pub ap_id: String,
    pub bio: Option<String>,
    pub local: bool,
    pub private_key: Option<String>,
    pub public_key: String,
    pub last_refreshed_at: i64,
    pub banner: Option<String>,
    pub deleted: bool,
    pub inbox_url: String,
    pub matrix_user_id: Option<String>,
    pub bot_account: bool,
    pub ban_expires: Option<i64>,
    pub instance_id: i32,
    pub post_count: i64,
    pub post_score: i64,
    pub comment_count: i64,
    pub comment_score: i64,
}

/// The values of a new person. Absent fields take the store's defaults.
#[derive(Clone, Debug, PartialEq, Eq)]
pub struct PersonInsertForm {
    pub name: String,
    pub public_key: String,
    pub instance_id: i32,
    pub display_name: Option<String>,
    pub avatar: Option<String>,
    pub banned: Option<bool>,
    pub published: Option<i64>,
    pub updated: Option<i64>,
    pub ap_id: Option<String>,
    pub bio: Option<String>,
    pub local: Option<bool>,
    pub private_key: Option<String>,
    pub last_refreshed_at: Option<i64>,
    pub banner: Option<String>,
    pub deleted: Option<bool>,
    pub inbox_url: Option<String>,
    pub matrix_user_id: Option<String>,
    pub bot_account: Option<bool>,
    pub ban_expires: Option<i64>,
}

impl PersonInsertForm {
    /// A form with the three required values and every other field absent.
    pub fn new(name: String, public_key: String, instance_id: i32) -> (r: Self)
        ensures
            r == PersonInsertForm::bare(name, public_key, instance_id),
    {
        PersonInsertForm {
            name,
            public_key,
            instance_id,
            display_name: None,
            avatar: None,
            banned: None,
            published: None,
            updated: None,
            ap_id: None,
            bio: None,
            local: None,
            private_key: None,
            last_refreshed_at: None,
            banner: None,
            deleted: None,
            inbox_url: None,
            matrix_user_id: None,
            bot_account: None,
            ban_expires: None,
        }
    }

    /// The form that `new` builds.
    pub open spec fn bare(name: String, public_key: String, instance_id: i32) -> Self {
        PersonInsertForm {
            name,
            public_key,
            instance_id,
            display_name: None,
            avatar: None,
            banned: None,
            published: None,
            updated: None,
            ap_id: None,
            bio: None,
            local: None,
            private_key: None,
            last_refreshed_at: None,
            banner: None,
            deleted: None,
            inbox_url: None,
            matrix_user_id: None,
            bot_account: None,
            ban_expires: None,
        }
    }

    /// A form for the named person on the given instance, with the public key "pubkey".
    pub fn test_form(instance_id: i32, name: &str) -> (r: Self)
        ensures
            r.name@ == name@,
            r.public_key@ == "pubkey"@,
            r == PersonInsertForm::bare(r.name, r.public_key, instance_id),
    {
        Self::new(String::from_str(name), String::from_str("pubkey"), instance_id)
    }
}

/// A change to a person: each present field replaces the stored one.
#[derive(Clone, Debug, PartialEq, Eq, Default)]
pub struct PersonUpdateForm {
    pub display_name: Option<Option<String>>,
    pub avatar: Option<Option<String>>,
    pub banned: Option<bool>,
    pub published: Option<i64>,
    pub updated: Option<Option<i64>>,
    pub ap_id: Option<String>,
    pub bio: Option<Option<String>>,
    pub local: Option<bool>,
    pub public_key: Option<String>,
    pub private_key: Option<Option<String>>,
    pub last_refreshed_at: Option<i64>,
    pub banner: Option<Option<String>>,
    pub deleted: Option<bool>,
    pub inbox_url: Option<String>,
    pub matrix_user_id: Option<Option<String>>,
    pub bot_account: Option<bool>,
    pub ban_expires: Option<Option<i64>>,
}

/// The state of a follow edge. Only a live follow carries a timestamp.
#[derive(Clone, Copy, Debug, PartialEq, Eq)]
pub enum FollowState {
    NotFollowing,
    Pending { followed: i64 },
    Accepted { followed: i64 },
}

impl FollowState {
    pub open spec fn is_following(self) -> bool {
        !(self is NotFollowing)
    }
}

/// A stored follow edge: `follower_id` follows `target_id`.
#[derive(Clone, Copy, Debug, PartialEq, Eq)]
pub struct FollowEdge {
    pub follower_id: i32,
    pub target_id: i32,
    pub state: FollowState,
}

/// A live follow as reported to callers: `follower_id` follows `person_id`.
#[derive(Clone, Copy, Debug, PartialEq, Eq)]
pub struct PersonFollower {
    pub person_id: i32,
    pub follower_id: i32,
    pub published: i64,
    pub pending: bool,
}

/// A request that `follower_id` follow `person_id`.
#[derive(Clone, Copy, Debug, PartialEq, Eq)]
pub struct PersonFollowerForm {
    pub person_id: i32,
    pub follower_id: i32,
    pub pending: bool,
}

/// The account record of a local person.
#[derive(Clone, Debug, PartialEq, Eq)]
pub struct LocalUser {
    pub id: i32,
    pub person_id: i32,
    pub email: Option<String>,
}

/// A server that persons belong to.
#[derive(Clone, Debug, PartialEq, Eq)]
pub struct Instance {
    pub id: i32,
    pub domain: String,
}

/// A community, with the flags that decide whether it is visible here.
#[derive(Clone, Copy, Debug, PartialEq, Eq)]
pub struct Community {
    pub id: i32,
    pub local: bool,
    pub deleted: bool,
    pub removed: bool,
}

/// A post, by its creator, in a community.
#[derive(Clone, Copy, Debug, PartialEq, Eq)]
pub struct Post {
    pub id: i32,
    pub creator_id: i32,
    pub community_id: i32,
}

/// A comment, by its creator, on a post.
#[derive(Clone, Copy, Debug, PartialEq, Eq)]
pub struct Comment {
    pub id: i32,
    pub creator_id: i32,
    pub post_id: i32,
}

} // verus!
