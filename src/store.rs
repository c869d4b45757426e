use vstd::prelude::*;

use crate::clock::current_time;
use crate::error::PersonError;
use crate::source::{
    Comment, Community, FollowEdge, FollowState, Instance, LocalUser, Person, PersonFollower,
    PersonFollowerForm, PersonInsertForm, PersonUpdateForm, Post,
};
use crate::text::{copy_opt, str_eq};

verus! {

/// The external identifier that a person gets when its form names none.
pub open spec fn default_ap_id(name: Seq<char>) -> Seq<char> {
    "http://changeme.invalid/u/"@ + name
}

/// The external identifier that a form asks for.
pub open spec fn form_ap_id(form: PersonInsertForm) -> Seq<char> {
    match form.ap_id {
        Some(a) => a@,
        None => default_ap_id(form.name@),
    }
}

/// The inbox that a person gets when its form names none.
pub open spec fn form_inbox_url(form: PersonInsertForm) -> Seq<char> {
    match form.inbox_url {
        Some(a) => a@,
        None => default_ap_id(form.name@) + "/inbox"@,
    }
}

pub open spec fn or_bool(o: Option<bool>, d: bool) -> bool {
    match o {
        Some(v) => v,
        None => d,
    }
}

pub open spec fn or_time(o: Option<i64>, d: i64) -> i64 {
    match o {
        Some(v) => v,
        None => d,
    }
}

pub open spec fn or_keep<T>(o: Option<T>, d: T) -> T {
    match o {
        Some(v) => v,
        None => d,
    }
}

/// The row that a form inserts under `id` at time `now`, given the external
/// identifier and inbox strings that it resolves to.
pub open spec fn row_from_form(
    form: PersonInsertForm,
    id: i32,
    now: i64,
    ap_id: String,
    inbox_url: String,
) -> Person {
    Person {
        id,
        name: form.name,
        display_name: form.display_name,
        avatar: form.avatar,
        banned: or_bool(form.banned, false),
        published: or_time(form.published, now),
        updated: form.updated,
        ap_id,
        bio: form.bio,
        local: or_bool(form.local, true),
        private_key: form.private_key,
        public_key: form.public_key,
        last_refreshed_at: or_time(form.last_refreshed_at, now),
        banner: form.banner,
        deleted: or_bool(form.deleted, false),
        inbox_url,
        matrix_user_id: form.matrix_user_id,
        bot_account: or_bool(form.bot_account, false),
        ban_expires: form.ban_expires,
        instance_id: form.instance_id,
        post_count: 0,
        post_score: 0,
        comment_count: 0,
        comment_score: 0,
    }
}

/// A stored row overwritten by every field that an insert form holds.
pub open spec fn overwrite(p: Person, form: PersonInsertForm) -> Person {
    Person {
        id: p.id,
        name: form.name,
        display_name: if form.display_name is Some { form.display_name } else { p.display_name },
        avatar: if form.avatar is Some { form.avatar } else { p.avatar },
        banned: or_bool(form.banned, p.banned),
        published: or_time(form.published, p.published),
        updated: if form.updated is Some { form.updated } else { p.updated },
        ap_id: or_keep(form.ap_id, p.ap_id),
        bio: if form.bio is Some { form.bio } else { p.bio },
        local: or_bool(form.local, p.local),
        private_key: if form.private_key is Some { form.private_key } else { p.private_key },
        public_key: form.public_key,
        last_refreshed_at: or_time(form.last_refreshed_at, p.last_refreshed_at),
        banner: if form.banner is Some { form.banner } else { p.banner },
        deleted: or_bool(form.deleted, p.deleted),
        inbox_url: or_keep(form.inbox_url, p.inbox_url),
        matrix_user_id: if form.matrix_user_id is Some { form.matrix_user_id } else { p.matrix_user_id },
        bot_account: or_bool(form.bot_account, p.bot_account),
        ban_expires: if form.ban_expires is Some { form.ban_expires } else { p.ban_expires },
        instance_id: form.instance_id,
        post_count: p.post_count,
        post_score: p.post_score,
        comment_count: p.comment_count,
        comment_score: p.comment_score,
    }
}

/// A stored row changed by the fields that an update form holds.
pub open spec fn apply_update(p: Person, form: PersonUpdateForm) -> Person {
    Person {
        id: p.id,
        name: p.name,
        display_name: or_keep(form.display_name, p.display_name),
        avatar: or_keep(form.avatar, p.avatar),
        banned: or_bool(form.banned, p.banned),
        published: or_time(form.published, p.published),
        updated: or_keep(form.updated, p.updated),
        ap_id: or_keep(form.ap_id, p.ap_id),
        bio: or_keep(form.bio, p.bio),
        local: or_bool(form.local, p.local),
        private_key: or_keep(form.private_key, p.private_key),
        public_key: or_keep(form.public_key, p.public_key),
        last_refreshed_at: or_time(form.last_refreshed_at, p.last_refreshed_at),
        banner: or_keep(form.banner, p.banner),
        deleted: or_bool(form.deleted, p.deleted),
        inbox_url: or_keep(form.inbox_url, p.inbox_url),
        matrix_user_id: or_keep(form.matrix_user_id, p.matrix_user_id),
        bot_account: or_bool(form.bot_account, p.bot_account),
        ban_expires: or_keep(form.ban_expires, p.ban_expires),
        instance_id: p.instance_id,
        post_count: p.post_count,
        post_score: p.post_score,
        comment_count: p.comment_count,
        comment_score: p.comment_score,
    }
}

/// A row after its owner deleted the account: the free-text and media fields
/// are cleared, the row is marked deleted and `updated` is set to `now`.
pub open spec fn scrubbed(p: Person, now: i64) -> Person {
    Person {
        display_name: None,
        avatar: None,
        banner: None,
        bio: None,
        matrix_user_id: None,
        deleted: true,
        updated: Some(now),
        ..p
    }
}

/// The stored edge that a follow request writes at time `now`.
pub open spec fn edge_of(form: PersonFollowerForm, now: i64) -> FollowEdge {
    FollowEdge {
        follower_id: form.follower_id,
        target_id: form.person_id,
        state: if form.pending {
            FollowState::Pending { followed: now }
        } else {
            FollowState::Accepted { followed: now }
        },
    }
}

/// Whether an edge joins the pair that a follow request names.
pub open spec fn same_pair(e: FollowEdge, form: PersonFollowerForm) -> bool {
    e.follower_id == form.follower_id && e.target_id == form.person_id
}

/// Whether some row, deleted or not, has the id.
pub open spec fn has_id(persons: Seq<Person>, id: i32) -> bool {
    exists|i: int| 0 <= i < persons.len() && (#[trigger] persons[i]).id == id
}

/// Whether some row that is not deleted has the id.
pub open spec fn has_live_id(persons: Seq<Person>, id: i32) -> bool {
    exists|i: int| 0 <= i < persons.len() && (#[trigger] persons[i]).id == id && !persons[i].deleted
}

/// Whether some row holds the external identifier.
pub open spec fn has_ap_id(persons: Seq<Person>, ap: Seq<char>) -> bool {
    exists|i: int| 0 <= i < persons.len() && (#[trigger] persons[i]).ap_id@ == ap
}

/// All the tables: persons with their follow edges and account records, and
/// the instances, communities, posts and comments that refer to them.
pub struct PersonStore {
    pub persons: Vec<Person>,
    pub edges: Vec<FollowEdge>,
    pub local_users: Vec<LocalUser>,
    pub instances: Vec<Instance>,
    pub communities: Vec<Community>,
    pub posts: Vec<Post>,
    pub comments: Vec<Comment>,
    /// The id that the next new person gets.
    pub next_id: i32,
}

impl PersonStore {
    /// Ids are positive, below `next_id` and unique; external identifiers are
    /// unique; at most one edge joins an ordered pair.
    pub open spec fn wf(&self) -> bool {
        &&& 1 <= self.next_id
        &&& forall|i: int|
            0 <= i < self.persons@.len() ==> 1 <= #[trigger] self.persons@[i].id < self.next_id
        &&& forall|i: int, j: int|
            0 <= i < j < self.persons@.len() ==> (#[trigger] self.persons@[i]).id
                != (#[trigger] self.persons@[j]).id
        &&& forall|i: int, j: int|
            0 <= i < j < self.persons@.len() ==> (#[trigger] self.persons@[i]).ap_id@
                != (#[trigger] self.persons@[j]).ap_id@
        &&& forall|i: int, j: int|
            0 <= i < j < self.edges@.len() ==> !((#[trigger] self.edges@[i]).follower_id
                == (#[trigger] self.edges@[j]).follower_id && self.edges@[i].target_id
                == self.edges@[j].target_id)
    }

    /// Whether a store may still allocate an id for a new person.
    pub open spec fn has_room(&self) -> bool {
        self.next_id < i32::MAX
    }

    /// The same tables apart from the persons and the id counter.
    pub open spec fn same_but_persons(&self, o: &Self) -> bool {
        &&& self.edges@ == o.edges@
        &&& self.local_users@ == o.local_users@
        &&& self.instances@ == o.instances@
        &&& self.communities@ == o.communities@
        &&& self.posts@ == o.posts@
        &&& self.comments@ == o.comments@
    }

    /// The same tables apart from the edges.
    pub open spec fn same_but_edges(&self, o: &Self) -> bool {
        &&& self.persons@ == o.persons@
        &&& self.local_users@ == o.local_users@
        &&& self.instances@ == o.instances@
        &&& self.communities@ == o.communities@
        &&& self.posts@ == o.posts@
        &&& self.comments@ == o.comments@
        &&& self.next_id == o.next_id
    }

    /// The same persons, edges, account records and instances.
    pub open spec fn same_people(&self, o: &Self) -> bool {
        &&& self.persons@ == o.persons@
        &&& self.edges@ == o.edges@
        &&& self.local_users@ == o.local_users@
        &&& self.instances@ == o.instances@
        &&& self.next_id == o.next_id
    }

    /// The same tables throughout.
    pub open spec fn same(&self, o: &Self) -> bool {
        &&& self.same_but_edges(o)
        &&& self.edges@ == o.edges@
    }

    /// An empty store.
    pub fn new() -> (r: Self)
        ensures
            r.wf(),
            r.has_room(),
            r.persons@.len() == 0,
            r.edges@.len() == 0,
            r.local_users@.len() == 0,
            r.instances@.len() == 0,
            r.communities@.len() == 0,
            r.posts@.len() == 0,
            r.comments@.len() == 0,
    {
        PersonStore {
            persons: Vec::new(),
            edges: Vec::new(),
            local_users: Vec::new(),
            instances: Vec::new(),
            communities: Vec::new(),
            posts: Vec::new(),
            comments: Vec::new(),
            next_id: 1,
        }
    }

    /// What `read` returns: the row with the id unless it is deleted.
    pub open spec fn read_spec(&self, id: i32, r: Result<Person, PersonError>) -> bool {
        match r {
            Ok(p) => self.persons@.contains(p) && p.id == id && !p.deleted,
            Err(e) => e == PersonError::NotFound && !has_live_id(self.persons@, id),
        }
    }

    /// What `create` does at time `now`.
    pub open spec fn create_spec(
        pre: &Self,
        post: &Self,
        form: PersonInsertForm,
        now: i64,
        r: Result<Person, PersonError>,
    ) -> bool {
        match r {
            Ok(p) => {
                &&& !has_ap_id(pre.persons@, form_ap_id(form))
                &&& p == row_from_form(form, pre.next_id, now, p.ap_id, p.inbox_url)
                &&& p.ap_id@ == form_ap_id(form)
                &&& p.inbox_url@ == form_inbox_url(form)
                &&& post.persons@ == pre.persons@.push(p)
                &&& post.next_id == pre.next_id + 1
                &&& post.same_but_persons(pre)
            },
            Err(e) => {
                &&& e == PersonError::UniqueViolation
                &&& has_ap_id(pre.persons@, form_ap_id(form))
                &&& post.same(pre)
            },
        }
    }
}

/// A copy of a row.
pub fn copy_person(p: &Person) -> (r: Person)
    ensures
        r == *p,
{
    Person {
        id: p.id,
        name: p.name.clone(),
        display_name: copy_opt(&p.display_name),
        avatar: copy_opt(&p.avatar),
        banned: p.banned,
        published: p.published,
        updated: p.updated,
        ap_id: p.ap_id.clone(),
        bio: copy_opt(&p.bio),
        local: p.local,
        private_key: copy_opt(&p.private_key),
        public_key: p.public_key.clone(),
        last_refreshed_at: p.last_refreshed_at,
        banner: copy_opt(&p.banner),
        deleted: p.deleted,
        inbox_url: p.inbox_url.clone(),
        matrix_user_id: copy_opt(&p.matrix_user_id),
        bot_account: p.bot_account,
        ban_expires: p.ban_expires,
        instance_id: p.instance_id,
        post_count: p.post_count,
        post_score: p.post_score,
        comment_count: p.comment_count,
        comment_score: p.comment_score,
    }
}

impl PersonStore {
    /// The position of the row with the id, deleted or not.
    fn index_of(&self, id: i32) -> (r: Option<usize>)
        ensures
            r matches Some(i) ==> i < self.persons@.len() && self.persons@[i as int].id == id,
            r is None ==> !has_id(self.persons@, id),
    {
        let mut i: usize = 0;
        while i < self.persons.len()
            invariant
                i <= self.persons@.len(),
                forall|j: int| 0 <= j < i ==> (#[trigger] self.persons@[j]).id != id,
            decreases self.persons@.len() - i,
        {
            if self.persons[i].id == id {
                return Some(i);
            }
            i = i + 1;
        }
        None
    }

    /// The position of the row with the external identifier.
    fn index_of_ap_id(&self, ap: &str) -> (r: Option<usize>)
        ensures
            r matches Some(i) ==> i < self.persons@.len() && self.persons@[i as int].ap_id@ == ap@,
            r is None ==> !has_ap_id(self.persons@, ap@),
    {
        let mut i: usize = 0;
        while i < self.persons.len()
            invariant
                i <= self.persons@.len(),
                forall|j: int| 0 <= j < i ==> (#[trigger] self.persons@[j]).ap_id@ != ap@,
            decreases self.persons@.len() - i,
        {
            if str_eq(self.persons[i].ap_id.as_str(), ap) {
                return Some(i);
            }
            i = i + 1;
        }
        None
    }

    /// The person with the id, unless it is soft-deleted.
    pub fn read(&self, person_id: i32) -> (r: Result<Person, PersonError>)
        requires
            self.wf(),
        ensures
            self.read_spec(person_id, r),
    {
        match self.index_of(person_id) {
            Some(i) => {
                if self.persons[i].deleted {
                    Err(PersonError::NotFound)
                } else {
                    let p = copy_person(&self.persons[i]);
                    assert(self.persons@[i as int] == p);
                    Ok(p)
                }
            },
            None => Err(PersonError::NotFound),
        }
    }

    /// The external identifier that a form resolves to.
    fn resolve_ap_id(form: &PersonInsertForm) -> (r: String)
        ensures
            r@ == form_ap_id(*form),
    {
        match &form.ap_id {
            Some(a) => a.clone(),
            None => {
                let mut s = String::from_str("http://changeme.invalid/u/");
                s.append(form.name.as_str());
                s
            },
        }
    }

    /// The inbox that a form resolves to.
    fn resolve_inbox_url(form: &PersonInsertForm) -> (r: String)
        ensures
            r@ == form_inbox_url(*form),
    {
        match &form.inbox_url {
            Some(a) => a.clone(),
            None => {
                let mut s = String::from_str("http://changeme.invalid/u/");
                s.append(form.name.as_str());
                s.append("/inbox");
                s
            },
        }
    }

    /// The row that a form makes under the next id, at time `now`.
    fn new_row(&self, form: &PersonInsertForm, now: i64, ap_id: String) -> (r: Person)
        requires
            ap_id@ == form_ap_id(*form),
        ensures
            r == row_from_form(*form, self.next_id, now, r.ap_id, r.inbox_url),
            r.ap_id@ == form_ap_id(*form),
            r.inbox_url@ == form_inbox_url(*form),
    {
        let inbox_url = Self::resolve_inbox_url(form);
        Person {
            id: self.next_id,
            name: form.name.clone(),
            display_name: copy_opt(&form.display_name),
            avatar: copy_opt(&form.avatar),
            banned: match form.banned { Some(b) => b, None => false },
            published: match form.published { Some(t) => t, None => now },
            updated: form.updated,
            ap_id,
            bio: copy_opt(&form.bio),
            local: match form.local { Some(b) => b, None => true },
            private_key: copy_opt(&form.private_key),
            public_key: form.public_key.clone(),
            last_refreshed_at: match form.last_refreshed_at { Some(t) => t, None => now },
            banner: copy_opt(&form.banner),
            deleted: match form.deleted { Some(b) => b, None => false },
            inbox_url,
            matrix_user_id: copy_opt(&form.matrix_user_id),
            bot_account: match form.bot_account { Some(b) => b, None => false },
            ban_expires: form.ban_expires,
            instance_id: form.instance_id,
            post_count: 0,
            post_score: 0,
            comment_count: 0,
            comment_score: 0,
        }
    }

    /// Inserts a new person at time `now`; fails if its external identifier is taken.
    pub fn create_at(&mut self, form: &PersonInsertForm, now: i64) -> (r: Result<
        Person,
        PersonError,
    >)
        requires
            old(self).wf(),
            old(self).has_room(),
        ensures
            final(self).wf(),
            Self::create_spec(old(self), final(self), *form, now, r),
    {
        let ap_id = Self::resolve_ap_id(form);
        if self.index_of_ap_id(ap_id.as_str()).is_some() {
            return Err(PersonError::UniqueViolation);
        }
        let p = self.new_row(form, now, ap_id);
        let q = copy_person(&p);
        self.persons.push(q);
        self.next_id = self.next_id + 1;
        Ok(p)
    }

    /// Inserts a new person, stamped with the current time; fails if its
    /// external identifier is taken.
    pub fn create(&mut self, form: &PersonInsertForm) -> (r: Result<Person, PersonError>)
        requires
            old(self).wf(),
            old(self).has_room(),
        ensures
            final(self).wf(),
            exists|t: i64| #[trigger] Self::create_spec(old(self), final(self), *form, t, r),
    {
        let now = current_time();
        let r = self.create_at(form, now);
        assert(Self::create_spec(old(self), self, *form, now, r));
        r
    }
}


/// An account record whose email is cleared if it belongs to the person.
pub open spec fn cleared_email(u: LocalUser, id: i32) -> LocalUser {
    if u.person_id == id {
        LocalUser { email: None, ..u }
    } else {
        u
    }
}

/// Whether a row other than the one with the id holds the external identifier.
pub open spec fn ap_id_held_by_other(persons: Seq<Person>, ap: Seq<char>, id: i32) -> bool {
    exists|j: int|
        0 <= j < persons.len() && (#[trigger] persons[j]).id != id && persons[j].ap_id@ == ap
}

impl PersonStore {
    /// What `upsert` does at time `now`: overwrite the row with the form's
    /// external identifier, or insert a new one.
    pub open spec fn upsert_spec(
        pre: &Self,
        post: &Self,
        form: PersonInsertForm,
        now: i64,
        r: Result<Person, PersonError>,
    ) -> bool {
        if has_ap_id(pre.persons@, form_ap_id(form)) {
            &&& exists|i: int|
                0 <= i < pre.persons@.len() && (#[trigger] pre.persons@[i]).ap_id@ == form_ap_id(
                    form,
                ) && post.persons@ == pre.persons@.update(i, overwrite(pre.persons@[i], form))
                    && r == Ok::<Person, PersonError>(overwrite(pre.persons@[i], form))
            &&& post.next_id == pre.next_id
            &&& post.same_but_persons(pre)
        } else {
            r is Ok && Self::create_spec(pre, post, form, now, r)
        }
    }

    /// What `update` does to the row with the id.
    pub open spec fn update_spec(
        pre: &Self,
        post: &Self,
        id: i32,
        form: PersonUpdateForm,
        r: Result<Person, PersonError>,
    ) -> bool {
        if !has_id(pre.persons@, id) {
            r == Err::<Person, PersonError>(PersonError::NotFound) && post.same(pre)
        } else if form.ap_id is Some && ap_id_held_by_other(
            pre.persons@,
            form.ap_id->0@,
            id,
        ) {
            r == Err::<Person, PersonError>(PersonError::UniqueViolation) && post.same(pre)
        } else {
            &&& exists|i: int|
                0 <= i < pre.persons@.len() && (#[trigger] pre.persons@[i]).id == id
                    && post.persons@ == pre.persons@.update(i, apply_update(pre.persons@[i], form))
                    && r == Ok::<Person, PersonError>(apply_update(pre.persons@[i], form))
            &&& post.next_id == pre.next_id
            &&& post.same_but_persons(pre)
        }
    }

    /// What `delete_account` does at time `now`: scrub the person's row and
    /// clear the email of its account record.
    pub open spec fn delete_account_spec(
        pre: &Self,
        post: &Self,
        id: i32,
        now: i64,
        r: Result<Person, PersonError>,
    ) -> bool {
        if !has_id(pre.persons@, id) {
            r == Err::<Person, PersonError>(PersonError::NotFound) && post.same(pre)
        } else {
            &&& exists|i: int|
                0 <= i < pre.persons@.len() && (#[trigger] pre.persons@[i]).id == id
                    && post.persons@ == pre.persons@.update(i, scrubbed(pre.persons@[i], now))
                    && r == Ok::<Person, PersonError>(scrubbed(pre.persons@[i], now))
            &&& post.local_users@ == pre.local_users@.map_values(|u: LocalUser| cleared_email(u, id))
            &&& post.next_id == pre.next_id
            &&& post.edges@ == pre.edges@
            &&& post.instances@ == pre.instances@
            &&& post.communities@ == pre.communities@
            &&& post.posts@ == pre.posts@
            &&& post.comments@ == pre.comments@
        }
    }
}

/// The option that replaces another when it is present.
fn pick_opt(a: &Option<String>, b: &Option<String>) -> (r: Option<String>)
    ensures
        r == (if a is Some { *a } else { *b }),
{
    if a.is_some() {
        copy_opt(a)
    } else {
        copy_opt(b)
    }
}

/// The string that a present value replaces.
fn keep_str(a: &Option<String>, b: &String) -> (r: String)
    ensures
        r == or_keep(*a, *b),
{
    match a {
        Some(s) => s.clone(),
        None => b.clone(),
    }
}

/// The optional string that a present value replaces.
fn keep_opt(a: &Option<Option<String>>, b: &Option<String>) -> (r: Option<String>)
    ensures
        r == or_keep(*a, *b),
{
    match a {
        Some(s) => copy_opt(s),
        None => copy_opt(b),
    }
}

fn keep<T: Copy>(a: Option<T>, b: T) -> (r: T)
    ensures
        r == or_keep(a, b),
{
    match a {
        Some(v) => v,
        None => b,
    }
}

/// A row overwritten by an insert form.
fn overwritten(p: &Person, form: &PersonInsertForm) -> (r: Person)
    ensures
        r == overwrite(*p, *form),
{
    Person {
        id: p.id,
        name: form.name.clone(),
        display_name: pick_opt(&form.display_name, &p.display_name),
        avatar: pick_opt(&form.avatar, &p.avatar),
        banned: keep(form.banned, p.banned),
        published: keep(form.published, p.published),
        updated: if form.updated.is_some() { form.updated } else { p.updated },
        ap_id: keep_str(&form.ap_id, &p.ap_id),
        bio: pick_opt(&form.bio, &p.bio),
        local: keep(form.local, p.local),
        private_key: pick_opt(&form.private_key, &p.private_key),
        public_key: form.public_key.clone(),
        last_refreshed_at: keep(form.last_refreshed_at, p.last_refreshed_at),
        banner: pick_opt(&form.banner, &p.banner),
        deleted: keep(form.deleted, p.deleted),
        inbox_url: keep_str(&form.inbox_url, &p.inbox_url),
        matrix_user_id: pick_opt(&form.matrix_user_id, &p.matrix_user_id),
        bot_account: keep(form.bot_account, p.bot_account),
        ban_expires: if form.ban_expires.is_some() { form.ban_expires } else { p.ban_expires },
        instance_id: form.instance_id,
        post_count: p.post_count,
        post_score: p.post_score,
        comment_count: p.comment_count,
        comment_score: p.comment_score,
    }
}

/// A row changed by an update form.
fn updated_row(p: &Person, form: &PersonUpdateForm) -> (r: Person)
    ensures
        r == apply_update(*p, *form),
{
    Person {
        id: p.id,
        name: p.name.clone(),
        display_name: keep_opt(&form.display_name, &p.display_name),
        avatar: keep_opt(&form.avatar, &p.avatar),
        banned: keep(form.banned, p.banned),
        published: keep(form.published, p.published),
        updated: keep(form.updated, p.updated),
        ap_id: keep_str(&form.ap_id, &p.ap_id),
        bio: keep_opt(&form.bio, &p.bio),
        local: keep(form.local, p.local),
        private_key: keep_opt(&form.private_key, &p.private_key),
        public_key: keep_str(&form.public_key, &p.public_key),
        last_refreshed_at: keep(form.last_refreshed_at, p.last_refreshed_at),
        banner: keep_opt(&form.banner, &p.banner),
        deleted: keep(form.deleted, p.deleted),
        inbox_url: keep_str(&form.inbox_url, &p.inbox_url),
        matrix_user_id: keep_opt(&form.matrix_user_id, &p.matrix_user_id),
        bot_account: keep(form.bot_account, p.bot_account),
        ban_expires: keep(form.ban_expires, p.ban_expires),
        instance_id: p.instance_id,
        post_count: p.post_count,
        post_score: p.post_score,
        comment_count: p.comment_count,
        comment_score: p.comment_score,
    }
}

/// A row scrubbed at time `now`.
fn scrubbed_row(p: &Person, now: i64) -> (r: Person)
    ensures
        r == scrubbed(*p, now),
{
    Person {
        id: p.id,
        name: p.name.clone(),
        display_name: None,
        avatar: None,
        banned: p.banned,
        published: p.published,
        updated: Some(now),
        ap_id: p.ap_id.clone(),
        bio: None,
        local: p.local,
        private_key: copy_opt(&p.private_key),
        public_key: p.public_key.clone(),
        last_refreshed_at: p.last_refreshed_at,
        banner: None,
        deleted: true,
        inbox_url: p.inbox_url.clone(),
        matrix_user_id: None,
        bot_account: p.bot_account,
        ban_expires: p.ban_expires,
        instance_id: p.instance_id,
        post_count: p.post_count,
        post_score: p.post_score,
        comment_count: p.comment_count,
        comment_score: p.comment_score,
    }
}

impl PersonStore {
    /// Inserts the person, or overwrites the row with the same external
    /// identifier with every field that the form holds, at time `now`.
    pub fn upsert_at(&mut self, form: &PersonInsertForm, now: i64) -> (r: Result<
        Person,
        PersonError,
    >)
        requires
            old(self).wf(),
            old(self).has_room(),
        ensures
            final(self).wf(),
            Self::upsert_spec(old(self), final(self), *form, now, r),
    {
        let ap_id = Self::resolve_ap_id(form);
        match self.index_of_ap_id(ap_id.as_str()) {
            Some(i) => {
                let p = overwritten(&self.persons[i], form);
                let q = copy_person(&p);
                self.persons.set(i, q);
                assert(self.persons@[i as int].ap_id@ == old(self).persons@[i as int].ap_id@);
                Ok(p)
            },
            None => {
                let p = self.new_row(form, now, ap_id);
                let q = copy_person(&p);
                self.persons.push(q);
                self.next_id = self.next_id + 1;
                Ok(p)
            },
        }
    }

    /// Inserts the person, or overwrites the row with the same external
    /// identifier, stamped with the current time.
    pub fn upsert(&mut self, form: &PersonInsertForm) -> (r: Result<Person, PersonError>)
        requires
            old(self).wf(),
            old(self).has_room(),
        ensures
            final(self).wf(),
            exists|t: i64| #[trigger] Self::upsert_spec(old(self), final(self), *form, t, r),
    {
        let now = current_time();
        let r = self.upsert_at(form, now);
        assert(Self::upsert_spec(old(self), self, *form, now, r));
        r
    }

    /// Whether a row other than the one with the id holds the external identifier.
    fn ap_id_taken_by_other(&self, ap: &str, id: i32) -> (r: bool)
        ensures
            r == ap_id_held_by_other(self.persons@, ap@, id),
    {
        let mut j: usize = 0;
        while j < self.persons.len()
            invariant
                j <= self.persons@.len(),
                forall|k: int|
                    0 <= k < j ==> !((#[trigger] self.persons@[k]).id != id
                        && self.persons@[k].ap_id@ == ap@),
            decreases self.persons@.len() - j,
        {
            if self.persons[j].id != id && str_eq(self.persons[j].ap_id.as_str(), ap) {
                return true;
            }
            j = j + 1;
        }
        false
    }

    /// Applies the present fields of the form to the row with the id.
    pub fn update(&mut self, person_id: i32, form: &PersonUpdateForm) -> (r: Result<
        Person,
        PersonError,
    >)
        requires
            old(self).wf(),
        ensures
            final(self).wf(),
            Self::update_spec(old(self), final(self), person_id, *form, r),
    {
        let i = match self.index_of(person_id) {
            Some(i) => i,
            None => return Err(PersonError::NotFound),
        };
        if let Some(a) = &form.ap_id {
            if self.ap_id_taken_by_other(a.as_str(), person_id) {
                return Err(PersonError::UniqueViolation);
            }
        }
        let p = updated_row(&self.persons[i], form);
        let q = copy_person(&p);
        self.persons.set(i, q);
        proof {
            let ps = self.persons@;
            let qs = old(self).persons@;
            assert forall|a: int, b: int| 0 <= a < b < ps.len() implies (#[trigger] ps[a]).ap_id@
                != (#[trigger] ps[b]).ap_id@ by {
                if a != i && b != i {
                    assert(qs[a] == ps[a] && qs[b] == ps[b]);
                }
            }
        }
        Ok(p)
    }

    /// Clears the email of every account record of the person.
    fn clear_emails(&mut self, id: i32)
        ensures
            final(self).local_users@ == old(self).local_users@.map_values(
                |u: LocalUser| cleared_email(u, id),
            ),
            final(self).persons@ == old(self).persons@,
            final(self).edges@ == old(self).edges@,
            final(self).instances@ == old(self).instances@,
            final(self).communities@ == old(self).communities@,
            final(self).posts@ == old(self).posts@,
            final(self).comments@ == old(self).comments@,
            final(self).next_id == old(self).next_id,
    {
        let mut k: usize = 0;
        while k < self.local_users.len()
            invariant
                k <= self.local_users@.len(),
                self.local_users@.len() == old(self).local_users@.len(),
                forall|j: int|
                    0 <= j < k ==> self.local_users@[j] == cleared_email(
                        old(self).local_users@[j],
                        id,
                    ),
                forall|j: int|
                    k <= j < self.local_users@.len() ==> self.local_users@[j] == old(
                        self,
                    ).local_users@[j],
                self.persons@ == old(self).persons@,
                self.edges@ == old(self).edges@,
                self.instances@ == old(self).instances@,
                self.communities@ == old(self).communities@,
                self.posts@ == old(self).posts@,
                self.comments@ == old(self).comments@,
                self.next_id == old(self).next_id,
            decreases self.local_users@.len() - k,
        {
            if self.local_users[k].person_id == id {
                let u = LocalUser {
                    id: self.local_users[k].id,
                    person_id: self.local_users[k].person_id,
                    email: None,
                };
                self.local_users.set(k, u);
            }
            k = k + 1;
        }
        assert(self.local_users@ =~= old(self).local_users@.map_values(
            |u: LocalUser| cleared_email(u, id),
        ));
    }

    /// Soft-deletes the person at time `now`: clears the email of its account
    /// record and the free-text and media fields of its row, and marks it deleted.
    pub fn delete_account_at(&mut self, person_id: i32, now: i64) -> (r: Result<
        Person,
        PersonError,
    >)
        requires
            old(self).wf(),
        ensures
            final(self).wf(),
            Self::delete_account_spec(old(self), final(self), person_id, now, r),
    {
        let i = match self.index_of(person_id) {
            Some(i) => i,
            None => return Err(PersonError::NotFound),
        };
        self.clear_emails(person_id);
        let p = scrubbed_row(&self.persons[i], now);
        let q = copy_person(&p);
        self.persons.set(i, q);
        proof {
            let ps = self.persons@;
            let qs = old(self).persons@;
            assert forall|a: int, b: int| 0 <= a < b < ps.len() implies (#[trigger] ps[a]).ap_id@
                != (#[trigger] ps[b]).ap_id@ by {
                assert(qs[a].ap_id@ == ps[a].ap_id@ && qs[b].ap_id@ == ps[b].ap_id@);
            }
        }
        Ok(p)
    }

    /// Soft-deletes the person, stamped with the current time.
    pub fn delete_account(&mut self, person_id: i32) -> (r: Result<Person, PersonError>)
        requires
            old(self).wf(),
        ensures
            final(self).wf(),
            exists|t: i64| #[trigger] Self::delete_account_spec(old(self), final(self), person_id, t, r),
    {
        let now = current_time();
        let r = self.delete_account_at(person_id, now);
        assert(Self::delete_account_spec(old(self), self, person_id, now, r));
        r
    }
}


/// The row with the id, if there is one.
pub open spec fn person_with_id(persons: Seq<Person>, id: i32) -> Option<Person> {
    if has_id(persons, id) {
        Some(persons[choose|i: int| 0 <= i < persons.len() && (#[trigger] persons[i]).id == id])
    } else {
        None
    }
}

/// The persons that follow the target, one for each live edge towards it
/// whose follower has a row, in the order of the edges.
pub open spec fn followers_of(edges: Seq<FollowEdge>, persons: Seq<Person>, target: i32) -> Seq<
    Person,
>
    decreases edges.len(),
{
    if edges.len() == 0 {
        Seq::empty()
    } else {
        let rest = followers_of(edges.drop_last(), persons, target);
        let e = edges.last();
        if e.target_id == target && e.state.is_following() {
            match person_with_id(persons, e.follower_id) {
                Some(p) => rest.push(p),
                None => rest,
            }
        } else {
            rest
        }
    }
}

/// Whether an edge stays when the person with the id is removed.
pub open spec fn edge_survives(e: FollowEdge, id: i32) -> bool {
    e.follower_id != id && e.target_id != id
}

/// Whether some edge joins the pair that the form names.
pub open spec fn has_pair(edges: Seq<FollowEdge>, form: PersonFollowerForm) -> bool {
    exists|k: int| 0 <= k < edges.len() && same_pair(#[trigger] edges[k], form)
}

impl PersonStore {
    /// What `follow` does at time `now`: write the edge of the pair, over the
    /// one that is there if any.
    pub open spec fn follow_spec(
        pre: &Self,
        post: &Self,
        form: PersonFollowerForm,
        now: i64,
        r: Result<PersonFollower, PersonError>,
    ) -> bool {
        if !(has_id(pre.persons@, form.person_id) && has_id(pre.persons@, form.follower_id)) {
            r == Err::<PersonFollower, PersonError>(PersonError::NotFound) && post.same(pre)
        } else {
            &&& r == Ok::<PersonFollower, PersonError>(
                PersonFollower {
                    person_id: form.person_id,
                    follower_id: form.follower_id,
                    published: now,
                    pending: form.pending,
                },
            )
            &&& post.same_but_edges(pre)
            &&& if has_pair(pre.edges@, form) {
                exists|k: int|
                    0 <= k < pre.edges@.len() && same_pair(#[trigger] pre.edges@[k], form)
                        && post.edges@ == pre.edges@.update(k, edge_of(form, now))
            } else {
                post.edges@ == pre.edges@.push(edge_of(form, now))
            }
        }
    }

    /// What `unfollow` does: clear the live edge of the pair and count it.
    pub open spec fn unfollow_spec(
        pre: &Self,
        post: &Self,
        form: PersonFollowerForm,
        r: usize,
    ) -> bool {
        &&& post.same_but_edges(pre)
        &&& if exists|k: int|
            0 <= k < pre.edges@.len() && same_pair(#[trigger] pre.edges@[k], form)
                && pre.edges@[k].state.is_following() {
            &&& r == 1
            &&& exists|k: int|
                0 <= k < pre.edges@.len() && same_pair(#[trigger] pre.edges@[k], form)
                    && post.edges@ == pre.edges@.update(
                    k,
                    FollowEdge { state: FollowState::NotFollowing, ..pre.edges@[k] },
                )
        } else {
            r == 0 && post.edges@ == pre.edges@
        }
    }

    /// The position of the edge from the follower to the target.
    fn edge_index(&self, follower_id: i32, target_id: i32) -> (r: Option<usize>)
        ensures
            r matches Some(k) ==> k < self.edges@.len() && self.edges@[k as int].follower_id
                == follower_id && self.edges@[k as int].target_id == target_id,
            r is None ==> forall|k: int|
                0 <= k < self.edges@.len() ==> !((#[trigger] self.edges@[k]).follower_id
                    == follower_id && self.edges@[k].target_id == target_id),
    {
        let mut k: usize = 0;
        while k < self.edges.len()
            invariant
                k <= self.edges@.len(),
                forall|j: int|
                    0 <= j < k ==> !((#[trigger] self.edges@[j]).follower_id == follower_id
                        && self.edges@[j].target_id == target_id),
            decreases self.edges@.len() - k,
        {
            if self.edges[k].follower_id == follower_id && self.edges[k].target_id == target_id {
                return Some(k);
            }
            k = k + 1;
        }
        None
    }

    /// Makes the follower follow the target at time `now`: the edge of the
    /// pair is written, or overwritten if it exists. Both persons must exist.
    pub fn follow_at(&mut self, form: &PersonFollowerForm, now: i64) -> (r: Result<
        PersonFollower,
        PersonError,
    >)
        requires
            old(self).wf(),
        ensures
            final(self).wf(),
            Self::follow_spec(old(self), final(self), *form, now, r),
    {
        if self.index_of(form.person_id).is_none() || self.index_of(form.follower_id).is_none() {
            return Err(PersonError::NotFound);
        }
        let state = if form.pending {
            FollowState::Pending { followed: now }
        } else {
            FollowState::Accepted { followed: now }
        };
        let e = FollowEdge { follower_id: form.follower_id, target_id: form.person_id, state };
        match self.edge_index(form.follower_id, form.person_id) {
            Some(k) => {
                self.edges.set(k, e);
                proof {
                    let es = self.edges@;
                    let os = old(self).edges@;
                    assert forall|a: int, b: int| 0 <= a < b < es.len() implies !((
                    #[trigger] es[a]).follower_id == (#[trigger] es[b]).follower_id
                        && es[a].target_id == es[b].target_id) by {
                        if a != k && b != k {
                            assert(os[a] == es[a] && os[b] == es[b]);
                        } else if a == k {
                            assert(os[b] == es[b]);
                        } else {
                            assert(os[a] == es[a]);
                        }
                    }
                }
            },
            None => {
                self.edges.push(e);
            },
        }
        Ok(PersonFollower {
            person_id: form.person_id,
            follower_id: form.follower_id,
            published: now,
            pending: form.pending,
        })
    }

    /// Makes the follower follow the target, stamped with the current time.
    pub fn follow(&mut self, form: &PersonFollowerForm) -> (r: Result<
        PersonFollower,
        PersonError,
    >)
        requires
            old(self).wf(),
        ensures
            final(self).wf(),
            exists|t: i64| #[trigger] Self::follow_spec(old(self), final(self), *form, t, r),
    {
        let now = current_time();
        let r = self.follow_at(form, now);
        assert(Self::follow_spec(old(self), self, *form, now, r));
        r
    }

    /// The hook for a remote acceptance of a pending follow. No follow between
    /// persons waits for one, so there is never an edge to accept.
    pub fn follow_accepted(&self, community_id: i32, person_id: i32) -> (r: Result<
        PersonFollower,
        PersonError,
    >)
        ensures
            r == Err::<PersonFollower, PersonError>(PersonError::NotFound),
    {
        Err(PersonError::NotFound)
    }

    /// Ends the follow of the pair: the edge stays with its state cleared.
    /// Returns how many edges changed, 0 where the pair was not following.
    pub fn unfollow(&mut self, form: &PersonFollowerForm) -> (r: usize)
        requires
            old(self).wf(),
        ensures
            final(self).wf(),
            Self::unfollow_spec(old(self), final(self), *form, r),
    {
        match self.edge_index(form.follower_id, form.person_id) {
            Some(k) => {
                let e = self.edges[k];
                match e.state {
                    FollowState::NotFollowing => {
                        assert forall|j: int|
                            0 <= j < self.edges@.len() && same_pair(
                                #[trigger] self.edges@[j],
                                *form,
                            ) implies !self.edges@[j].state.is_following() by {
                            if j != k {
                                assert(!(self.edges@[j].follower_id
                                    == self.edges@[k as int].follower_id
                                    && self.edges@[j].target_id
                                    == self.edges@[k as int].target_id));
                            }
                        }
                        0
                    },
                    _ => {
                        let cleared = FollowEdge {
                            follower_id: e.follower_id,
                            target_id: e.target_id,
                            state: FollowState::NotFollowing,
                        };
                        self.edges.set(k, cleared);
                        proof {
                            let es = self.edges@;
                            let os = old(self).edges@;
                            assert forall|a: int, b: int| 0 <= a < b < es.len() implies !((
                            #[trigger] es[a]).follower_id == (#[trigger] es[b]).follower_id
                                && es[a].target_id == es[b].target_id) by {
                                assert(os[a].follower_id == es[a].follower_id
                                    && os[a].target_id == es[a].target_id);
                                assert(os[b].follower_id == es[b].follower_id
                                    && os[b].target_id == es[b].target_id);
                            }
                            assert(es == os.update(
                                k as int,
                                FollowEdge { state: FollowState::NotFollowing, ..os[k as int] },
                            ));
                        }
                        1
                    },
                }
            },
            None => 0,
        }
    }

    /// The persons that follow the target, in the order of their edges; a
    /// follower whose row was soft-deleted is listed too.
    pub fn list_followers(&self, for_person_id: i32) -> (r: Vec<Person>)
        requires
            self.wf(),
        ensures
            r@ == followers_of(self.edges@, self.persons@, for_person_id),
    {
        let mut out: Vec<Person> = Vec::new();
        let mut k: usize = 0;
        while k < self.edges.len()
            invariant
                self.wf(),
                k <= self.edges@.len(),
                out@ == followers_of(self.edges@.subrange(0, k as int), self.persons@, for_person_id),
            decreases self.edges@.len() - k,
        {
            let ghost pre = self.edges@.subrange(0, k as int);
            let ghost next = self.edges@.subrange(0, k as int + 1);
            assert(next.drop_last() =~= pre);
            let e = self.edges[k];
            let following = match e.state {
                FollowState::NotFollowing => false,
                _ => true,
            };
            if e.target_id == for_person_id && following {
                match self.index_of(e.follower_id) {
                    Some(i) => {
                        proof {
                            let ps = self.persons@;
                            let j = choose|j: int| 0 <= j < ps.len() && (#[trigger] ps[j]).id == e.follower_id;
                            if j != i {
                                if j < i {
                                    assert(ps[j].id != ps[i as int].id);
                                } else {
                                    assert(ps[i as int].id != ps[j].id);
                                }
                            }
                        }
                        out.push(copy_person(&self.persons[i]));
                    },
                    None => {},
                }
            }
            k = k + 1;
        }
        assert(self.edges@.subrange(0, self.edges@.len() as int) =~= self.edges@);
        out
    }

    /// What `delete` does: remove the row with the id and every edge that
    /// names it, and count the rows removed.
    pub open spec fn delete_spec(pre: &Self, post: &Self, id: i32, r: usize) -> bool {
        if has_id(pre.persons@, id) {
            &&& r == 1
            &&& exists|i: int|
                0 <= i < pre.persons@.len() && (#[trigger] pre.persons@[i]).id == id
                    && post.persons@ == pre.persons@.remove(i)
            &&& post.edges@ == pre.edges@.filter(|e: FollowEdge| edge_survives(e, id))
            &&& post.next_id == pre.next_id
            &&& post.local_users@ == pre.local_users@
            &&& post.instances@ == pre.instances@
            &&& post.communities@ == pre.communities@
            &&& post.posts@ == pre.posts@
            &&& post.comments@ == pre.comments@
        } else {
            r == 0 && post.same(pre)
        }
    }

    /// Removes the row with the id for good, with the edges that name it.
    /// Returns how many rows were removed.
    pub fn delete(&mut self, person_id: i32) -> (r: usize)
        requires
            old(self).wf(),
        ensures
            final(self).wf(),
            Self::delete_spec(old(self), final(self), person_id, r),
    {
        let i = match self.index_of(person_id) {
            Some(i) => i,
            None => return 0,
        };
        let _ = self.persons.remove(i);
        let ghost es = old(self).edges@;
        let mut kept: Vec<FollowEdge> = Vec::new();
        let mut k: usize = 0;
        while k < self.edges.len()
            invariant
                self.edges@ == es,
                k <= es.len(),
                kept@ == es.subrange(0, k as int).filter(|e: FollowEdge| edge_survives(e, person_id)),
                forall|a: int|
                    0 <= a < kept@.len() ==> exists|j: int|
                        0 <= j < k && #[trigger] kept@[a] == es[j] && (forall|b: int|
                            0 <= b < kept@.len() && b != a ==> #[trigger] kept@[b] != es[j]),
                forall|a: int, b: int|
                    0 <= a < b < kept@.len() ==> !((#[trigger] kept@[a]).follower_id
                        == (#[trigger] kept@[b]).follower_id && kept@[a].target_id
                        == kept@[b].target_id),
                forall|a: int, b: int|
                    0 <= a < b < es.len() ==> !((#[trigger] es[a]).follower_id
                        == (#[trigger] es[b]).follower_id && es[a].target_id == es[b].target_id),
            decreases es.len() - k,
        {
            let ghost pre = es.subrange(0, k as int);
            let ghost next = es.subrange(0, k as int + 1);
            assert(next.drop_last() =~= pre);
            reveal_with_fuel(Seq::filter, 1);
            let e = self.edges[k];
            if e.follower_id != person_id && e.target_id != person_id {
                proof {
                    assert forall|a: int| 0 <= a < kept@.len() implies !((#[trigger] kept@[a]).follower_id
                        == e.follower_id && kept@[a].target_id == e.target_id) by {
                        let j = choose|j: int| 0 <= j < k && #[trigger] kept@[a] == es[j] && (forall|b: int|
                            0 <= b < kept@.len() && b != a ==> #[trigger] kept@[b] != es[j]);
                        assert(es[j] == kept@[a]);
                    }
                }
                kept.push(e);
            }
            k = k + 1;
        }
        assert(es.subrange(0, es.len() as int) =~= es);
        self.edges = kept;
        1
    }
}


impl PersonStore {
    /// The instance with the domain, added under the next instance id if
    /// there is none.
    pub fn read_or_create_instance(&mut self, domain: &str) -> (r: Instance)
        requires
            old(self).instances@.len() < i32::MAX,
        ensures
            final(self).wf() == old(self).wf(),
            final(self).same_but_instances(old(self)),
            match find_domain(old(self).instances@, domain@) {
                Some(k) => r == old(self).instances@[k] && final(self).instances@ == old(
                    self,
                ).instances@,
                None => r.id == old(self).instances@.len() + 1 && r.domain@ == domain@
                    && final(self).instances@ == old(self).instances@.push(r),
            },
    {
        let mut k: usize = 0;
        while k < self.instances.len()
            invariant
                k <= self.instances@.len(),
                forall|j: int| 0 <= j < k ==> (#[trigger] self.instances@[j]).domain@ != domain@,
            decreases self.instances@.len() - k,
        {
            if str_eq(self.instances[k].domain.as_str(), domain) {
                assert(is_first_domain(self.instances@, domain@, k as int));
                let found = Instance { id: self.instances[k].id, domain: self.instances[k].domain.clone() };
                return found;
            }
            k = k + 1;
        }
        let id = self.instances.len() as i32 + 1;
        let made = Instance { id, domain: String::from_str(domain) };
        let kept = Instance { id, domain: made.domain.clone() };
        self.instances.push(kept);
        made
    }

    /// Adds the account record of a local person, under the next record id.
    pub fn add_local_user(&mut self, person_id: i32, email: Option<String>) -> (r: LocalUser)
        requires
            old(self).local_users@.len() < i32::MAX,
        ensures
            r == (LocalUser { id: (old(self).local_users@.len() + 1) as i32, person_id, email }),
            final(self).local_users@ == old(self).local_users@.push(r),
            final(self).persons@ == old(self).persons@,
            final(self).edges@ == old(self).edges@,
            final(self).instances@ == old(self).instances@,
            final(self).communities@ == old(self).communities@,
            final(self).posts@ == old(self).posts@,
            final(self).comments@ == old(self).comments@,
            final(self).next_id == old(self).next_id,
    {
        let id = self.local_users.len() as i32 + 1;
        let made = LocalUser { id, person_id, email: copy_opt(&email) };
        self.local_users.push(made);
        LocalUser { id, person_id, email }
    }

    /// The same tables apart from the instances.
    pub open spec fn same_but_instances(&self, o: &Self) -> bool {
        &&& self.persons@ == o.persons@
        &&& self.edges@ == o.edges@
        &&& self.local_users@ == o.local_users@
        &&& self.communities@ == o.communities@
        &&& self.posts@ == o.posts@
        &&& self.comments@ == o.comments@
        &&& self.next_id == o.next_id
    }
}

/// Whether position `k` holds the first instance with the domain.
pub open spec fn is_first_domain(instances: Seq<Instance>, domain: Seq<char>, k: int) -> bool {
    0 <= k < instances.len() && instances[k].domain@ == domain && forall|j: int|
        0 <= j < k ==> (#[trigger] instances[j]).domain@ != domain
}

/// The position of the first instance with the domain, if any.
pub open spec fn find_domain(instances: Seq<Instance>, domain: Seq<char>) -> Option<int> {
    if exists|k: int| is_first_domain(instances, domain, k) {
        Some(choose|k: int| is_first_domain(instances, domain, k))
    } else {
        None
    }
}

} // verus!
