use vstd::prelude::*;

use crate::error::PersonError;
use crate::lookup::{local_name_taken, name_match};
use crate::text::same_name;
use crate::source::{Person, PersonFollower, PersonFollowerForm, PersonInsertForm};
use crate::store::{
    edge_of, form_ap_id, has_ap_id, has_id, has_live_id, has_pair, same_pair, PersonStore,
};

verus! {

/// A person that `create` inserts with a free external identifier is, for
/// its id, exactly what `read` then returns, unless its form asked for a
/// deleted row.
pub proof fn create_then_read(
    pre: PersonStore,
    post: PersonStore,
    form: PersonInsertForm,
    now: i64,
    r: Result<Person, PersonError>,
    read: Result<Person, PersonError>,
)
    requires
        pre.wf(),
        post.wf(),
        !has_ap_id(pre.persons@, form_ap_id(form)),
        form.deleted != Some(true),
        PersonStore::create_spec(&pre, &post, form, now, r),
        r is Ok ==> post.read_spec(r->Ok_0.id, read),
    ensures
        r is Ok,
        read == r,
        !r->Ok_0.deleted,
{
    let p = r->Ok_0;
    let n = pre.persons@.len() as int;
    assert(post.persons@[n] == p);
    match read {
        Ok(q) => {
            let i = choose|i: int| 0 <= i < post.persons@.len() && post.persons@[i] == q;
            if i != n {
                assert(post.persons@[i].id != post.persons@[n].id);
            }
        },
        Err(_) => {
            assert(has_live_id(post.persons@, p.id));
        },
    }
}

/// `read` of a soft-deleted person fails with `NotFound`, while a lookup by
/// local name that includes deleted rows still finds a person of that name.
pub proof fn read_skips_deleted(
    s: PersonStore,
    i: int,
    read: Result<Person, PersonError>,
    by_name: Option<Person>,
)
    requires
        s.wf(),
        0 <= i < s.persons@.len(),
        s.persons@[i].deleted,
        s.persons@[i].local,
        s.read_spec(s.persons@[i].id, read),
        s.read_from_name_spec(s.persons@[i].name@, true, by_name),
    ensures
        read == Err::<Person, PersonError>(PersonError::NotFound),
        by_name is Some,
{
    if read is Ok {
        let q = read->Ok_0;
        let j = choose|j: int| 0 <= j < s.persons@.len() && s.persons@[j] == q;
        if j < i {
            assert(s.persons@[j].id != s.persons@[i].id);
        } else if i < j {
            assert(s.persons@[i].id != s.persons@[j].id);
        }
    }
    if by_name is None {
        assert(name_match(s.persons@[i], s.persons@[i].name@, true));
    }
}

/// After `delete_account` of an existing person, `read` of its id fails, and
/// its row is still stored with the cleared fields and the deleted mark.
pub proof fn delete_account_then_read(
    pre: PersonStore,
    post: PersonStore,
    id: i32,
    now: i64,
    r: Result<Person, PersonError>,
    read: Result<Person, PersonError>,
)
    requires
        pre.wf(),
        post.wf(),
        has_id(pre.persons@, id),
        PersonStore::delete_account_spec(&pre, &post, id, now, r),
        post.read_spec(id, read),
    ensures
        read == Err::<Person, PersonError>(PersonError::NotFound),
        r is Ok,
        post.persons@.contains(r->Ok_0),
        r->Ok_0.id == id,
        r->Ok_0.display_name is None,
        r->Ok_0.avatar is None,
        r->Ok_0.banner is None,
        r->Ok_0.bio is None,
        r->Ok_0.matrix_user_id is None,
        r->Ok_0.deleted,
{
    let i = choose|i: int|
        0 <= i < pre.persons@.len() && (#[trigger] pre.persons@[i]).id == id && post.persons@
            == pre.persons@.update(i, crate::store::scrubbed(pre.persons@[i], now)) && r == Ok::<
            Person,
            PersonError,
        >(crate::store::scrubbed(pre.persons@[i], now));
    assert(post.persons@[i] == r->Ok_0);
    if read is Ok {
        let q = read->Ok_0;
        let j = choose|j: int| 0 <= j < post.persons@.len() && post.persons@[j] == q;
        if j < i {
            assert(post.persons@[j].id != post.persons@[i].id);
        } else if i < j {
            assert(post.persons@[i].id != post.persons@[j].id);
        }
    }
}

/// Following twice with the same request leaves one edge for the pair: the
/// second call only rewrites that edge, with its own timestamp, and leaves
/// everything as it was where the first call failed.
pub proof fn follow_twice(
    s0: PersonStore,
    s1: PersonStore,
    s2: PersonStore,
    form: PersonFollowerForm,
    t1: i64,
    t2: i64,
    r1: Result<PersonFollower, PersonError>,
    r2: Result<PersonFollower, PersonError>,
)
    requires
        s1.wf(),
        PersonStore::follow_spec(&s0, &s1, form, t1, r1),
        PersonStore::follow_spec(&s1, &s2, form, t2, r2),
    ensures
        s2.same_but_edges(&s1),
        s2.edges@.len() == s1.edges@.len(),
        r1 is Err ==> s2.same(&s1) && r2 == r1,
        r1 is Ok ==> forall|k: int|
            0 <= k < s1.edges@.len() ==> s2.edges@[k] == if same_pair(
                #[trigger] s1.edges@[k],
                form,
            ) {
                edge_of(form, t2)
            } else {
                s1.edges@[k]
            },
        t1 == t2 ==> s2.edges@ == s1.edges@,
{
    if r1 is Ok {
        if has_pair(s0.edges@, form) {
            let k = choose|k: int|
                0 <= k < s0.edges@.len() && same_pair(#[trigger] s0.edges@[k], form)
                    && s1.edges@ == s0.edges@.update(k, edge_of(form, t1));
            assert(same_pair(s1.edges@[k], form));
        } else {
            assert(same_pair(s1.edges@[s0.edges@.len() as int], form));
        }
        assert(has_pair(s1.edges@, form));
        let k = choose|k: int|
            0 <= k < s1.edges@.len() && same_pair(#[trigger] s1.edges@[k], form)
                && s2.edges@ == s1.edges@.update(k, edge_of(form, t2));
        assert forall|j: int| 0 <= j < s1.edges@.len() implies s2.edges@[j] == if same_pair(
            #[trigger] s1.edges@[j],
            form,
        ) {
            edge_of(form, t2)
        } else {
            s1.edges@[j]
        } by {
            if j != k && same_pair(s1.edges@[j], form) {
                if j < k {
                    assert(!(s1.edges@[j].follower_id == s1.edges@[k].follower_id
                        && s1.edges@[j].target_id == s1.edges@[k].target_id));
                } else {
                    assert(!(s1.edges@[k].follower_id == s1.edges@[j].follower_id
                        && s1.edges@[k].target_id == s1.edges@[j].target_id));
                }
            }
        }
        if t1 == t2 {
            assert(s2.edges@ =~= s1.edges@);
        }
    }
}

/// `unfollow` of a pair that has no edge changes nothing and counts 0.
pub proof fn unfollow_without_edge(
    pre: PersonStore,
    post: PersonStore,
    form: PersonFollowerForm,
    r: usize,
)
    requires
        !has_pair(pre.edges@, form),
        PersonStore::unfollow_spec(&pre, &post, form, r),
    ensures
        r == 0,
        post.same(&pre),
{
}

/// Two upserts under one external identifier leave exactly one row with it,
/// and where the second form names a display name, the row has that one.
pub proof fn upsert_twice(
    s0: PersonStore,
    s1: PersonStore,
    s2: PersonStore,
    f1: PersonInsertForm,
    f2: PersonInsertForm,
    t1: i64,
    t2: i64,
    r1: Result<Person, PersonError>,
    r2: Result<Person, PersonError>,
)
    requires
        s2.wf(),
        form_ap_id(f1) == form_ap_id(f2),
        f2.display_name is Some,
        PersonStore::upsert_spec(&s0, &s1, f1, t1, r1),
        PersonStore::upsert_spec(&s1, &s2, f2, t2, r2),
    ensures
        r2 is Ok,
        r2->Ok_0.display_name == f2.display_name,
        exists|i: int|
            0 <= i < s2.persons@.len() && (#[trigger] s2.persons@[i]).ap_id@ == form_ap_id(f2)
                && s2.persons@[i] == r2->Ok_0,
        forall|i: int, j: int|
            0 <= i < s2.persons@.len() && 0 <= j < s2.persons@.len() && (#[trigger] s2.persons@[
                i
            ]).ap_id@ == form_ap_id(f2) && (#[trigger] s2.persons@[j]).ap_id@ == form_ap_id(f2)
                ==> i == j,
{
    let ap = form_ap_id(f2);
    if has_ap_id(s0.persons@, ap) {
        let i = choose|i: int|
            0 <= i < s0.persons@.len() && (#[trigger] s0.persons@[i]).ap_id@ == form_ap_id(f1)
                && s1.persons@ == s0.persons@.update(i, crate::store::overwrite(s0.persons@[i], f1))
                && r1 == Ok::<Person, PersonError>(crate::store::overwrite(s0.persons@[i], f1));
        assert(s1.persons@[i].ap_id@ == ap);
    } else {
        assert(s1.persons@[s0.persons@.len() as int].ap_id@ == ap);
    }
    assert(has_ap_id(s1.persons@, ap));
    let i = choose|i: int|
        0 <= i < s1.persons@.len() && (#[trigger] s1.persons@[i]).ap_id@ == form_ap_id(f2)
            && s2.persons@ == s1.persons@.update(i, crate::store::overwrite(s1.persons@[i], f2))
            && r2 == Ok::<Person, PersonError>(crate::store::overwrite(s1.persons@[i], f2));
    assert(s2.persons@[i] == r2->Ok_0);
    assert forall|a: int, b: int|
        0 <= a < s2.persons@.len() && 0 <= b < s2.persons@.len() && (#[trigger] s2.persons@[
            a
        ]).ap_id@ == ap && (#[trigger] s2.persons@[b]).ap_id@ == ap implies a == b by {
        if a < b {
            assert(s2.persons@[a].ap_id@ != s2.persons@[b].ap_id@);
        } else if b < a {
            assert(s2.persons@[b].ap_id@ != s2.persons@[a].ap_id@);
        }
    }
}

/// Once `create` has inserted a local person, every name that equals its
/// name case-insensitively counts as taken.
pub proof fn create_takes_name(
    pre: PersonStore,
    post: PersonStore,
    form: PersonInsertForm,
    now: i64,
    r: Result<Person, PersonError>,
    name: Seq<char>,
)
    requires
        PersonStore::create_spec(&pre, &post, form, now, r),
        r is Ok,
        form.local != Some(false),
        same_name(form.name@, name),
    ensures
        local_name_taken(post.persons@, name),
{
    assert(post.persons@[pre.persons@.len() as int] == r->Ok_0);
}

} // verus!
