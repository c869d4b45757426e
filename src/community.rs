use vstd::prelude::*;

use crate::source::{Comment, Community, Post};
use crate::store::PersonStore;

verus! {

/// Whether a community is local, not deleted and not removed.
pub open spec fn visible(c: Community) -> bool {
    c.local && !c.deleted && !c.removed
}

/// Whether some visible community has the id.
pub open spec fn visible_id(communities: Seq<Community>, cid: i32) -> bool {
    exists|k: int| 0 <= k < communities.len() && (#[trigger] communities[k]).id == cid && visible(
        communities[k],
    )
}

/// Whether the creator wrote the post or a comment on it.
pub open spec fn touches_post(comments: Seq<Comment>, creator: i32, p: Post) -> bool {
    p.creator_id == creator || exists|m: int|
        0 <= m < comments.len() && (#[trigger] comments[m]).creator_id == creator
            && comments[m].post_id == p.id
}

/// Whether the creator wrote a post in the community, or a comment on one.
pub open spec fn touches_community(
    posts: Seq<Post>,
    comments: Seq<Comment>,
    creator: i32,
    cid: i32,
) -> bool {
    exists|q: int|
        0 <= q < posts.len() && (#[trigger] posts[q]).community_id == cid && touches_post(
            comments,
            creator,
            posts[q],
        )
}

/// Whether a community id belongs in the creator's list: the community is
/// visible here and the creator posted or commented in it.
pub open spec fn listed_community(s: &PersonStore, creator: i32, cid: i32) -> bool {
    visible_id(s.communities@, cid) && touches_community(s.posts@, s.comments@, creator, cid)
}

/// Whether the vector holds the value.
fn holds(v: &Vec<i32>, x: i32) -> (r: bool)
    ensures
        r == v@.contains(x),
{
    let mut i: usize = 0;
    while i < v.len()
        invariant
            i <= v@.len(),
            forall|j: int| 0 <= j < i ==> v@[j] != x,
        decreases v@.len() - i,
    {
        if v[i] == x {
            return true;
        }
        i = i + 1;
    }
    false
}

impl PersonStore {
    /// Whether the creator wrote the post or a comment on it.
    fn post_touched(&self, creator: i32, p: Post) -> (r: bool)
        ensures
            r == touches_post(self.comments@, creator, p),
    {
        if p.creator_id == creator {
            return true;
        }
        let mut m: usize = 0;
        while m < self.comments.len()
            invariant
                m <= self.comments@.len(),
                forall|j: int|
                    0 <= j < m ==> !((#[trigger] self.comments@[j]).creator_id == creator
                        && self.comments@[j].post_id == p.id),
            decreases self.comments@.len() - m,
        {
            if self.comments[m].creator_id == creator && self.comments[m].post_id == p.id {
                return true;
            }
            m = m + 1;
        }
        false
    }

    /// Whether the creator wrote a post in the community, or a comment on one.
    fn community_touched(&self, creator: i32, cid: i32) -> (r: bool)
        ensures
            r == touches_community(self.posts@, self.comments@, creator, cid),
    {
        let mut q: usize = 0;
        while q < self.posts.len()
            invariant
                q <= self.posts@.len(),
                forall|j: int|
                    0 <= j < q ==> !((#[trigger] self.posts@[j]).community_id == cid
                        && touches_post(self.comments@, creator, self.posts@[j])),
            decreases self.posts@.len() - q,
        {
            let p = self.posts[q];
            if p.community_id == cid && self.post_touched(creator, p) {
                return true;
            }
            q = q + 1;
        }
        false
    }

    /// The ids of the visible communities in which the creator wrote a post or
    /// a comment, each once.
    pub fn list_local_community_ids(&self, for_creator_id: i32) -> (r: Vec<i32>)
        ensures
            r@.no_duplicates(),
            forall|cid: i32| r@.contains(cid) <==> listed_community(self, for_creator_id, cid),
    {
        let mut out: Vec<i32> = Vec::new();
        let mut k: usize = 0;
        while k < self.communities.len()
            invariant
                k <= self.communities@.len(),
                out@.no_duplicates(),
                forall|cid: i32|
                    out@.contains(cid) <==> (exists|j: int|
                        0 <= j < k && (#[trigger] self.communities@[j]).id == cid && visible(
                            self.communities@[j],
                        )) && touches_community(self.posts@, self.comments@, for_creator_id, cid),
            decreases self.communities@.len() - k,
        {
            let c = self.communities[k];
            let ghost before = out@;
            let vis = c.local && !c.deleted && !c.removed;
            let dup = if vis { holds(&out, c.id) } else { false };
            let touched = if vis && !dup { self.community_touched(for_creator_id, c.id) } else { false };
            if touched {
                out.push(c.id);
                proof {
                    assert forall|cid: i32| out@.contains(cid) <==> (before.contains(cid) || cid == c.id) by {
                        if out@.contains(cid) && cid != c.id {
                            let a = choose|a: int| 0 <= a < out@.len() && out@[a] == cid;
                            assert(before[a] == cid);
                        }
                        if before.contains(cid) {
                            let a = choose|a: int| 0 <= a < before.len() && before[a] == cid;
                            assert(out@[a] == cid);
                        }
                        if cid == c.id {
                            assert(out@[out@.len() - 1] == cid);
                        }
                    }
                }
            }
            proof {
                assert forall|cid: i32|
                    out@.contains(cid) <==> (exists|j: int|
                        0 <= j < k + 1 && (#[trigger] self.communities@[j]).id == cid && visible(
                            self.communities@[j],
                        )) && touches_community(self.posts@, self.comments@, for_creator_id, cid) by {
                    let now_vis = exists|j: int|
                        0 <= j < k + 1 && (#[trigger] self.communities@[j]).id == cid && visible(
                            self.communities@[j],
                        );
                    let was_vis = exists|j: int|
                        0 <= j < k && (#[trigger] self.communities@[j]).id == cid && visible(
                            self.communities@[j],
                        );
                    assert(now_vis <==> (was_vis || (cid == c.id && vis))) by {
                        if now_vis {
                            let j = choose|j: int|
                                0 <= j < k + 1 && (#[trigger] self.communities@[j]).id == cid
                                    && visible(self.communities@[j]);
                            if j < k {
                                assert(was_vis);
                            }
                        }
                        if cid == c.id && vis {
                            assert(self.communities@[k as int].id == cid);
                        }
                    }
                    let t = touches_community(self.posts@, self.comments@, for_creator_id, cid);
                    assert(before.contains(cid) <==> was_vis && t);
                    if !touched {
                        assert(out@ == before);
                    }
                    if cid == c.id && vis && !touched && !dup {
                        assert(!t);
                    }
                }
            }
            k = k + 1;
        }
        out
    }

    /// Adds a community.
    pub fn add_community(&mut self, c: Community)
        ensures
            final(self).communities@ == old(self).communities@.push(c),
            final(self).posts@ == old(self).posts@,
            final(self).comments@ == old(self).comments@,
            final(self).same_people(old(self)),
    {
        self.communities.push(c);
    }

    /// Adds a post.
    pub fn add_post(&mut self, p: Post)
        ensures
            final(self).posts@ == old(self).posts@.push(p),
            final(self).communities@ == old(self).communities@,
            final(self).comments@ == old(self).comments@,
            final(self).same_people(old(self)),
    {
        self.posts.push(p);
    }

    /// Adds a comment.
    pub fn add_comment(&mut self, c: Comment)
        ensures
            final(self).comments@ == old(self).comments@.push(c),
            final(self).communities@ == old(self).communities@,
            final(self).posts@ == old(self).posts@,
            final(self).same_people(old(self)),
    {
        self.comments.push(c);
    }
}

} // verus!
