//! The post store: one table of posts with insert, list and fetch-by-id.

use vstd::prelude::*;

use crate::post::Post;
use crate::post::PostView;

verus! {

/// Mathematical model of the store: the posts in insertion order, and the
/// id that the next insert will assign.
pub struct StoreView {
    pub posts: Seq<PostView>,
    pub next_id: u32,
}

impl StoreView {
    /// Well-formedness: ids start at 1, every stored id is below `next_id`
    /// (so the next assigned id is fresh), and ids strictly increase in
    /// insertion order (so ids are unique and stable once assigned).
    pub open spec fn wf(self) -> bool {
        &&& 1 <= self.next_id
        &&& forall|i: int|
            0 <= i < self.posts.len() ==> 1 <= (#[trigger] self.posts[i]).id < self.next_id
        &&& forall|i: int, j: int|
            0 <= i < j < self.posts.len() ==> self.posts[i].id < self.posts[j].id
    }
}

/// True when some stored post carries the given id.
pub open spec fn has_post_id(posts: Seq<PostView>, id: u32) -> bool {
    exists|i: int| 0 <= i < posts.len() && (#[trigger] posts[i]).id == id
}

/// How many stored posts carry the given id.
pub open spec fn count_with_id(posts: Seq<PostView>, id: u32) -> nat
    decreases posts.len(),
{
    if posts.len() == 0 {
        0
    } else {
        count_with_id(posts.drop_last(), id) + if posts.last().id == id {
            1nat
        } else {
            0nat
        }
    }
}

/// The error a fetch reports when no stored post carries the requested id.
#[derive(Clone, Copy, Debug, PartialEq, Eq)]
pub enum PostError {
    NotFound,
}

/// The single-table post store. Posts are appended once and never mutated
/// or removed; the store assigns each one a unique id.
pub struct PostStore {
    posts: Vec<Post>,
    next_id: u32,
}

impl View for PostStore {
    type V = StoreView;

    closed spec fn view(&self) -> StoreView {
        StoreView { posts: self.posts@.map_values(|p: Post| p@), next_id: self.next_id }
    }
}

impl PostStore {
    /// Creates an empty store; the first insert will assign id 1.
    pub fn new() -> (s: Self)
        ensures
            s@.wf(),
            s@.posts == Seq::<PostView>::empty(),
            s@.next_id == 1,
    {
        let s = PostStore { posts: Vec::new(), next_id: 1 };
        proof {
            assert(s@.posts =~= Seq::<PostView>::empty());
        }
        s
    }

    /// True when the store still has a free id to assign to an insert.
    pub fn has_free_id(&self) -> (r: bool)
        ensures
            r == (self@.next_id < u32::MAX),
    {
        self.next_id < u32::MAX
    }

    /// Appends a new post row; the store assigns it the next free id.
    pub fn insert_post(&mut self, title: String, date: String, desc: String, content: String)
        requires
            old(self)@.wf(),
            old(self)@.next_id < u32::MAX,
        ensures
            final(self)@.wf(),
            final(self)@.posts == old(self)@.posts.push(
                PostView {
                    id: old(self)@.next_id,
                    title: title@,
                    date: date@,
                    desc: desc@,
                    content: content@,
                },
            ),
            final(self)@.next_id == old(self)@.next_id + 1,
    {
        let id = self.next_id;
        let post = Post { id, title, date, desc, content };
        self.posts.push(post);
        self.next_id = id + 1;
        proof {
            assert(self@.posts =~= old(self)@.posts.push(
                PostView {
                    id: old(self)@.next_id,
                    title: title@,
                    date: date@,
                    desc: desc@,
                    content: content@,
                },
            ));
        }
    }

    /// Returns all posts, in insertion order.
    pub fn get_posts(&self) -> (r: Vec<Post>)
        ensures
            r@.map_values(|p: Post| p@) == self@.posts,
    {
        let mut out: Vec<Post> = Vec::new();
        let mut i: usize = 0;
        while i < self.posts.len()
            invariant
                i <= self.posts.len(),
                out@.len() == i,
                forall|k: int| 0 <= k < i ==> (#[trigger] out@[k])@ == self@.posts[k],
            decreases self.posts.len() - i,
        {
            out.push(self.posts[i].clone());
            i = i + 1;
        }
        proof {
            assert(out@.map_values(|p: Post| p@) =~= self@.posts);
        }
        out
    }

    /// Returns the post with the matching id, or reports that no stored
    /// post carries it.
    pub fn get_post_by_id(&self, post_id: u32) -> (r: Result<Post, PostError>)
        ensures
            r is Ok <==> has_post_id(self@.posts, post_id),
            r matches Ok(p) ==> p@.id == post_id && self@.posts.contains(p@),
            r matches Err(e) ==> e == PostError::NotFound,
    {
        let mut i: usize = 0;
        while i < self.posts.len()
            invariant
                i <= self.posts.len(),
                forall|k: int| 0 <= k < i ==> (#[trigger] self@.posts[k]).id != post_id,
            decreases self.posts.len() - i,
        {
            if self.posts[i].id == post_id {
                let p = self.posts[i].clone();
                proof {
                    assert(self@.posts[i as int] == p@);
                    assert(self@.posts.contains(p@));
                }
                return Ok(p);
            }
            i = i + 1;
        }
        Err(PostError::NotFound)
    }
}

/// A sequence in which no post carries `id` counts `id` zero times.
proof fn lemma_count_zero(posts: Seq<PostView>, id: u32)
    requires
        forall|i: int| 0 <= i < posts.len() ==> (#[trigger] posts[i]).id != id,
    ensures
        count_with_id(posts, id) == 0,
    decreases posts.len(),
{
    if posts.len() > 0 {
        lemma_count_zero(posts.drop_last(), id);
    }
}

/// Law: inserting a post and then listing the posts includes the new post
/// exactly once. A well-formed store holds no post with the id the insert
/// assigns, so the sequence the insert leaves behind — which is what a
/// listing returns — carries that id exactly once.
pub proof fn lemma_insert_then_list_once(s: StoreView, p: PostView)
    requires
        s.wf(),
        p.id == s.next_id,
    ensures
        s.posts.push(p).contains(p),
        count_with_id(s.posts.push(p), p.id) == 1,
{
    lemma_count_zero(s.posts, p.id);
    assert(s.posts.push(p).drop_last() =~= s.posts);
    assert(s.posts.push(p).last() == p);
}

/// Law: ids are unique in a well-formed store, so the post a fetch returns
/// is the single stored record carrying the requested id.
pub proof fn lemma_id_unique(s: StoreView, i: int, j: int)
    requires
        s.wf(),
        0 <= i < s.posts.len(),
        0 <= j < s.posts.len(),
        s.posts[i].id == s.posts[j].id,
    ensures
        i == j,
{
    if i < j {
        assert(s.posts[i].id < s.posts[j].id);
    }
    if j < i {
        assert(s.posts[j].id < s.posts[i].id);
    }
}

/// Law: listing is stable. Two listings of the same store state return
/// sequences with the same posts in the same order.
pub proof fn lemma_list_stable(s: StoreView, a: Seq<Post>, b: Seq<Post>)
    requires
        a.map_values(|p: Post| p@) == s.posts,
        b.map_values(|p: Post| p@) == s.posts,
    ensures
        a.map_values(|p: Post| p@) == b.map_values(|p: Post| p@),
{
}

} // verus!
