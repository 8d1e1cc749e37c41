//! The blog post record and its mathematical model.

use vstd::prelude::*;

verus! {

/// Mathematical model of a blog post: the id and the four text fields
/// as sequences of characters.
pub struct PostView {
    pub id: u32,
    pub title: Seq<char>,
    pub date: Seq<char>,
    pub desc: Seq<char>,
    pub content: Seq<char>,
}

/// A blog post: a store-assigned id, a title, a display-formatted date,
/// a short description, and the content body.
#[derive(Debug, PartialEq, Eq)]
pub struct Post {
    pub id: u32,
    pub title: String,
    pub date: String,
    pub desc: String,
    pub content: String,
}

impl View for Post {
    type V = PostView;

    open spec fn view(&self) -> PostView {
        PostView {
            id: self.id,
            title: self.title@,
            date: self.date@,
            desc: self.desc@,
            content: self.content@,
        }
    }
}

impl Clone for Post {
    fn clone(&self) -> (r: Self)
        ensures
            r@ == self@,
    {
        Post {
            id: self.id,
            title: self.title.clone(),
            date: self.date.clone(),
            desc: self.desc.clone(),
            content: self.content.clone(),
        }
    }
}

} // verus!
