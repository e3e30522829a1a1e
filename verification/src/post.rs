//! The `Post` entity: the one kind of record the store manages.

use vstd::prelude::*;

verus! {

/// A single blog post. `id` is assigned by the store on insert; `poster`
/// identifies the authoring user and is always written as 0 by the current
/// insert path, since no user system exists.
pub struct Post {
    pub id: i64,
    pub poster: i64,
    pub title: String,
    pub body: String,
}

/// The mathematical image of a `Post`: its fields as unbounded integers and
/// character sequences.
pub ghost struct PostView {
    pub id: int,
    pub poster: int,
    pub title: Seq<char>,
    pub body: Seq<char>,
}

impl View for Post {
    type V = PostView;

    open spec fn view(&self) -> PostView {
        PostView {
            id: self.id as int,
            poster: self.poster as int,
            title: self.title@,
            body: self.body@,
        }
    }
}

impl Clone for Post {
    fn clone(&self) -> (r: Self)
        ensures
            r@ == self@,
    {
        Post {
            id: self.id,
            poster: self.poster,
            title: self.title.clone(),
            body: self.body.clone(),
        }
    }
}

} // verus!
