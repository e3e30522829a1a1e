//! The post table and its operations: fetch-by-id, count, fetch-all, insert.
//!
//! The table is modelled as a sequence of `PostView` rows. Ids are assigned
//! by the store itself, counting up from 1, so a well-formed table keeps the
//! row with id `i + 1` at position `i`.

use vstd::prelude::*;

use crate::post::Post;
use crate::post::PostView;

verus! {

/// The id the store assigns to the next inserted row: one past the ids
/// already handed out, starting from 1 on an empty table.
pub open spec fn next_id(s: Seq<PostView>) -> int {
    s.len() as int + 1
}

/// The row that inserting `title` and `body` into table `s` produces:
/// the next free id, poster 0, and the given text.
pub open spec fn created_post(s: Seq<PostView>, title: Seq<char>, body: Seq<char>) -> PostView {
    PostView { id: next_id(s), poster: 0, title: title, body: body }
}

/// The table after inserting `title` and `body` into `s`.
pub open spec fn with_created(s: Seq<PostView>, title: Seq<char>, body: Seq<char>) -> Seq<
    PostView,
> {
    s.push(created_post(s, title, body))
}

/// Whether some row of `s` carries the id `id`.
pub open spec fn has_post(s: Seq<PostView>, id: int) -> bool {
    exists|i: int| 0 <= i < s.len() && #[trigger] s[i].id == id
}

/// What fetching `id` from a well-formed table returns: the row at position
/// `id - 1` when there is one, absent otherwise.
pub open spec fn lookup(s: Seq<PostView>, id: int) -> Option<PostView> {
    if 1 <= id <= s.len() {
        Some(s[id - 1])
    } else {
        None
    }
}

/// Every row sits at the position its id names: row `i` carries id `i + 1`.
/// This is how a table that only ever grew through `create` looks.
pub open spec fn wf_table(s: Seq<PostView>) -> bool {
    forall|i: int| 0 <= i < s.len() ==> (#[trigger] s[i]).id == i + 1
}

/// In a well-formed table an id is present exactly when it lies between 1
/// and the number of rows.
pub proof fn lemma_has_post_in_range(s: Seq<PostView>, id: int)
    requires
        wf_table(s),
    ensures
        has_post(s, id) <==> 1 <= id <= s.len(),
{
    if 1 <= id <= s.len() {
        assert(s[id - 1].id == id);
    }
}

/// Inserting into a well-formed table keeps it well-formed.
pub proof fn lemma_create_preserves_wf(s: Seq<PostView>, title: Seq<char>, body: Seq<char>)
    requires
        wf_table(s),
    ensures
        wf_table(with_created(s, title, body)),
{
    let s2 = with_created(s, title, body);
    assert forall|i: int| 0 <= i < s2.len() implies (#[trigger] s2[i]).id == i + 1 by {
        if i < s.len() {
            assert(s2[i] == s[i]);
        } else {
            assert(s2[i] == created_post(s, title, body));
        }
    }
}

/// The post table: rows with store-assigned ids, never updated or deleted.
pub struct Store {
    posts: Vec<Post>,
}

impl View for Store {
    type V = Seq<PostView>;

    closed spec fn view(&self) -> Seq<PostView> {
        self.posts@.map_values(|p: Post| p@)
    }
}

impl Store {
    /// The table keeps each row at the position its id names.
    pub open spec fn wf(&self) -> bool {
        wf_table(self@)
    }

    /// An empty table: no rows, ready to assign id 1 first.
    pub fn new() -> (s: Store)
        ensures
            s@ == Seq::<PostView>::empty(),
            s.wf(),
    {
        let s = Store { posts: Vec::new() };
        proof {
            assert(s@ =~= Seq::<PostView>::empty());
        }
        s
    }
}

impl Post {
    /// Insert a new row with poster 0 and the given title and body; the
    /// store assigns the next free id and returns it.
    pub fn create(store: &mut Store, title: String, body: String) -> (id: i64)
        requires
            old(store).wf(),
            old(store)@.len() < i64::MAX,
        ensures
            final(store).wf(),
            final(store)@ == with_created(old(store)@, title@, body@),
            id == next_id(old(store)@),
    {
        let ghost t = title@;
        let ghost b = body@;
        let id = store.posts.len() as i64 + 1;
        let post = Post { id, poster: 0, title, body };
        proof {
            assert(post@ == created_post(old(store)@, t, b));
        }
        store.posts.push(post);
        proof {
            assert(store@ =~= with_created(old(store)@, t, b));
            lemma_create_preserves_wf(old(store)@, t, b);
        }
        id
    }

    /// Fetch the single row whose primary key equals `id`. Absent means no
    /// row carries that id; no other failure can arise here.
    pub fn get(store: &Store, id: i64) -> (r: Option<Post>)
        requires
            store.wf(),
        ensures
            match r {
                Some(p) => lookup(store@, id as int) == Some(p@),
                None => lookup(store@, id as int) is None,
            },
    {
        let n = store.posts.len();
        let mut i: usize = 0;
        while i < n
            invariant
                store.wf(),
                n == store@.len(),
                0 <= i <= n,
                forall|j: int| 0 <= j < i ==> (#[trigger] store@[j]).id != id as int,
            decreases n - i,
        {
            if store.posts[i].id == id {
                let found = store.posts[i].clone();
                proof {
                    assert(store@[i as int].id == i + 1);
                }
                return Some(found);
            }
            i += 1;
        }
        proof {
            lemma_has_post_in_range(store@, id as int);
        }
        None
    }

    /// The number of rows in the table.
    pub fn count(store: &Store) -> (n: i64)
        requires
            store.wf(),
        ensures
            n == store@.len(),
    {
        proof {
            if store@.len() > 0 {
                let last = store@.len() - 1;
                assert(store@[last].id == last + 1);
                assert(store@[last].id == store.posts@[last].id as int);
            }
        }
        store.posts.len() as i64
    }

    /// Every row of the table, in table order.
    pub fn all(store: &Store) -> (r: Vec<Post>)
        ensures
            r@.map_values(|p: Post| p@) == store@,
    {
        let n = store.posts.len();
        let mut out: Vec<Post> = Vec::new();
        let mut i: usize = 0;
        while i < n
            invariant
                n == store@.len(),
                n == store.posts@.len(),
                0 <= i <= n,
                out@.len() == i,
                forall|j: int| 0 <= j < i ==> (#[trigger] out@[j])@ == store@[j],
            decreases n - i,
        {
            let next = store.posts[i].clone();
            proof {
                assert(next@ == store@[i as int]);
            }
            out.push(next);
            i += 1;
        }
        proof {
            assert(out@.map_values(|p: Post| p@) =~= store@);
        }
        out
    }
}

} // verus!
