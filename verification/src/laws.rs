//! General laws of the store, stated over the sequence model that the
//! operations' contracts use and proved once for all inputs.

use vstd::prelude::*;

use crate::post::PostView;
use crate::store::created_post;
use crate::store::has_post;
use crate::store::lookup;
use crate::store::next_id;
use crate::store::wf_table;
use crate::store::with_created;

verus! {

/// For every title and body, inserting into a well-formed table and then
/// fetching the id the insert returned yields exactly the inserted row:
/// matching title and body, poster 0.
pub proof fn lemma_create_then_get(s: Seq<PostView>, title: Seq<char>, body: Seq<char>)
    requires
        wf_table(s),
    ensures
        wf_table(with_created(s, title, body)),
        lookup(with_created(s, title, body), next_id(s)) == Some(created_post(s, title, body)),
        created_post(s, title, body).poster == 0,
        created_post(s, title, body).title == title,
        created_post(s, title, body).body == body,
{
    crate::store::lemma_create_preserves_wf(s, title, body);
    let s2 = with_created(s, title, body);
    assert(s2[next_id(s) - 1] == created_post(s, title, body));
}

/// Fetching an id that no row of a well-formed table carries yields absent,
/// never an error and never a row.
pub proof fn lemma_get_absent(s: Seq<PostView>, id: int)
    requires
        wf_table(s),
        !has_post(s, id),
    ensures
        lookup(s, id) is None,
{
    crate::store::lemma_has_post_in_range(s, id);
}

/// The table grown from an empty one by one insert per pair, in order:
/// pair `i` gives the title and body of the `i`-th insert.
pub open spec fn with_all_created(pairs: Seq<(Seq<char>, Seq<char>)>) -> Seq<PostView>
    decreases pairs.len(),
{
    if pairs.len() == 0 {
        Seq::empty()
    } else {
        with_created(with_all_created(pairs.drop_last()), pairs.last().0, pairs.last().1)
    }
}

/// After `n` inserts on an empty table the count is exactly `n`, the table
/// is well-formed, and row `i` holds pair `i`'s title and body, poster 0 and
/// id `i + 1` — every row matches the insert that made it, and nothing else
/// is in the table.
pub proof fn lemma_all_created(pairs: Seq<(Seq<char>, Seq<char>)>)
    ensures
        with_all_created(pairs).len() == pairs.len(),
        wf_table(with_all_created(pairs)),
        forall|i: int|
            0 <= i < pairs.len() ==> {
                &&& (#[trigger] with_all_created(pairs)[i]).id == i + 1
                &&& with_all_created(pairs)[i].poster == 0
                &&& with_all_created(pairs)[i].title == pairs[i].0
                &&& with_all_created(pairs)[i].body == pairs[i].1
            },
    decreases pairs.len(),
{
    if pairs.len() == 0 {
    } else {
        let rest = pairs.drop_last();
        lemma_all_created(rest);
        crate::store::lemma_create_preserves_wf(
            with_all_created(rest),
            pairs.last().0,
            pairs.last().1,
        );
        assert forall|i: int| 0 <= i < pairs.len() implies {
            &&& (#[trigger] with_all_created(pairs)[i]).id == i + 1
            &&& with_all_created(pairs)[i].poster == 0
            &&& with_all_created(pairs)[i].title == pairs[i].0
            &&& with_all_created(pairs)[i].body == pairs[i].1
        } by {
            if i < pairs.len() - 1 {
                assert(with_all_created(pairs)[i] == with_all_created(rest)[i]);
                assert(rest[i] == pairs[i]);
            } else {
                assert(with_all_created(pairs)[i] == created_post(
                    with_all_created(rest),
                    pairs.last().0,
                    pairs.last().1,
                ));
            }
        }
    }
}

} // verus!
