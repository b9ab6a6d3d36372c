//! The abstract item list shared by the task and todo models: a sequence
//! of (id, text, completed) entries in display order.

use vstd::prelude::*;

verus! {

/// One list entry: id, text and completion flag.
pub type Entry = (u32, Seq<char>, bool);

/// Some entry carries `id`.
pub open spec fn has_id(s: Seq<Entry>, id: u32) -> bool {
    exists|k: int| 0 <= k < s.len() && #[trigger] s[k].0 == id
}

/// `k` is the position of the first entry carrying `id`.
pub open spec fn is_first_with_id(s: Seq<Entry>, id: u32, k: int) -> bool {
    &&& 0 <= k < s.len()
    &&& s[k].0 == id
    &&& forall|j: int| 0 <= j < k ==> #[trigger] s[j].0 != id
}

/// Position of the first entry carrying `id` (meaningful when `has_id`).
pub open spec fn first_with_id(s: Seq<Entry>, id: u32) -> int {
    choose|k: int| is_first_with_id(s, id, k)
}

/// An entry with its completion flag inverted.
pub open spec fn flipped(e: Entry) -> Entry {
    (e.0, e.1, !e.2)
}

/// The list with the first entry carrying `id` flipped, if there is one.
pub open spec fn toggled(s: Seq<Entry>, id: u32) -> Seq<Entry> {
    if has_id(s, id) {
        let k = first_with_id(s, id);
        s.update(k, flipped(s[k]))
    } else {
        s
    }
}

/// Keeps the entries whose id is not `id`.
pub open spec fn keeps(id: u32) -> spec_fn(Entry) -> bool {
    |e: Entry| e.0 != id
}

/// The list without the entries carrying `id`, the others in their order.
pub open spec fn without_id(s: Seq<Entry>, id: u32) -> Seq<Entry> {
    s.filter(keeps(id))
}

/// A first position with `id` is the one `first_with_id` picks.
pub proof fn lemma_first_with_id(s: Seq<Entry>, id: u32, k: int)
    requires
        is_first_with_id(s, id, k),
    ensures
        has_id(s, id),
        first_with_id(s, id) == k,
{
    assert(s[k].0 == id);
    let c = first_with_id(s, id);
    assert(is_first_with_id(s, id, c));
    if c < k {
        assert(s[c].0 != id);
    } else if k < c {
        assert(s[k].0 != id);
    }
}

/// When some entry carries `id`, a first one does.
pub proof fn lemma_has_first(s: Seq<Entry>, id: u32, k: int)
    requires
        0 <= k < s.len(),
        s[k].0 == id,
    ensures
        is_first_with_id(s, id, first_with_id(s, id)),
    decreases k,
{
    if exists|j: int| 0 <= j < k && #[trigger] s[j].0 == id {
        let j = choose|j: int| 0 <= j < k && #[trigger] s[j].0 == id;
        lemma_has_first(s, id, j);
    } else {
        assert(is_first_with_id(s, id, k));
    }
}

/// Toggling the same id twice gives back the list.
pub proof fn lemma_toggle_twice(s: Seq<Entry>, id: u32)
    ensures
        toggled(toggled(s, id), id) == s,
{
    if has_id(s, id) {
        let w = choose|k: int| 0 <= k < s.len() && #[trigger] s[k].0 == id;
        lemma_has_first(s, id, w);
        let k = first_with_id(s, id);
        let t = toggled(s, id);
        assert(is_first_with_id(t, id, k));
        lemma_first_with_id(t, id, k);
        assert(t.update(k, flipped(t[k])) =~= s);
    }
}

/// Toggling keeps the length, the ids and the texts of the entries.
pub proof fn lemma_toggle_keeps_ids(s: Seq<Entry>, id: u32)
    ensures
        toggled(s, id).len() == s.len(),
        forall|i: int|
            0 <= i < s.len() ==> (#[trigger] toggled(s, id)[i]).0 == s[i].0 && toggled(s, id)[i].1
                == s[i].1,
{
    if has_id(s, id) {
        let w = choose|k: int| 0 <= k < s.len() && #[trigger] s[k].0 == id;
        lemma_has_first(s, id, w);
    }
}

/// Toggling inverts the completion flag of the first entry carrying `id`,
/// and of no other entry.
pub proof fn lemma_toggle_flips_first(s: Seq<Entry>, id: u32)
    ensures
        forall|i: int|
            0 <= i < s.len() ==> ((#[trigger] toggled(s, id)[i]).2 != s[i].2 <==> (s[i].0 == id
                && forall|j: int| 0 <= j < i ==> s[j].0 != id)),
{
    if has_id(s, id) {
        let w = choose|k: int| 0 <= k < s.len() && #[trigger] s[k].0 == id;
        lemma_has_first(s, id, w);
        let k = first_with_id(s, id);
        assert forall|i: int| 0 <= i < s.len() implies ((#[trigger] toggled(s, id)[i]).2 != s[i].2
            <==> (s[i].0 == id && forall|j: int| 0 <= j < i ==> s[j].0 != id)) by {
            if i < k {
                assert(s[i].0 != id);
            } else if i > k {
                assert(!(forall|j: int| 0 <= j < i ==> s[j].0 != id)) by {
                    assert(s[k].0 == id);
                }
            }
        }
    }
}

/// After a delete no entry carries `id`, every other entry is kept, and
/// deleting again changes nothing.
pub proof fn lemma_delete(s: Seq<Entry>, id: u32)
    ensures
        !has_id(without_id(s, id), id),
        forall|i: int|
            0 <= i < s.len() && s[i].0 != id ==> #[trigger] without_id(s, id).contains(s[i]),
        without_id(without_id(s, id), id) == without_id(s, id),
        has_id(s, id) ==> without_id(s, id).len() < s.len(),
        !has_id(s, id) ==> without_id(s, id) == s,
    decreases s.len(),
{
    reveal(Seq::filter);
    broadcast use vstd::seq_lib::group_filter_ensures;
    if s.len() > 0 {
        lemma_delete(s.drop_last(), id);
        let r = without_id(s.drop_last(), id);
        if s.last().0 != id {
            assert(without_id(s, id) == r.push(s.last()));
            assert(r.push(s.last()).drop_last() =~= r);
            if has_id(s, id) {
                let k = choose|k: int| 0 <= k < s.len() && #[trigger] s[k].0 == id;
                assert(s.drop_last()[k].0 == id);
            }
            if !has_id(s, id) {
                assert forall|k: int| 0 <= k < s.drop_last().len() implies #[trigger] s.drop_last()[k].0
                    != id by {
                    assert(s[k].0 != id);
                }
                assert(s.drop_last().push(s.last()) =~= s);
            }
            assert forall|i: int|
                0 <= i < s.len() && s[i].0 != id implies #[trigger] without_id(s, id).contains(
                s[i],
            ) by {
                if i < s.len() - 1 {
                    assert(s.drop_last()[i] == s[i]);
                    assert(r.contains(s.drop_last()[i]));
                    let j = choose|j: int| 0 <= j < r.len() && r[j] == s[i];
                    assert(without_id(s, id)[j] == s[i]);
                } else {
                    assert(without_id(s, id)[r.len() as int] == s[i]);
                }
            }
            if has_id(without_id(s, id), id) {
                let k = choose|k: int|
                    0 <= k < without_id(s, id).len() && #[trigger] without_id(s, id)[k].0 == id;
                if k < r.len() {
                    assert(r[k].0 == id);
                }
            }
        } else {
            assert(without_id(s, id) == r);
            assert(has_id(s, id)) by {
                assert(s[s.len() - 1].0 == id);
            }
            assert forall|i: int|
                0 <= i < s.len() && s[i].0 != id implies #[trigger] without_id(s, id).contains(
                s[i],
            ) by {
                assert(s.drop_last()[i] == s[i]);
            }
        }
    }
}

/// Deleting an entry just added under an id the list did not hold gives
/// back the list.
pub proof fn lemma_delete_undoes_add(s: Seq<Entry>, id: u32, text: Seq<char>)
    requires
        !has_id(s, id),
    ensures
        without_id(s.push((id, text, false)), id) == s,
{
    reveal(Seq::filter);
    lemma_delete(s, id);
    assert(s.push((id, text, false)).drop_last() =~= s);
}

} // verus!
