use vstd::prelude::*;

use crate::records::{
    deleted, first_index, has_id, id_count, inserted, lemma_first_index, queried, unique_ids,
    updated, Entry,
};

verus! {

/// A collection in which `id` does not occur counts it zero times.
proof fn lemma_absent_count<T>(s: Seq<Entry<T>>, id: Seq<char>)
    requires
        !has_id(s, id),
    ensures
        id_count(s, id) == 0,
    decreases s.len(),
{
    if s.len() > 0 {
        let t = s.drop_last();
        if has_id(t, id) {
            let i = choose|i: int| 0 <= i < t.len() && #[trigger] t[i].id@ == id;
            assert(s[i].id@ == id);
        }
        assert(s[s.len() - 1].id@ != id);
        lemma_absent_count(t, id);
    }
}

/// Inserting a record into an empty collection and then querying its
/// identifier gives back that record.
pub proof fn lemma_insert_then_query<T>(e: Entry<T>)
    ensures
        match inserted(Seq::<Entry<T>>::empty(), e) {
            Some(s) => queried(s, e.id@) == Some(e.value),
            None => false,
        },
{
    let s = Seq::<Entry<T>>::empty().push(e);
    assert(s[0] == e);
}

/// Each successful insert, update and delete keeps identifiers unique.
pub proof fn lemma_unique_ids_kept<T>(s: Seq<Entry<T>>, e: Entry<T>, id: Seq<char>)
    requires
        unique_ids(s),
    ensures
        inserted(s, e) is Some ==> unique_ids(inserted(s, e)->0),
        updated(s, e) is Some ==> unique_ids(updated(s, e)->0),
        deleted(s, id) is Some ==> unique_ids(deleted(s, id)->0),
{
    lemma_first_index(s, e.id@);
    lemma_first_index(s, id);
    if inserted(s, e) is Some {
        let t = s.push(e);
        assert forall|i: int, j: int|
            0 <= i < t.len() && 0 <= j < t.len() && i != j implies #[trigger] t[i].id@
            != #[trigger] t[j].id@ by {
            if i == s.len() {
                assert(s[j].id@ != e.id@);
            } else if j == s.len() {
                assert(s[i].id@ != e.id@);
            } else {
                assert(t[i] == s[i] && t[j] == s[j]);
            }
        }
    }
    if updated(s, e) is Some {
        let k = first_index(s, e.id@);
        let t = s.update(k, e);
        assert forall|i: int, j: int|
            0 <= i < t.len() && 0 <= j < t.len() && i != j implies #[trigger] t[i].id@
            != #[trigger] t[j].id@ by {
            if i == k {
                assert(s[j].id@ != s[k].id@);
            } else if j == k {
                assert(s[i].id@ != s[k].id@);
            } else {
                assert(t[i] == s[i] && t[j] == s[j]);
            }
        }
    }
    if deleted(s, id) is Some {
        let k = first_index(s, id);
        let t = s.remove(k);
        assert forall|i: int, j: int|
            0 <= i < t.len() && 0 <= j < t.len() && i != j implies #[trigger] t[i].id@
            != #[trigger] t[j].id@ by {
            let si = if i < k { i } else { i + 1 };
            let sj = if j < k { j } else { j + 1 };
            assert(t[i] == s[si] && t[j] == s[sj]);
        }
    }
}

/// After a first insert succeeds, a second insert with the same identifier
/// is refused, and the collection holds exactly one record with it.
pub proof fn lemma_duplicate_insert<T>(s: Seq<Entry<T>>, a: Entry<T>, b: Entry<T>)
    requires
        unique_ids(s),
        a.id@ == b.id@,
        inserted(s, a) is Some,
    ensures
        inserted(inserted(s, a)->0, b) is None,
        id_count(inserted(s, a)->0, a.id@) == 1,
{
    let t = s.push(a);
    assert(t[s.len() as int].id@ == b.id@);
    lemma_absent_count(s, a.id@);
    assert(t.drop_last() =~= s);
}

/// Updating an identifier that no record carries changes nothing: the update
/// is refused.
pub proof fn lemma_update_missing<T>(s: Seq<Entry<T>>, e: Entry<T>)
    requires
        !has_id(s, e.id@),
    ensures
        updated(s, e) is None,
{
    lemma_first_index(s, e.id@);
}

/// Deleting a present identifier removes exactly one record, keeps the others
/// in their relative order, and a query of that identifier then finds nothing.
pub proof fn lemma_delete_then_query<T>(s: Seq<Entry<T>>, id: Seq<char>)
    requires
        unique_ids(s),
        has_id(s, id),
    ensures
        deleted(s, id) is Some,
        queried(deleted(s, id)->0, id) is None,
        deleted(s, id)->0.len() == s.len() - 1,
        exists|k: int|
            0 <= k < s.len() && s[k].id@ == id && (forall|j: int|
                0 <= j < k ==> #[trigger] deleted(s, id)->0[j] == s[j]) && (forall|j: int|
                k <= j < s.len() - 1 ==> #[trigger] deleted(s, id)->0[j] == s[j + 1]),
{
    lemma_first_index(s, id);
    let k = first_index(s, id);
    let t = s.remove(k);
    lemma_first_index(t, id);
    if has_id(t, id) {
        let i = choose|i: int| 0 <= i < t.len() && #[trigger] t[i].id@ == id;
        if i < k {
            assert(t[i] == s[i]);
        } else {
            assert(t[i] == s[i + 1]);
        }
    }
    assert(forall|j: int| 0 <= j < k ==> #[trigger] t[j] == s[j]);
    assert(forall|j: int| k <= j < s.len() - 1 ==> #[trigger] t[j] == s[j + 1]);
}

} // verus!
