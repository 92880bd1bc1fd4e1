use vstd::prelude::*;

use crate::error::{DBError, ErrorKind};

verus! {

/// Capability that a record type needs to be stored: a caller-defined
/// identifier, the only key the engine understands.
pub trait Data {
    fn uuid(&self) -> String;
}

/// A record together with the identifier under which it is stored.
pub struct Entry<T> {
    pub id: String,
    pub value: T,
}

/// Index of the first entry of `s` whose identifier is `id`, or -1 when none is.
pub open spec fn first_index<T>(s: Seq<Entry<T>>, id: Seq<char>) -> int
    decreases s.len(),
{
    if s.len() == 0 {
        -1
    } else if s[0].id@ == id {
        0
    } else {
        let k = first_index(s.drop_first(), id);
        if k < 0 {
            -1
        } else {
            k + 1
        }
    }
}

/// Some entry of `s` carries the identifier `id`.
pub open spec fn has_id<T>(s: Seq<Entry<T>>, id: Seq<char>) -> bool {
    exists|i: int| 0 <= i < s.len() && #[trigger] s[i].id@ == id
}

/// No two entries of `s` share an identifier.
pub open spec fn unique_ids<T>(s: Seq<Entry<T>>) -> bool {
    forall|i: int, j: int|
        0 <= i < s.len() && 0 <= j < s.len() && i != j ==> #[trigger] s[i].id@ != #[trigger] s[j].id@
}

/// Number of entries of `s` whose identifier is `id`.
pub open spec fn id_count<T>(s: Seq<Entry<T>>, id: Seq<char>) -> nat
    decreases s.len(),
{
    if s.len() == 0 {
        0
    } else {
        id_count(s.drop_last(), id) + if s.last().id@ == id {
            1nat
        } else {
            0nat
        }
    }
}

/// The collection after inserting `e`: `None` when its identifier is taken.
pub open spec fn inserted<T>(s: Seq<Entry<T>>, e: Entry<T>) -> Option<Seq<Entry<T>>> {
    if has_id(s, e.id@) {
        None
    } else {
        Some(s.push(e))
    }
}

/// The record that a query for `id` returns, or `None` when no entry has it.
pub open spec fn queried<T>(s: Seq<Entry<T>>, id: Seq<char>) -> Option<T> {
    let k = first_index(s, id);
    if k < 0 {
        None
    } else {
        Some(s[k].value)
    }
}

/// The collection after replacing the first entry with the identifier of `e`.
pub open spec fn updated<T>(s: Seq<Entry<T>>, e: Entry<T>) -> Option<Seq<Entry<T>>> {
    let k = first_index(s, e.id@);
    if k < 0 {
        None
    } else {
        Some(s.update(k, e))
    }
}

/// The collection after removing the first entry whose identifier is `id`.
pub open spec fn deleted<T>(s: Seq<Entry<T>>, id: Seq<char>) -> Option<Seq<Entry<T>>> {
    let k = first_index(s, id);
    if k < 0 {
        None
    } else {
        Some(s.remove(k))
    }
}

/// `first_index` is -1 exactly when no entry matches, and otherwise names the
/// first matching entry.
pub proof fn lemma_first_index<T>(s: Seq<Entry<T>>, id: Seq<char>)
    ensures
        -1 <= first_index(s, id) < s.len(),
        first_index(s, id) < 0 <==> !has_id(s, id),
        first_index(s, id) >= 0 ==> s[first_index(s, id)].id@ == id,
        forall|j: int| 0 <= j < first_index(s, id) ==> #[trigger] s[j].id@ != id,
    decreases s.len(),
{
    if s.len() > 0 && s[0].id@ != id {
        let t = s.drop_first();
        lemma_first_index(t, id);
        assert forall|j: int| 0 <= j < t.len() implies #[trigger] t[j] == s[j + 1] by {}
        if has_id(s, id) {
            let i = choose|i: int| 0 <= i < s.len() && #[trigger] s[i].id@ == id;
            assert(t[i - 1].id@ == id);
        }
        if has_id(t, id) {
            let i = choose|i: int| 0 <= i < t.len() && #[trigger] t[i].id@ == id;
            assert(s[i + 1].id@ == id);
        }
        assert forall|j: int| 0 <= j < first_index(s, id) implies #[trigger] s[j].id@ != id by {
            if j > 0 {
                assert(t[j - 1].id@ != id);
            }
        }
    } else if s.len() > 0 {
        assert(s[0].id@ == id);
    }
}

/// Scans `records` from the front for the first entry with identifier `id`.
pub fn find_index<T>(records: &Vec<Entry<T>>, id: &str) -> (r: Option<usize>)
    ensures
        match r {
            Some(i) => i < records@.len() && i == first_index(records@, id@),
            None => first_index(records@, id@) < 0,
        },
{
    proof {
        lemma_first_index(records@, id@);
    }
    let key = id.to_owned();
    let mut i: usize = 0;
    while i < records.len()
        invariant
            i <= records@.len(),
            key@ == id@,
            forall|j: int| 0 <= j < i ==> #[trigger] records@[j].id@ != id@,
            -1 <= first_index(records@, id@) < records@.len(),
            first_index(records@, id@) < 0 <==> !has_id(records@, id@),
            first_index(records@, id@) >= 0 ==> records@[first_index(records@, id@)].id@
                == id@,
            forall|j: int|
                0 <= j < first_index(records@, id@) ==> #[trigger] records@[j].id@ != id@,
        decreases records@.len() - i,
    {
        if records[i].id == key {
            return Some(i);
        }
        i = i + 1;
    }
    None
}

/// Appends `e` unless its identifier is already present, in which case the
/// collection is left as it was and `DuplicateKey` is returned.
pub fn insert_record<T>(records: &mut Vec<Entry<T>>, e: Entry<T>) -> (r: Result<(), DBError>)
    ensures
        match inserted(old(records)@, e) {
            Some(s) => r is Ok && final(records)@ == s,
            None => r == Err::<(), DBError>(DBError(ErrorKind::DuplicateKey)) && final(records)@
                == old(records)@,
        },
{
    proof {
        lemma_first_index(records@, e.id@);
    }
    match find_index(records, e.id.as_str()) {
        Some(_) => Err(DBError(ErrorKind::DuplicateKey)),
        None => {
            records.push(e);
            Ok(())
        },
    }
}

/// Returns the first record whose identifier is `id`, or `NotFound`.
pub fn query_record<T>(records: Vec<Entry<T>>, id: &str) -> (r: Result<T, DBError>)
    ensures
        match queried(records@, id@) {
            Some(v) => r == Ok::<T, DBError>(v),
            None => r == Err::<T, DBError>(DBError(ErrorKind::NotFound)),
        },
{
    let mut records = records;
    match find_index(&records, id) {
        Some(k) => {
            let e = records.remove(k);
            Ok(e.value)
        },
        None => Err(DBError(ErrorKind::NotFound)),
    }
}

/// Replaces the first entry that carries the identifier of `e` by `e`; when
/// there is none the collection is left as it was and `NotFound` is returned.
pub fn update_record<T>(records: &mut Vec<Entry<T>>, e: Entry<T>) -> (r: Result<(), DBError>)
    ensures
        match updated(old(records)@, e) {
            Some(s) => r is Ok && final(records)@ == s,
            None => r == Err::<(), DBError>(DBError(ErrorKind::NotFound)) && final(records)@
                == old(records)@,
        },
{
    match find_index(records, e.id.as_str()) {
        Some(k) => {
            records[k] = e;
            Ok(())
        },
        None => Err(DBError(ErrorKind::NotFound)),
    }
}

/// Removes the first entry whose identifier is `id`, keeping the order of the
/// rest; when there is none the collection is left as it was and `NotFound`
/// is returned.
pub fn delete_record<T>(records: &mut Vec<Entry<T>>, id: &str) -> (r: Result<(), DBError>)
    ensures
        match deleted(old(records)@, id@) {
            Some(s) => r is Ok && final(records)@ == s,
            None => r == Err::<(), DBError>(DBError(ErrorKind::NotFound)) && final(records)@
                == old(records)@,
        },
{
    match find_index(records, id) {
        Some(k) => {
            records.remove(k);
            Ok(())
        },
        None => Err(DBError(ErrorKind::NotFound)),
    }
}

/// Pairs `value` with the identifier that its `uuid` gives.
pub fn keyed<T: Data>(value: T) -> (r: Entry<T>)
    ensures
        r.value == value,
{
    let id = value.uuid();
    Entry { id, value }
}

/// `v` in reverse order.
fn reversed<T>(v: Vec<T>) -> (r: Vec<T>)
    ensures
        r@.len() == v@.len(),
        forall|j: int| 0 <= j < v@.len() ==> #[trigger] r@[j] == v@[v@.len() - 1 - j],
{
    let ghost v0 = v@;
    let mut v = v;
    let mut r: Vec<T> = Vec::new();
    while v.len() > 0
        invariant
            r@.len() + v@.len() == v0.len(),
            forall|i: int| 0 <= i < v@.len() ==> #[trigger] v@[i] == v0[i],
            forall|j: int| 0 <= j < r@.len() ==> #[trigger] r@[j] == v0[v0.len() - 1 - j],
        decreases v@.len(),
    {
        match v.pop() {
            Some(x) => r.push(x),
            None => {},
        }
    }
    r
}

/// Pairs each record with its identifier, keeping their order.
pub fn keyed_all<T: Data>(values: Vec<T>) -> (r: Vec<Entry<T>>)
    ensures
        r@.len() == values@.len(),
        forall|i: int| 0 <= i < values@.len() ==> #[trigger] r@[i].value == values@[i],
{
    let ghost n = values@.len();
    let mut rest = reversed(values);
    let mut out: Vec<Entry<T>> = Vec::new();
    while rest.len() > 0
        invariant
            out@.len() + rest@.len() == n,
            rest@.len() <= n,
            forall|j: int| 0 <= j < rest@.len() ==> #[trigger] rest@[j] == values@[n - 1 - j],
            forall|i: int| 0 <= i < out@.len() ==> #[trigger] out@[i].value == values@[i],
        decreases rest@.len(),
    {
        match rest.pop() {
            Some(x) => out.push(keyed(x)),
            None => {},
        }
    }
    out
}

/// The records of `entries`, in order, without their identifiers.
pub fn values_of<T>(entries: Vec<Entry<T>>) -> (r: Vec<T>)
    ensures
        r@.len() == entries@.len(),
        forall|i: int| 0 <= i < entries@.len() ==> #[trigger] r@[i] == entries@[i].value,
{
    let ghost n = entries@.len();
    let mut rest = reversed(entries);
    let mut out: Vec<T> = Vec::new();
    while rest.len() > 0
        invariant
            out@.len() + rest@.len() == n,
            rest@.len() <= n,
            forall|j: int| 0 <= j < rest@.len() ==> #[trigger] rest@[j] == entries@[n - 1 - j],
            forall|i: int| 0 <= i < out@.len() ==> #[trigger] out@[i] == entries@[i].value,
        decreases rest@.len(),
    {
        match rest.pop() {
            Some(e) => out.push(e.value),
            None => {},
        }
    }
    out
}

} // verus!
