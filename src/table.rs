//! Tables of keyed rows: lookup by key, children of a parent, and the facts
//! about keys and parent references that the store's invariant is made of.

use crate::models::{ChildRecord, Record};
use vstd::prelude::*;

verus! {

/// Some row of `s` has key `id`.
pub open spec fn contains_key<T: Record>(s: Seq<T>, id: i32) -> bool {
    exists|i: int| 0 <= i < s.len() && #[trigger] s[i].key() == id
}

/// The position of the row with key `id` (meaningful when one exists).
pub open spec fn key_index<T: Record>(s: Seq<T>, id: i32) -> int {
    choose|i: int| 0 <= i < s.len() && #[trigger] s[i].key() == id
}

/// Keys strictly increase along the table, which is its order of creation.
pub open spec fn keys_ordered<T: Record>(s: Seq<T>) -> bool {
    forall|i: int, j: int| 0 <= i < j < s.len() ==> #[trigger] s[i].key() < #[trigger] s[j].key()
}

/// Keys are ordered, positive and below `next`, the next key to issue, and
/// every row is well formed.
pub open spec fn table_ok<T: Record>(s: Seq<T>, next: int) -> bool {
    &&& keys_ordered(s)
    &&& forall|i: int|
        0 <= i < s.len() ==> 0 < #[trigger] s[i].key() < next && s[i].well_formed()
}

/// Every row of `c` names a parent that exists in `p`.
pub open spec fn refs_ok<C: ChildRecord, P: Record>(c: Seq<C>, p: Seq<P>) -> bool {
    forall|i: int| 0 <= i < c.len() ==> contains_key(p, #[trigger] c[i].parent_key())
}

/// The rows of `s` owned by parent `p`, in order of creation.
pub open spec fn children_of<C: ChildRecord>(s: Seq<C>, p: i32) -> Seq<C> {
    s.filter(|c: C| c.parent_key() == p)
}

/// Some row of `s` is owned by parent `p`.
pub open spec fn has_child<C: ChildRecord>(s: Seq<C>, p: i32) -> bool {
    exists|i: int| 0 <= i < s.len() && #[trigger] s[i].parent_key() == p
}

pub proof fn lemma_key_index<T: Record>(s: Seq<T>, id: i32, i: int)
    requires
        keys_ordered(s),
        0 <= i < s.len(),
        s[i].key() == id,
    ensures
        key_index(s, id) == i,
{
    let j = key_index(s, id);
    assert(0 <= j < s.len() && s[j].key() == id);
}

/// The position of the row with key `id`, if there is one.
pub fn find_index<T: Record>(v: &Vec<T>, id: i32) -> (r: Option<usize>)
    requires
        keys_ordered(v@),
    ensures
        match r {
            Some(i) => i < v@.len() && i == key_index(v@, id) && v@[i as int].key() == id
                && contains_key(v@, id),
            None => !contains_key(v@, id),
        },
{
    let mut i: usize = 0;
    while i < v.len()
        invariant
            0 <= i <= v@.len(),
            keys_ordered(v@),
            forall|k: int| 0 <= k < i ==> #[trigger] v@[k].key() != id,
        decreases v@.len() - i,
    {
        if v[i].record_id() == id {
            proof {
                lemma_key_index(v@, id, i as int);
            }
            return Some(i);
        }
        i += 1;
    }
    None
}

/// Copies of the rows owned by parent `p`, in order of creation.
pub fn collect_children<C: ChildRecord>(v: &Vec<C>, p: i32) -> (r: Vec<C>)
    ensures
        r@ == children_of(v@, p),
{
    let mut out: Vec<C> = Vec::new();
    let mut i: usize = 0;
    while i < v.len()
        invariant
            0 <= i <= v@.len(),
            out@ == children_of(v@.subrange(0, i as int), p),
        decreases v@.len() - i,
    {
        proof {
            reveal(Seq::filter);
            assert(v@.subrange(0, i + 1).drop_last() == v@.subrange(0, i as int));
            assert(v@.subrange(0, i + 1).last() == v@[i as int]);
        }
        if v[i].parent_record_id() == p {
            out.push(v[i].duplicate());
        }
        i += 1;
    }
    assert(v@.subrange(0, v@.len() as int) == v@);
    out
}

/// Whether some row is owned by parent `p`.
pub fn any_child<C: ChildRecord>(v: &Vec<C>, p: i32) -> (r: bool)
    ensures
        r == has_child(v@, p),
{
    let mut i: usize = 0;
    while i < v.len()
        invariant
            0 <= i <= v@.len(),
            forall|k: int| 0 <= k < i ==> #[trigger] v@[k].parent_key() != p,
        decreases v@.len() - i,
    {
        if v[i].parent_record_id() == p {
            return true;
        }
        i += 1;
    }
    false
}

pub proof fn lemma_table_push<T: Record>(s: Seq<T>, next: int, x: T)
    requires
        table_ok(s, next),
        x.key() == next,
        0 < next,
        x.well_formed(),
    ensures
        table_ok(s.push(x), next + 1),
{
    let t = s.push(x);
    assert forall|i: int| 0 <= i < t.len() implies 0 < #[trigger] t[i].key() < next + 1
        && t[i].well_formed() by {
        if i < s.len() {
            assert(t[i] == s[i]);
        } else {
            assert(t[i] == x);
        }
    }
    assert forall|i: int, j: int| 0 <= i < j < t.len() implies #[trigger] t[i].key()
        < #[trigger] t[j].key() by {
        assert(t[i] == s[i]);
        if j < s.len() {
            assert(t[j] == s[j]);
        }
    }
}

pub proof fn lemma_table_remove<T: Record>(s: Seq<T>, next: int, k: int)
    requires
        table_ok(s, next),
        0 <= k < s.len(),
    ensures
        table_ok(s.remove(k), next),
{
    let t = s.remove(k);
    assert forall|i: int| 0 <= i < t.len() implies 0 < #[trigger] t[i].key() < next
        && t[i].well_formed() by {
        if i < k {
            assert(t[i] == s[i]);
        } else {
            assert(t[i] == s[i + 1]);
        }
    }
    assert forall|i: int, j: int| 0 <= i < j < t.len() implies #[trigger] t[i].key()
        < #[trigger] t[j].key() by {
        let a = if i < k { i } else { i + 1 };
        let b = if j < k { j } else { j + 1 };
        assert(t[i] == s[a]);
        assert(t[j] == s[b]);
    }
}

pub proof fn lemma_table_update<T: Record>(s: Seq<T>, next: int, k: int, x: T)
    requires
        table_ok(s, next),
        0 <= k < s.len(),
        x.key() == s[k].key(),
        x.well_formed(),
    ensures
        table_ok(s.update(k, x), next),
{
    let t = s.update(k, x);
    assert forall|i: int| 0 <= i < t.len() implies 0 < #[trigger] t[i].key() < next
        && t[i].well_formed() by {
        if i != k {
            assert(t[i] == s[i]);
        }
    }
    assert forall|i: int, j: int| 0 <= i < j < t.len() implies #[trigger] t[i].key()
        < #[trigger] t[j].key() by {
        assert(t[i].key() == s[i].key());
        assert(t[j].key() == s[j].key());
    }
}

pub proof fn lemma_refs_parent_push<C: ChildRecord, P: Record>(c: Seq<C>, p: Seq<P>, x: P)
    requires
        refs_ok(c, p),
    ensures
        refs_ok(c, p.push(x)),
{
    assert forall|i: int| 0 <= i < c.len() implies contains_key(
        p.push(x),
        #[trigger] c[i].parent_key(),
    ) by {
        let j = choose|j: int| 0 <= j < p.len() && #[trigger] p[j].key() == c[i].parent_key();
        assert(p.push(x)[j] == p[j]);
    }
}

pub proof fn lemma_refs_parent_update<C: ChildRecord, P: Record>(
    c: Seq<C>,
    p: Seq<P>,
    k: int,
    x: P,
)
    requires
        refs_ok(c, p),
        0 <= k < p.len(),
        x.key() == p[k].key(),
    ensures
        refs_ok(c, p.update(k, x)),
{
    assert forall|i: int| 0 <= i < c.len() implies contains_key(
        p.update(k, x),
        #[trigger] c[i].parent_key(),
    ) by {
        let j = choose|j: int| 0 <= j < p.len() && #[trigger] p[j].key() == c[i].parent_key();
        assert(p.update(k, x)[j].key() == p[j].key());
    }
}

pub proof fn lemma_refs_parent_remove<C: ChildRecord, P: Record>(c: Seq<C>, p: Seq<P>, k: int)
    requires
        refs_ok(c, p),
        0 <= k < p.len(),
        !has_child(c, p[k].key()),
    ensures
        refs_ok(c, p.remove(k)),
{
    assert forall|i: int| 0 <= i < c.len() implies contains_key(
        p.remove(k),
        #[trigger] c[i].parent_key(),
    ) by {
        let j = choose|j: int| 0 <= j < p.len() && #[trigger] p[j].key() == c[i].parent_key();
        assert(j != k);
        if j < k {
            assert(p.remove(k)[j] == p[j]);
        } else {
            assert(p.remove(k)[j - 1] == p[j]);
        }
    }
}

pub proof fn lemma_refs_child_push<C: ChildRecord, P: Record>(c: Seq<C>, p: Seq<P>, x: C)
    requires
        refs_ok(c, p),
        contains_key(p, x.parent_key()),
    ensures
        refs_ok(c.push(x), p),
{
    assert forall|i: int| 0 <= i < c.push(x).len() implies contains_key(
        p,
        #[trigger] c.push(x)[i].parent_key(),
    ) by {
        if i < c.len() {
            assert(c.push(x)[i] == c[i]);
        }
    }
}

pub proof fn lemma_refs_child_update<C: ChildRecord, P: Record>(
    c: Seq<C>,
    p: Seq<P>,
    k: int,
    x: C,
)
    requires
        refs_ok(c, p),
        0 <= k < c.len(),
        contains_key(p, x.parent_key()),
    ensures
        refs_ok(c.update(k, x), p),
{
    assert forall|i: int| 0 <= i < c.len() implies contains_key(
        p,
        #[trigger] c.update(k, x)[i].parent_key(),
    ) by {
        if i != k {
            assert(c.update(k, x)[i] == c[i]);
        }
    }
}

pub proof fn lemma_refs_child_remove<C: ChildRecord, P: Record>(c: Seq<C>, p: Seq<P>, k: int)
    requires
        refs_ok(c, p),
        0 <= k < c.len(),
    ensures
        refs_ok(c.remove(k), p),
{
    assert forall|i: int| 0 <= i < c.remove(k).len() implies contains_key(
        p,
        #[trigger] c.remove(k)[i].parent_key(),
    ) by {
        if i < k {
            assert(c.remove(k)[i] == c[i]);
        } else {
            assert(c.remove(k)[i] == c[i + 1]);
        }
    }
}

} // verus!
