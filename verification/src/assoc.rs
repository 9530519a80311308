//! Small association vectors keyed by shape id, with unique keys and
//! insertion order kept.  The selection maps are tiny (tens of
//! entries), so linear scans are the simplest correct structure.

use vstd::prelude::*;
use vstd::pervasive::VecAdditionalExecFns;

verus! {

/// Unique keys.
pub open spec fn assoc_ok<T>(s: Seq<(u32, T)>) -> bool {
    forall|i: int, j: int| 0 <= i < j < s.len() ==> (#[trigger] s[i].0) != (#[trigger] s[j].0)
}

/// Whether `id` is a key of the vector.
pub open spec fn assoc_has<T>(s: Seq<(u32, T)>, id: u32) -> bool {
    exists|i: int| 0 <= i < s.len() && (#[trigger] s[i].0) == id
}

/// The index of key `id` (unique when `assoc_ok` holds).
pub open spec fn assoc_index_of<T>(s: Seq<(u32, T)>, id: u32) -> int {
    choose|i: int| 0 <= i < s.len() && (#[trigger] s[i].0) == id
}

/// The value under key `id`.
pub open spec fn assoc_value<T>(s: Seq<(u32, T)>, id: u32) -> T {
    s[assoc_index_of(s, id)].1
}

/// Look up the value under `id`.
pub fn assoc_get<T: Copy>(v: &Vec<(u32, T)>, id: u32) -> (r: Option<T>)
    requires
        assoc_ok(v@),
    ensures
        r is Some <==> assoc_has(v@, id),
        r matches Some(t) ==> assoc_has(v@, id) && t == assoc_value(v@, id),
{
    let mut i: usize = 0;
    while i < v.len()
        invariant
            0 <= i <= v@.len(),
            assoc_ok(v@),
            forall|j: int| 0 <= j < i ==> (#[trigger] v@[j].0) != id,
        decreases v@.len() - i,
    {
        if v[i].0 == id {
            proof {
                assert(assoc_index_of(v@, id) == i);
            }
            return Some(v[i].1);
        }
        i = i + 1;
    }
    None
}

/// Bind `id` to `t`: replace the entry in place, or append a new one.
pub fn assoc_insert<T: Copy>(v: &mut Vec<(u32, T)>, id: u32, t: T)
    requires
        assoc_ok(old(v)@),
    ensures
        assoc_ok(final(v)@),
        assoc_has(old(v)@, id) ==> final(v)@ == old(v)@.update(
            assoc_index_of(old(v)@, id),
            (id, t),
        ),
        !assoc_has(old(v)@, id) ==> final(v)@ == old(v)@.push((id, t)),
        assoc_has(final(v)@, id),
        assoc_value(final(v)@, id) == t,
        forall|o: u32|
            #![trigger assoc_has(final(v)@, o)]
            #![trigger assoc_value(final(v)@, o)]
            o != id ==> assoc_has(final(v)@, o) == assoc_has(old(v)@, o) && (assoc_has(
                old(v)@,
                o,
            ) ==> assoc_value(final(v)@, o) == assoc_value(old(v)@, o)),
{
    let n = v.len();
    let mut i: usize = 0;
    while i < n
        invariant
            0 <= i <= n,
            n == v@.len(),
            assoc_ok(v@),
            v@ == old(v)@,
            forall|j: int| 0 <= j < i ==> (#[trigger] v@[j].0) != id,
        decreases n - i,
    {
        if v[i].0 == id {
            proof {
                assert(assoc_index_of(old(v)@, id) == i);
            }
            v.set(i, (id, t));
            proof {
                assert forall|j: int|
                    0 <= j < v@.len() && j != i implies (#[trigger] v@[j].0) != id by {
                    assert(v@[j] == old(v)@[j]);
                    assert(old(v)@[i as int].0 == id);
                }
                assert(v@[i as int].0 == id);
                assert(assoc_index_of(v@, id) == i);
                assert forall|o: u32|
                    #![trigger assoc_has(v@, o)]
                    #![trigger assoc_value(v@, o)]
                    o != id implies assoc_has(v@, o) == assoc_has(old(v)@, o) && (assoc_has(
                    old(v)@,
                    o,
                ) ==> assoc_value(v@, o) == assoc_value(old(v)@, o)) by {
                    if assoc_has(old(v)@, o) {
                        let j = assoc_index_of(old(v)@, o);
                        assert(old(v)@[j].0 == o);
                        assert(v@[j] == old(v)@[j]);
                        assert(assoc_has(v@, o));
                        assert(assoc_index_of(v@, o) == j);
                    }
                    if assoc_has(v@, o) {
                        let k = assoc_index_of(v@, o);
                        assert(v@[k].0 == o);
                        assert(v@[k] == old(v)@[k]);
                        assert(assoc_has(old(v)@, o));
                    }
                }
            }
            return ;
        }
        i = i + 1;
    }
    v.push((id, t));
    proof {
        assert forall|a: int, b: int|
            0 <= a < b < v@.len() implies (#[trigger] v@[a].0) != (#[trigger] v@[b].0) by {
            if b < v@.len() - 1 {
                assert(v@[a] == old(v)@[a]);
                assert(v@[b] == old(v)@[b]);
            } else {
                assert(v@[a] == old(v)@[a]);
            }
        }
        assert(v@[v@.len() - 1].0 == id);
        assert(assoc_index_of(v@, id) == v@.len() - 1);
        assert forall|o: u32|
            #![trigger assoc_has(v@, o)]
            #![trigger assoc_value(v@, o)]
            o != id implies assoc_has(v@, o) == assoc_has(old(v)@, o) && (assoc_has(
            old(v)@,
            o,
        ) ==> assoc_value(v@, o) == assoc_value(old(v)@, o)) by {
            if assoc_has(old(v)@, o) {
                let j = assoc_index_of(old(v)@, o);
                assert(old(v)@[j].0 == o);
                assert(v@[j] == old(v)@[j]);
                assert(assoc_has(v@, o));
                assert(assoc_index_of(v@, o) == j);
            }
            if assoc_has(v@, o) {
                let k = assoc_index_of(v@, o);
                assert(v@[k].0 == o);
                assert(k < v@.len() - 1);
                assert(v@[k] == old(v)@[k]);
                assert(assoc_has(old(v)@, o));
            }
        }
    }
}

/// Drop the entry under `id`, if any.
pub fn assoc_remove<T: Copy>(v: &mut Vec<(u32, T)>, id: u32)
    requires
        assoc_ok(old(v)@),
    ensures
        assoc_ok(final(v)@),
        assoc_has(old(v)@, id) ==> final(v)@ == old(v)@.remove(assoc_index_of(old(v)@, id)),
        !assoc_has(old(v)@, id) ==> final(v)@ == old(v)@,
        !assoc_has(final(v)@, id),
{
    let n = v.len();
    let mut i: usize = 0;
    while i < n
        invariant
            0 <= i <= n,
            n == v@.len(),
            assoc_ok(v@),
            v@ == old(v)@,
            forall|j: int| 0 <= j < i ==> (#[trigger] v@[j].0) != id,
        decreases n - i,
    {
        if v[i].0 == id {
            proof {
                assert(assoc_index_of(old(v)@, id) == i);
            }
            v.remove(i);
            proof {
                assert forall|k: int|
                    0 <= k < v@.len() implies (#[trigger] v@[k].0) != id by {
                    if k < i {
                        assert(v@[k] == old(v)@[k]);
                    } else {
                        assert(v@[k] == old(v)@[k + 1]);
                    }
                }
                assert forall|a: int, b: int|
                    0 <= a < b < v@.len() implies (#[trigger] v@[a].0) != (#[trigger] v@[b].0) by {
                    if b < i {
                        assert(v@[a] == old(v)@[a]);
                        assert(v@[b] == old(v)@[b]);
                    } else if a < i {
                        assert(v@[a] == old(v)@[a]);
                        assert(v@[b] == old(v)@[b + 1]);
                    } else {
                        assert(v@[a] == old(v)@[a + 1]);
                        assert(v@[b] == old(v)@[b + 1]);
                    }
                }
            }
            return ;
        }
        i = i + 1;
    }
}

} // verus!
