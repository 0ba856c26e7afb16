//! An insertion-ordered pool of named resources.
//!
//! One pool exists per resource kind.  A pool maps unique names to owned
//! resource values; insertion order defines each entry's positional slot
//! index.  Pools are append-only (this system supports no removal), so a
//! slot index, once handed out, stays valid for the life of the pool.
//!
//! Name collisions overwrite the existing entry in place, and the returned
//! slot is the slot of that existing entry, so a handle returned by an
//! insertion always points at the resource that was inserted.

use vstd::prelude::*;

use crate::assets::{AssetRef, Error};

verus! {

/// An insertion-ordered mapping from unique names to owned resources.
pub struct Pool<T> {
    names: Vec<String>,
    values: Vec<T>,
}

impl<T> Pool<T> {
    /// The sequence of entry names, in insertion order.
    pub closed spec fn names(&self) -> Seq<Seq<char>> {
        self.names@.map_values(|s: String| s@)
    }

    /// The sequence of resource values, in insertion order.
    pub closed spec fn resources(&self) -> Seq<T> {
        self.values@
    }

    /// Well-formedness: one name per value, and names are unique.
    pub open spec fn wf(&self) -> bool {
        &&& self.names().len() == self.resources().len()
        &&& forall|i: int, j: int|
            0 <= i < j < self.names().len() ==> self.names()[i] != self.names()[j]
    }

    /// True if some entry bears the name `n`.
    pub open spec fn contains_name(&self, n: Seq<char>) -> bool {
        exists|i: int| 0 <= i < self.names().len() && self.names()[i] == n
    }

    /// The slot of the entry named `n` (meaningful only when
    /// `contains_name(n)` holds; unique because names are unique).
    pub open spec fn index_of(&self, n: Seq<char>) -> int {
        choose|i: int| 0 <= i < self.names().len() && self.names()[i] == n
    }

    /// In a well-formed pool, any slot whose name is `n` is `index_of(n)`.
    pub proof fn lemma_index_of_unique(&self, n: Seq<char>, i: int)
        requires
            self.wf(),
            0 <= i < self.names().len(),
            self.names()[i] == n,
        ensures
            self.contains_name(n),
            self.index_of(n) == i,
    {
        assert(self.contains_name(n));
        let k = self.index_of(n);
        if k < i {
            assert(self.names()[k] != self.names()[i]);
        } else if k > i {
            assert(self.names()[i] != self.names()[k]);
        }
    }

    /// An empty pool.
    pub fn new() -> (r: Pool<T>)
        ensures
            r.wf(),
            r.names() == Seq::<Seq<char>>::empty(),
            r.resources() == Seq::<T>::empty(),
    {
        let r = Pool { names: Vec::new(), values: Vec::new() };
        proof {
            assert(r.names() =~= Seq::<Seq<char>>::empty());
            assert(r.resources() =~= Seq::<T>::empty());
        }
        r
    }

    /// The number of entries.
    pub fn len(&self) -> (r: usize)
        ensures
            r == self.names().len(),
    {
        self.names.len()
    }

    /// The slot of the entry named `name`, if one exists.
    pub fn find(&self, name: &String) -> (r: Option<usize>)
        ensures
            (match r {
                Some(i) => {
                    &&& i < self.names().len()
                    &&& self.names()[i as int] == name@
                },
                None => !self.contains_name(name@),
            }),
    {
        let mut i: usize = 0;
        while i < self.names.len()
            invariant
                i <= self.names.len(),
                forall|j: int| 0 <= j < i ==> self.names()[j] != name@,
            decreases self.names.len() - i,
        {
            if self.names[i] == *name {
                return Some(i);
            }
            i += 1;
        }
        None
    }

    /// The resource at positional slot `index`, or `None` if the slot is
    /// out of range.
    pub fn get_index(&self, index: usize) -> (r: Option<&T>)
        requires
            self.wf(),
        ensures
            (match r {
                Some(v) => {
                    &&& index < self.resources().len()
                    &&& *v == self.resources()[index as int]
                },
                None => index >= self.resources().len(),
            }),
    {
        if index < self.values.len() {
            Some(&self.values[index])
        } else {
            None
        }
    }

    /// The resource named `name`, or `None` if no entry bears that name.
    pub fn get(&self, name: &String) -> (r: Option<&T>)
        requires
            self.wf(),
        ensures
            (match r {
                Some(v) => {
                    &&& self.contains_name(name@)
                    &&& *v == self.resources()[self.index_of(name@)]
                },
                None => !self.contains_name(name@),
            }),
    {
        match self.find(name) {
            Some(i) => {
                proof {
                    self.lemma_index_of_unique(name@, i as int);
                }
                Some(&self.values[i])
            },
            None => None,
        }
    }

    /// Inserts `value` under `name` and returns its slot.
    ///
    /// A fresh name is appended, so its slot is the old length.  An
    /// existing name is overwritten in place, so its slot is the slot of
    /// the existing entry; either way the returned slot holds `value` and
    /// bears `name` afterwards.
    pub fn insert(&mut self, name: String, value: T) -> (idx: usize)
        requires
            old(self).wf(),
        ensures
            final(self).wf(),
            insert_post(*old(self), *final(self), name@, value, idx),
            idx < final(self).names().len(),
            final(self).names()[idx as int] == name@,
            final(self).resources()[idx as int] == value,
    {
        match self.find(&name) {
            Some(i) => {
                proof {
                    old(self).lemma_index_of_unique(name@, i as int);
                }
                self.values[i] = value;
                proof {
                    assert(self.names() =~= old(self).names());
                    assert(self.resources() =~= old(self).resources().update(i as int, value));
                }
                i
            },
            None => {
                let idx = self.names.len();
                self.names.push(name);
                self.values.push(value);
                proof {
                    assert(self.names() =~= old(self).names().push(name@));
                    assert(self.resources() =~= old(self).resources().push(value));
                    assert forall|i: int, j: int|
                        0 <= i < j < self.names().len() implies self.names()[i] != self.names()[j] by {
                        if j < self.names().len() - 1 {
                            assert(old(self).names()[i] != old(self).names()[j]);
                        } else {
                            assert(!old(self).contains_name(name@));
                        }
                    }
                }
                idx
            },
        }
    }

    /// The slot the two-tier resolution of `target` lands on, or the error
    /// it fails with.
    ///
    /// An in-range slot wins outright.  An out-of-range (or absent) slot
    /// falls through to the name lookup, if a name is present.  A handle
    /// with neither slot nor name fails with `NullReference`; one whose
    /// lookups were attempted but all failed, with `AssetNotFound`.
    pub open spec fn resolve_spec(&self, target: AssetRef) -> Result<int, Error> {
        if target.id is Some && (target.id->0 as int) < self.names().len() {
            Ok(target.id->0 as int)
        } else if target.name is Some {
            if self.contains_name(target.name->0@) {
                Ok(self.index_of(target.name->0@))
            } else {
                Err(Error::AssetNotFound)
            }
        } else if target.id is Some {
            Err(Error::AssetNotFound)
        } else {
            Err(Error::NullReference)
        }
    }

    /// Two-tier resolution: positional lookup first, then name lookup.
    ///
    /// This exists so that systems which cached a slot index keep working
    /// even if they also know the name, and vice versa.
    pub fn resolve(&self, target: &AssetRef) -> (r: Result<&T, Error>)
        requires
            self.wf(),
        ensures
            (match (r, self.resolve_spec(*target)) {
                (Ok(v), Ok(i)) => *v == self.resources()[i],
                (Err(e), Err(e2)) => e == e2,
                _ => false,
            }),
    {
        if let Some(id) = &target.id {
            if *id < self.values.len() {
                return Ok(&self.values[*id]);
            }
        }
        if let Some(name) = &target.name {
            return match self.find(name) {
                Some(i) => {
                    proof {
                        self.lemma_index_of_unique(name@, i as int);
                    }
                    Ok(&self.values[i])
                },
                None => Err(Error::AssetNotFound),
            };
        }
        if target.id.is_some() {
            Err(Error::AssetNotFound)
        } else {
            Err(Error::NullReference)
        }
    }
}

/// How an insertion under name `n` takes a pool from `pre` to `post`,
/// with `idx` the returned slot: a known name is overwritten in place, a
/// fresh one is appended at the end.
pub open spec fn insert_post<T>(pre: Pool<T>, post: Pool<T>, n: Seq<char>, v: T, idx: usize) -> bool {
    if pre.contains_name(n) {
        &&& idx == pre.index_of(n)
        &&& post.names() == pre.names()
        &&& post.resources() == pre.resources().update(idx as int, v)
    } else {
        &&& idx == pre.names().len()
        &&& post.names() == pre.names().push(n)
        &&& post.resources() == pre.resources().push(v)
    }
}

/// Law: a slot-only handle for slot `i` and a name-only handle for the
/// name at slot `i` resolve to the same slot, hence to the same resource.
/// In particular, the handle an insertion returns and a handle built from
/// the inserted name alone agree.
pub proof fn lemma_slot_and_name_resolve_alike<T>(
    p: Pool<T>,
    slot_ref: AssetRef,
    name_ref: AssetRef,
    i: usize,
)
    requires
        p.wf(),
        i < p.names().len(),
        slot_ref.id == Some(i),
        name_ref.id is None,
        name_ref.name is Some,
        name_ref.name->0@ == p.names()[i as int],
    ensures
        p.resolve_spec(slot_ref) == Ok::<int, Error>(i as int),
        p.resolve_spec(name_ref) == Ok::<int, Error>(i as int),
{
    p.lemma_index_of_unique(name_ref.name->0@, i as int);
}

/// Law: after an insertion under name `n` returned slot `idx`, a handle
/// carrying that slot and a handle carrying that name alone resolve to
/// the same entry — the one just inserted, which holds `v`.
pub proof fn lemma_insert_resolves_alike<T>(
    pre: Pool<T>,
    post: Pool<T>,
    n: Seq<char>,
    v: T,
    idx: usize,
    slot_ref: AssetRef,
    name_ref: AssetRef,
)
    requires
        pre.wf(),
        post.wf(),
        insert_post(pre, post, n, v, idx),
        slot_ref.id == Some(idx),
        name_ref.id is None,
        name_ref.name is Some,
        name_ref.name->0@ == n,
    ensures
        post.resolve_spec(slot_ref) == Ok::<int, Error>(idx as int),
        post.resolve_spec(name_ref) == Ok::<int, Error>(idx as int),
        post.resources()[idx as int] == v,
{
    if pre.contains_name(n) {
        let k = choose|i: int| 0 <= i < pre.names().len() && pre.names()[i] == n;
        assert(pre.names()[k] == n);
        pre.lemma_index_of_unique(n, k);
    }
    lemma_slot_and_name_resolve_alike(post, slot_ref, name_ref, idx);
}

/// Law: resolving a handle with neither slot nor name fails with
/// `NullReference`, whatever the pool holds.
pub proof fn lemma_empty_handle_is_null<T>(p: Pool<T>, target: AssetRef)
    requires
        p.wf(),
        target.id is None,
        target.name is None,
    ensures
        p.resolve_spec(target) == Err::<int, Error>(Error::NullReference),
{
}

/// Law: resolving a slotless handle whose name was never inserted fails
/// with `AssetNotFound`.
pub proof fn lemma_unknown_name_not_found<T>(p: Pool<T>, target: AssetRef)
    requires
        p.wf(),
        target.id is None,
        target.name is Some,
        !p.contains_name(target.name->0@),
    ensures
        p.resolve_spec(target) == Err::<int, Error>(Error::AssetNotFound),
{
}

} // verus!
