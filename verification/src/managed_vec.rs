//! A dense, growable sequence of optional slots with stable indices.
//!
//! Each occupied slot holds one element; a removal frees the slot and a
//! later insertion reuses the lowest free index before the backing vector
//! grows. Indices can therefore be cached elsewhere as cheap pointers and
//! stay valid until the element they name is removed.

use vstd::prelude::*;

verus! {

/// Width of a stable index. An 8-bit index caps the registry at
/// [`MAX_SLOTS`] concurrently live-or-reserved slots.
pub type ManagedVecUSize = u8;

/// Most slots a registry can hold at once: every index and the live count
/// must fit in a `ManagedVecUSize`.
pub const MAX_SLOTS: usize = 255;

/// A value stored in a [`ManagedVec`] carries a field holding the index the
/// registry assigned to it (absent until inserted). The registry is the sole
/// writer of that field; all other code treats it as a read-only cached
/// location.
pub trait ManagedElement: Sized {
    /// The index the element currently reports, as specifications see it.
    spec fn idx_spec(&self) -> Option<ManagedVecUSize>;

    /// The element with its index field set to `index` and all else unchanged.
    spec fn with_idx(self, index: Option<ManagedVecUSize>) -> Self;

    /// Law: after setting the index field, exactly that index is reported.
    proof fn lemma_with_idx(self, index: Option<ManagedVecUSize>)
        ensures
            self.with_idx(index).idx_spec() == index,
    ;

    /// Read the element's self-reported index.
    fn idx(&self) -> (r: Option<ManagedVecUSize>)
        ensures
            r == self.idx_spec(),
    ;

    /// Overwrite the index field. Only a [`ManagedVec`] may call this.
    fn set_idx(&mut self, index: Option<ManagedVecUSize>)
        ensures
            *final(self) == (*old(self)).with_idx(index),
    ;
}

/// How many slots of `s` hold a live element.
pub open spec fn count_live<T>(s: Seq<Option<T>>) -> nat
    decreases s.len(),
{
    if s.len() == 0 {
        0
    } else {
        count_live(s.drop_last()) + (if s.last() is Some {
            1nat
        } else {
            0nat
        })
    }
}

/// `s` with every trailing free slot removed.
pub open spec fn trim_trailing<T>(s: Seq<Option<T>>) -> Seq<Option<T>>
    decreases s.len(),
{
    if s.len() > 0 && s.last() is None {
        trim_trailing(s.drop_last())
    } else {
        s
    }
}

/// The live (index, element) pairs of `s`, in ascending index order.
pub open spec fn live_pairs<T>(s: Seq<Option<T>>) -> Seq<(int, T)>
    decreases s.len(),
{
    if s.len() == 0 {
        Seq::empty()
    } else if s.last() is Some {
        live_pairs(s.drop_last()).push((s.len() - 1, s.last()->0))
    } else {
        live_pairs(s.drop_last())
    }
}

proof fn lemma_count_live_update<T>(s: Seq<Option<T>>, i: int, v: Option<T>)
    requires
        0 <= i < s.len(),
    ensures
        count_live(s.update(i, v)) + (if s[i] is Some {
            1int
        } else {
            0int
        }) == count_live(s) + (if v is Some {
            1int
        } else {
            0int
        }),
    decreases s.len(),
{
    let t = s.update(i, v);
    if i == s.len() - 1 {
        assert(t.drop_last() =~= s.drop_last());
        assert(t.last() == v);
    } else {
        lemma_count_live_update(s.drop_last(), i, v);
        assert(t.drop_last() =~= s.drop_last().update(i, v));
        assert(t.last() == s.last());
    }
}

proof fn lemma_count_live_le<T>(s: Seq<Option<T>>)
    ensures
        count_live(s) <= s.len(),
    decreases s.len(),
{
    if s.len() > 0 {
        lemma_count_live_le(s.drop_last());
    }
}

proof fn lemma_count_live_below<T>(s: Seq<Option<T>>, i: int)
    requires
        0 <= i < s.len(),
        s[i] is None,
    ensures
        count_live(s) < s.len(),
    decreases s.len(),
{
    if i == s.len() - 1 {
        lemma_count_live_le(s.drop_last());
    } else {
        lemma_count_live_below(s.drop_last(), i);
    }
}

proof fn lemma_count_live_full<T>(s: Seq<Option<T>>)
    requires
        forall|k: int| 0 <= k < s.len() ==> (#[trigger] s[k]) is Some,
    ensures
        count_live(s) == s.len(),
    decreases s.len(),
{
    if s.len() > 0 {
        lemma_count_live_full(s.drop_last());
    }
}

proof fn lemma_trim_trailing<T>(s: Seq<Option<T>>)
    ensures
        trim_trailing(s).len() <= s.len(),
        forall|j: int|
            0 <= j < trim_trailing(s).len() ==> #[trigger] trim_trailing(s)[j] == s[j],
        forall|j: int| trim_trailing(s).len() <= j < s.len() ==> (#[trigger] s[j]) is None,
        trim_trailing(s).len() > 0 ==> trim_trailing(s).last() is Some,
        count_live(trim_trailing(s)) == count_live(s),
    decreases s.len(),
{
    if s.len() > 0 && s.last() is None {
        lemma_trim_trailing(s.drop_last());
        assert forall|j: int| trim_trailing(s).len() <= j < s.len() implies (#[trigger] s[j]) is None by {
            if j < s.len() - 1 {
                assert(s.drop_last()[j] is None);
            }
        }
    }
}

proof fn lemma_live_pairs_step<T>(s: Seq<Option<T>>, i: int)
    requires
        0 <= i < s.len(),
    ensures
        live_pairs(s.take(i + 1)) == if s[i] is Some {
            live_pairs(s.take(i)).push((i, s[i]->0))
        } else {
            live_pairs(s.take(i))
        },
{
    assert(s.take(i + 1).drop_last() =~= s.take(i));
    assert(s.take(i + 1).last() == s[i]);
}

/// Stable-index storage: a vector of optional slots plus a live count.
///
/// Viewed as the sequence of its slots (`self@`), each either holding an
/// element or free.
pub struct ManagedVec<T> {
    data: Vec<Option<T>>,
    some_len: ManagedVecUSize,
}

impl<T> View for ManagedVec<T> {
    type V = Seq<Option<T>>;

    closed spec fn view(&self) -> Seq<Option<T>> {
        self.data@
    }
}

impl<T: ManagedElement> ManagedVec<T> {
    /// The registry's invariant: the backing vector never exceeds
    /// [`MAX_SLOTS`] slots, the stored count equals the number of live
    /// elements, every live element reports its own slot position, and no
    /// free slot lingers at the tail.
    pub closed spec fn wf(&self) -> bool {
        &&& self.data@.len() <= MAX_SLOTS
        &&& self.some_len as nat == count_live(self.data@)
        &&& forall|i: int|
            0 <= i < self.data@.len() && self.data@[i] is Some
                ==> (#[trigger] self.data@[i])->0.idx_spec() == Some(i as ManagedVecUSize)
        &&& self.data@.len() > 0 ==> self.data@.last() is Some
    }

    /// A fresh, empty registry.
    pub fn new() -> (r: Self)
        ensures
            r.wf(),
            r@ == Seq::<Option<T>>::empty(),
    {
        Self { data: Vec::new(), some_len: 0 }
    }

    /// The count of currently live elements (free slots excluded).
    pub fn len(&self) -> (r: ManagedVecUSize)
        requires
            self.wf(),
        ensures
            r as nat == count_live(self@),
    {
        self.some_len
    }

    /// Whether no element is currently live.
    pub fn is_empty(&self) -> (r: bool)
        requires
            self.wf(),
        ensures
            r <==> count_live(self@) == 0,
    {
        self.some_len == 0
    }

    /// Insert `value`, reusing the lowest-indexed free slot before growing
    /// the backing vector, and return the stable index it received. The
    /// element's index field is set as a side effect. Fails exactly when
    /// [`MAX_SLOTS`] elements are already live, leaving the registry
    /// untouched.
    pub fn push(&mut self, value: T) -> (r: Option<ManagedVecUSize>)
        requires
            old(self).wf(),
        ensures
            final(self).wf(),
            r is Some <==> count_live(old(self)@) < MAX_SLOTS,
            r is None ==> final(self)@ == old(self)@,
            r matches Some(i) ==> {
                &&& i <= old(self)@.len()
                &&& forall|k: int| 0 <= k < i ==> (#[trigger] old(self)@[k]) is Some
                &&& i < old(self)@.len() ==> old(self)@[i as int] is None && final(self)@
                    == old(self)@.update(i as int, Some(value.with_idx(Some(i))))
                &&& i == old(self)@.len() ==> final(self)@ == old(self)@.push(
                    Some(value.with_idx(Some(i))),
                )
                &&& count_live(final(self)@) == count_live(old(self)@) + 1
            },
    {
        let mut value = value;
        let mut i: usize = 0;
        while i < self.data.len() && self.data[i].is_some()
            invariant
                self.wf(),
                i <= self.data@.len(),
                forall|k: int| 0 <= k < i ==> (#[trigger] self.data@[k]) is Some,
            decreases self.data@.len() - i,
        {
            i += 1;
        }
        if i < self.data.len() {
            proof {
                lemma_count_live_below(self.data@, i as int);
                value.lemma_with_idx(Some(i as ManagedVecUSize));
                lemma_count_live_update(
                    self.data@,
                    i as int,
                    Some(value.with_idx(Some(i as ManagedVecUSize))),
                );
            }
            value.set_idx(Some(i as ManagedVecUSize));
            self.data[i] = Some(value);
            self.some_len = self.some_len + 1;
            Some(i as ManagedVecUSize)
        } else if self.data.len() < MAX_SLOTS {
            let idx = self.data.len();
            proof {
                lemma_count_live_le(self.data@);
                value.lemma_with_idx(Some(idx as ManagedVecUSize));
            }
            value.set_idx(Some(idx as ManagedVecUSize));
            self.data.push(Some(value));
            proof {
                assert(self.data@.drop_last() =~= old(self)@);
            }
            self.some_len = self.some_len + 1;
            Some(idx as ManagedVecUSize)
        } else {
            proof {
                lemma_count_live_full(self.data@);
            }
            None
        }
    }

    /// Free the slot at `index` and hand its element back with the
    /// element's index field cleared; trailing free slots are trimmed so
    /// the backing vector keeps no empty tail. Removing an already-free or
    /// out-of-range index is a no-op returning an absent result.
    pub fn remove(&mut self, index: ManagedVecUSize) -> (r: Option<T>)
        requires
            old(self).wf(),
        ensures
            final(self).wf(),
            r is Some <==> index < old(self)@.len() && old(self)@[index as int] is Some,
            r is None ==> final(self)@ == old(self)@,
            r matches Some(e) ==> {
                &&& e == old(self)@[index as int]->0.with_idx(None)
                &&& e.idx_spec() is None
                &&& final(self)@ == trim_trailing(old(self)@.update(index as int, None))
                &&& count_live(final(self)@) + 1 == count_live(old(self)@)
            },
    {
        let i = index as usize;
        if i >= self.data.len() {
            return None;
        }
        let cell = self.data[i].take();
        match cell {
            None => {
                proof {
                    assert(self.data@ =~= old(self)@);
                }
                None
            },
            Some(mut v) => {
                let ghost orig = old(self)@;
                let ghost cleared = orig.update(i as int, None);
                proof {
                    lemma_count_live_update(orig, i as int, None);
                    lemma_trim_trailing(cleared);
                    v.lemma_with_idx(None);
                }
                while self.data.len() > 0 && self.data[self.data.len() - 1].is_none()
                    invariant
                        trim_trailing(self.data@) == trim_trailing(cleared),
                        count_live(self.data@) == count_live(cleared),
                        self.data@.len() <= cleared.len(),
                        self.some_len as nat == count_live(cleared) + 1,
                        forall|j: int|
                            0 <= j < self.data@.len() ==> #[trigger] self.data@[j] == cleared[j],
                    decreases self.data@.len(),
                {
                    self.data.pop();
                }
                self.some_len = self.some_len - 1;
                v.set_idx(None);
                Some(v)
            },
        }
    }

    /// Direct mutable access by stable index: the borrow reaches the stored
    /// element itself. An out-of-range or free index yields an absent
    /// result, never a fault. The caller must leave the element's index
    /// field as found for the registry to stay well formed.
    pub fn get_mut(&mut self, index: ManagedVecUSize) -> (r: Option<&mut T>)
        requires
            old(self).wf(),
        ensures
            match r {
                Some(e) => {
                    &&& index < old(self)@.len() && old(self)@[index as int] is Some
                    &&& *e == old(self)@[index as int]->0
                    &&& final(self)@ == old(self)@.update(index as int, Some(*final(e)))
                    &&& ((*final(e)).idx_spec() == Some(index) ==> final(self).wf())
                },
                None => {
                    &&& !(index < old(self)@.len() && old(self)@[index as int] is Some)
                    &&& final(self)@ == old(self)@
                    &&& final(self).wf()
                },
            },
    {
        let i = index as usize;
        if i < self.data.len() {
            if self.data[i].is_some() {
                match &mut self.data[i] {
                    Some(e) => {
                        proof {
                            lemma_count_live_update(old(self)@, i as int, Some(*final(e)));
                        }
                        Some(e)
                    },
                    None => None,
                }
            } else {
                None
            }
        } else {
            None
        }
    }

    /// Direct read access by stable index. An out-of-range or free index
    /// yields an absent result, never a fault.
    pub fn get(&self, index: ManagedVecUSize) -> (r: Option<&T>)
        ensures
            match r {
                Some(e) => index < self@.len() && self@[index as int] == Some(*e),
                None => !(index < self@.len() && self@[index as int] is Some),
            },
    {
        let i = index as usize;
        if i < self.data.len() {
            match &self.data[i] {
                Some(e) => Some(e),
                None => None,
            }
        } else {
            None
        }
    }

    /// The live (index, element) pairs in ascending index order, borrowed
    /// from the registry. The pair count always matches `len()`.
    pub fn iter(&self) -> (r: Vec<(ManagedVecUSize, &T)>)
        requires
            self.wf(),
        ensures
            r@.len() == live_pairs(self@).len(),
            forall|k: int|
                0 <= k < r@.len() ==> (#[trigger] r@[k]).0 as int == live_pairs(self@)[k].0
                    && *r@[k].1 == live_pairs(self@)[k].1,
    {
        let mut out: Vec<(ManagedVecUSize, &T)> = Vec::new();
        let mut i: usize = 0;
        while i < self.data.len()
            invariant
                i <= self.data@.len(),
                self.data@.len() <= MAX_SLOTS,
                out@.len() == live_pairs(self.data@.take(i as int)).len(),
                forall|k: int|
                    0 <= k < out@.len() ==> (#[trigger] out@[k]).0 as int == live_pairs(
                        self.data@.take(i as int),
                    )[k].0 && *out@[k].1 == live_pairs(self.data@.take(i as int))[k].1,
            decreases self.data@.len() - i,
        {
            proof {
                lemma_live_pairs_step(self.data@, i as int);
            }
            match &self.data[i] {
                Some(e) => { out.push((i as ManagedVecUSize, e)) },
                None => {},
            }
            i += 1;
        }
        proof {
            assert(self.data@.take(self.data@.len() as int) =~= self.data@);
        }
        out
    }

    /// The live indices in ascending order: the order a mutable walk of the
    /// registry visits its elements through `get_mut`.
    pub fn iter_mut(&mut self) -> (r: Vec<ManagedVecUSize>)
        requires
            old(self).wf(),
        ensures
            *final(self) == *old(self),
            r@.len() == live_pairs(old(self)@).len(),
            forall|k: int|
                0 <= k < r@.len() ==> (#[trigger] r@[k]) as int == live_pairs(old(self)@)[k].0,
    {
        let mut out: Vec<ManagedVecUSize> = Vec::new();
        let mut i: usize = 0;
        while i < self.data.len()
            invariant
                *self == *old(self),
                i <= self.data@.len(),
                self.data@.len() <= MAX_SLOTS,
                out@.len() == live_pairs(self.data@.take(i as int)).len(),
                forall|k: int|
                    0 <= k < out@.len() ==> (#[trigger] out@[k]) as int == live_pairs(
                        self.data@.take(i as int),
                    )[k].0,
            decreases self.data@.len() - i,
        {
            proof {
                lemma_live_pairs_step(self.data@, i as int);
            }
            if self.data[i].is_some() {
                out.push(i as ManagedVecUSize);
            }
            i += 1;
        }
        proof {
            assert(self.data@.take(self.data@.len() as int) =~= self.data@);
        }
        out
    }

    /// Consume the registry, yielding the live (index, element) pairs in
    /// ascending index order.
    pub fn into_iter(self) -> (r: Vec<(ManagedVecUSize, T)>)
        requires
            self.wf(),
        ensures
            r@.len() == live_pairs(self@).len(),
            forall|k: int|
                0 <= k < r@.len() ==> (#[trigger] r@[k]).0 as int == live_pairs(self@)[k].0
                    && r@[k].1 == live_pairs(self@)[k].1,
    {
        let ghost s = self@;
        let mut this = self;
        let mut out: Vec<(ManagedVecUSize, T)> = Vec::new();
        let mut i: usize = 0;
        while this.data.len() > 0
            invariant
                i + this.data@.len() == s.len(),
                s.len() <= MAX_SLOTS,
                this.data@ == s.skip(i as int),
                out@.len() == live_pairs(s.take(i as int)).len(),
                forall|k: int|
                    0 <= k < out@.len() ==> (#[trigger] out@[k]).0 as int == live_pairs(
                        s.take(i as int),
                    )[k].0 && out@[k].1 == live_pairs(s.take(i as int))[k].1,
            decreases this.data@.len(),
        {
            proof {
                lemma_live_pairs_step(s, i as int);
                assert(s.skip(i as int)[0] == s[i as int]);
            }
            let cell = this.data.remove(0);
            proof {
                assert(this.data@ =~= s.skip(i as int + 1));
            }
            match cell {
                Some(e) => { out.push((i as ManagedVecUSize, e)) },
                None => {},
            }
            i += 1;
        }
        proof {
            assert(s.take(s.len() as int) =~= s);
            assert(i == s.len());
        }
        out
    }
}

impl<T: ManagedElement> Default for ManagedVec<T> {
    /// An empty registry, as `new` builds it.
    fn default() -> (r: Self)
        ensures
            r.wf(),
            r@ == Seq::<Option<T>>::empty(),
    {
        Self::new()
    }
}

/// Law: a well-formed registry keeps no free slot at its tail — whenever
/// any slot exists, the backing sequence's length is one more than the
/// highest live index.
pub proof fn lemma_no_trailing_free<T: ManagedElement>(v: &ManagedVec<T>)
    requires
        v.wf(),
    ensures
        v@.len() > 0 ==> v@[v@.len() - 1] is Some,
        forall|j: int| 0 <= j < v@.len() && (#[trigger] v@[j]) is Some ==> j <= v@.len() - 1,
{
}

/// Law: a successful removal leaves the removed slot reading as absent,
/// whatever trailing trim it triggered.
pub proof fn lemma_removed_slot_absent<T>(s: Seq<Option<T>>, i: int)
    requires
        0 <= i < s.len(),
    ensures
        ({
            let t = trim_trailing(s.update(i, None));
            !(i < t.len() && t[i] is Some)
        }),
{
    lemma_trim_trailing(s.update(i, None));
}

/// Law: removing one index leaves every other live slot in place, trim
/// included — a stable index stays valid until its own element is
/// removed.
pub proof fn lemma_remove_keeps_others<T>(s: Seq<Option<T>>, i: int, j: int)
    requires
        0 <= i < s.len(),
        0 <= j < s.len(),
        i != j,
        s[j] is Some,
    ensures
        ({
            let t = trim_trailing(s.update(i, None));
            j < t.len() && t[j] == s[j]
        }),
{
    lemma_trim_trailing(s.update(i, None));
    let t = trim_trailing(s.update(i, None));
    if j >= t.len() {
        assert(s.update(i, None)[j] is None);
        assert(false);
    }
}

/// Law: the live pairs of a slot sequence are exactly its live slots —
/// their count is the live count, their indices ascend, and every live
/// slot appears among them.
pub proof fn lemma_live_pairs_exact<T>(s: Seq<Option<T>>)
    ensures
        live_pairs(s).len() == count_live(s),
        forall|k: int|
            0 <= k < live_pairs(s).len() ==> {
                let p = #[trigger] live_pairs(s)[k];
                0 <= p.0 < s.len() && s[p.0] == Some(p.1)
            },
        forall|k1: int, k2: int|
            0 <= k1 < k2 < live_pairs(s).len() ==> live_pairs(s)[k1].0 < live_pairs(s)[k2].0,
        forall|i: int|
            0 <= i < s.len() && (#[trigger] s[i]) is Some ==> exists|k: int|
                0 <= k < live_pairs(s).len() && live_pairs(s)[k] == (i, s[i]->0),
    decreases s.len(),
{
    if s.len() > 0 {
        let d = s.drop_last();
        lemma_live_pairs_exact(d);
        assert forall|i: int| 0 <= i < s.len() && (#[trigger] s[i]) is Some implies exists|k: int|
            0 <= k < live_pairs(s).len() && live_pairs(s)[k] == (i, s[i]->0) by {
            if i < s.len() - 1 {
                assert(d[i] is Some);
                let k = choose|k: int|
                    0 <= k < live_pairs(d).len() && live_pairs(d)[k] == (i, d[i]->0);
                assert(live_pairs(s)[k] == (i, s[i]->0));
            } else {
                assert(live_pairs(s)[live_pairs(s).len() - 1] == (i, s[i]->0));
            }
        }
    }
}

/// A minimal stored element: a numeric payload beside the index slot that
/// the registry manages. The canonical `ManagedElement` implementation.
pub struct SlotValue {
    idx: Option<ManagedVecUSize>,
    value: u64,
}

impl SlotValue {
    /// The payload carried by this element, as specifications see it.
    pub closed spec fn spec_value(&self) -> u64 {
        self.value
    }

    /// A fresh element that has not been inserted anywhere yet.
    pub fn new(value: u64) -> (r: Self)
        ensures
            r.idx_spec() is None,
            r.spec_value() == value,
    {
        Self { idx: None, value }
    }

    /// Read the payload.
    pub fn value(&self) -> (r: u64)
        ensures
            r == self.spec_value(),
    {
        self.value
    }

    /// Replace the payload, leaving the index field untouched — the shape
    /// of mutation a registry caller may perform through `get_mut`.
    pub fn set_value(&mut self, value: u64)
        ensures
            final(self).spec_value() == value,
            final(self).idx_spec() == old(self).idx_spec(),
    {
        self.value = value;
    }
}

impl ManagedElement for SlotValue {
    closed spec fn idx_spec(&self) -> Option<ManagedVecUSize> {
        self.idx
    }

    closed spec fn with_idx(self, index: Option<ManagedVecUSize>) -> Self {
        SlotValue { idx: index, value: self.value }
    }

    proof fn lemma_with_idx(self, index: Option<ManagedVecUSize>) {
    }

    fn idx(&self) -> (r: Option<ManagedVecUSize>) {
        self.idx
    }

    fn set_idx(&mut self, index: Option<ManagedVecUSize>) {
        self.idx = index;
    }
}

/// Law: moving a `SlotValue` between slots never changes its payload.
pub proof fn lemma_slot_value_payload(v: SlotValue, index: Option<ManagedVecUSize>)
    ensures
        v.with_idx(index).spec_value() == v.spec_value(),
{
}

} // verus!
