//! A fixed-capacity box: a container that stores a payload of type `T`
//! either inline or behind a heap allocation, chosen once at the type
//! level by comparing `T`'s size against the size of a capacity marker
//! type. The choice is a pure function of the two types: every instance
//! of one instantiation uses the same storage branch.

use vstd::prelude::*;
use core::marker::PhantomData;
use vstd::std_specs::cmp::{PartialEqSpec, PartialOrdSpec};

verus! {

/// The type-level storage decision: a payload goes to the heap exactly
/// when it is strictly larger than the capacity type. Payloads whose
/// size equals the capacity stay inline.
pub open spec fn spec_is_heap<T, SizeT>() -> bool {
    vstd::layout::size_of::<T>() > vstd::layout::size_of::<SizeT>()
}

/// The two storage branches. Which one is active never varies at
/// runtime: it is pinned to `spec_is_heap` by the container's type
/// invariant.
enum Storage<T> {
    Heap(Box<T>),
    Local(T),
}

impl<T> Storage<T> {
    /// The payload held by either branch.
    spec fn payload(self) -> T {
        match self {
            Storage::Heap(b) => *b,
            Storage::Local(t) => t,
        }
    }
}

/// Exclusive access to the payload of either branch. The branch itself
/// is left as it was: only the payload behind it can change.
fn payload_mut<T>(s: &mut Storage<T>) -> (r: &mut T)
    ensures
        *r == old(s).payload(),
        final(s).payload() == *final(r),
        (*final(s) is Heap) == (*old(s) is Heap),
    no_unwind
{
    match s {
        Storage::Heap(b) => &mut **b,
        Storage::Local(t) => t,
    }
}

/// A container for a `T` whose storage strategy is fixed by the type
/// pair `T`/`SizeT`: payloads no larger than `SizeT` live inline,
/// larger ones live in a single owned heap allocation.
pub struct LocalOrHeap<T, SizeT = [u8; 16]> {
    storage: Storage<T>,
    capacity: PhantomData<SizeT>,
}

impl<T, SizeT> View for LocalOrHeap<T, SizeT> {
    type V = T;

    /// The abstract value of the container is the payload itself,
    /// whichever branch holds it.
    closed spec fn view(&self) -> T {
        self.storage.payload()
    }
}

impl<T, SizeT> LocalOrHeap<T, SizeT> {
    /// The central invariant: the active branch is the one that the
    /// type-level size comparison designates, for every instance.
    #[verifier::type_invariant]
    spec fn branch_matches_strategy(self) -> bool {
        (self.storage is Heap) == spec_is_heap::<T, SizeT>()
    }

    /// Whether the heap branch holds the payload of this instance.
    pub closed spec fn uses_heap_storage(&self) -> bool {
        self.storage is Heap
    }

    /// Returns `true` if this instantiation stores its payload on the
    /// heap. A pure function of the two types: it returns the same
    /// answer on every call.
    pub fn is_heap() -> (r: bool)
        ensures
            r == spec_is_heap::<T, SizeT>(),
    {
        core::mem::size_of::<T>() > core::mem::size_of::<SizeT>()
    }

    /// Creates a new `LocalOrHeap` holding the provided value: the
    /// payload is moved to the heap when the strategy says so, and
    /// placed inline otherwise.
    pub fn new(val: T) -> (result: Self)
        ensures
            result@ == val,
            result.uses_heap_storage() == spec_is_heap::<T, SizeT>(),
    {
        if Self::is_heap() {
            LocalOrHeap { storage: Storage::Heap(Box::new(val)), capacity: PhantomData }
        } else {
            LocalOrHeap { storage: Storage::Local(val), capacity: PhantomData }
        }
    }

    /// Consumes the `LocalOrHeap`, returning the contained value. The
    /// heap branch gives up its allocation; either way exactly one
    /// payload value leaves the container.
    pub fn into_inner(this: Self) -> (t: T)
        ensures
            t == this@,
    {
        match this.storage {
            Storage::Heap(b) => *b,
            Storage::Local(t) => t,
        }
    }

    /// Exposes a plain reference to the payload, wherever it lives.
    pub fn as_ref(&self) -> (r: &T)
        ensures
            *r == self@,
    {
        match &self.storage {
            Storage::Heap(b) => &**b,
            Storage::Local(t) => t,
        }
    }
}

impl<T, SizeT> core::ops::Deref for LocalOrHeap<T, SizeT> {
    type Target = T;

    /// Borrows the payload through whichever branch is active, with no
    /// copying.
    fn deref(&self) -> (r: &T)
        ensures
            *r == self@,
    {
        match &self.storage {
            Storage::Heap(b) => &**b,
            Storage::Local(t) => t,
        }
    }
}

impl<T, SizeT> core::ops::DerefMut for LocalOrHeap<T, SizeT> {
    /// Borrows the payload exclusively, permitting in-place mutation
    /// regardless of the storage branch; the container's final value is
    /// whatever the caller leaves behind the returned reference.
    fn deref_mut(&mut self) -> (r: &mut T)
        ensures
            *r == old(self)@,
            final(self)@ == *final(r),
    {
        proof {
            use_type_invariant(&*self);
        }
        payload_mut(&mut self.storage)
    }
}

impl<T: Clone, SizeT> Clone for LocalOrHeap<T, SizeT> {
    /// Clones the payload and packs the clone into a new, independent
    /// container: a fresh allocation on the heap branch, a fresh inline
    /// copy otherwise — never an alias of this one.
    fn clone(&self) -> (r: Self)
        ensures
            cloned::<T>(self@, r@),
            r.uses_heap_storage() == spec_is_heap::<T, SizeT>(),
    {
        let t: T = self.as_ref().clone();
        Self::new(t)
    }
}

impl<T: PartialEq, SizeT> PartialEq for LocalOrHeap<T, SizeT> {
    /// Equality delegates structurally to the payload.
    fn eq(&self, other: &Self) -> (r: bool) {
        self.as_ref().eq(other.as_ref())
    }
}

impl<T: PartialEq, SizeT> vstd::std_specs::cmp::PartialEqSpecImpl for LocalOrHeap<T, SizeT> {
    open spec fn obeys_eq_spec() -> bool {
        <T as PartialEqSpec>::obeys_eq_spec()
    }

    open spec fn eq_spec(&self, other: &Self) -> bool {
        <T as PartialEqSpec>::eq_spec(&self@, &other@)
    }
}

impl<T: Eq, SizeT> Eq for LocalOrHeap<T, SizeT> {
}

impl<T: PartialOrd, SizeT> PartialOrd for LocalOrHeap<T, SizeT> {
    /// Ordering delegates structurally to the payload.
    fn partial_cmp(&self, other: &Self) -> (r: Option<core::cmp::Ordering>) {
        self.as_ref().partial_cmp(other.as_ref())
    }

    fn lt(&self, other: &Self) -> (r: bool) {
        self.as_ref().lt(other.as_ref())
    }

    fn le(&self, other: &Self) -> (r: bool) {
        self.as_ref().le(other.as_ref())
    }

    fn ge(&self, other: &Self) -> (r: bool) {
        self.as_ref().ge(other.as_ref())
    }

    fn gt(&self, other: &Self) -> (r: bool) {
        self.as_ref().gt(other.as_ref())
    }
}

impl<T: PartialOrd, SizeT> vstd::std_specs::cmp::PartialOrdSpecImpl for LocalOrHeap<T, SizeT> {
    open spec fn obeys_partial_cmp_spec() -> bool {
        <T as PartialOrdSpec>::obeys_partial_cmp_spec()
    }

    open spec fn partial_cmp_spec(&self, other: &Self) -> Option<core::cmp::Ordering> {
        <T as PartialOrdSpec>::partial_cmp_spec(&self@, &other@)
    }
}

} // verus!
