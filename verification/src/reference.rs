//! Non-owning references into the storage of a context.

use core::marker::PhantomData;
use vstd::prelude::*;

verus! {

/// The slot number that no definition ever occupies: a reference that carries
/// it refers to nothing.
pub const NULL_SLOT: u32 = 0xffff_ffff;

/// The identity of one context, and so of the instance that owns it.
#[derive(Debug, Clone, Copy, PartialEq, Eq, Hash, Structural)]
pub struct ContextId {
    pub raw: u64,
}

/// A non-owning, possibly null reference to the `T` that a context keeps in
/// one of its slots.
///
/// The reference neither extends the life of the storage nor can it free or
/// move it: it is valid exactly as long as the owning context is alive, and
/// reading through it always goes to the context.
#[derive(Debug, PartialEq, Eq)]
pub struct SlotRef<T> {
    pub context: ContextId,
    pub slot: u32,
    pub marker: PhantomData<T>,
}

impl<T> Clone for SlotRef<T> {
    fn clone(&self) -> (r: Self)
        ensures
            r == *self,
    {
        SlotRef { context: self.context, slot: self.slot, marker: PhantomData }
    }
}

impl<T> Copy for SlotRef<T> {

}

impl<T> SlotRef<T> {
    /// The reference to slot `slot` of the context `context`.
    pub open spec fn at(context: ContextId, slot: u32) -> Self {
        SlotRef { context, slot, marker: PhantomData }
    }

    /// Whether the reference refers to nothing.
    pub open spec fn is_null_spec(&self) -> bool {
        self.slot == NULL_SLOT
    }

    /// The reference to slot `slot` of the context `context`. With
    /// `NULL_SLOT` for the slot it is a null reference.
    pub fn new(context: ContextId, slot: u32) -> (r: Self)
        ensures
            r == Self::at(context, slot),
    {
        SlotRef { context, slot, marker: PhantomData }
    }

    /// The null reference that names no context.
    pub fn null() -> (r: Self)
        ensures
            r == Self::at(ContextId { raw: 0 }, NULL_SLOT),
            r.is_null(),
    {
        SlotRef { context: ContextId { raw: 0 }, slot: NULL_SLOT, marker: PhantomData }
    }

    /// Tells whether the reference refers to nothing.
    #[verifier::when_used_as_spec(is_null_spec)]
    pub fn is_null(&self) -> (r: bool)
        ensures
            r == self.is_null_spec(),
    {
        self.slot == NULL_SLOT
    }
}

/// A reference that is never null: the one thing that a function export
/// holds. It is made from a reference by [`NonNullSlotRef::new`] and in no
/// other way.
#[derive(Debug, PartialEq, Eq)]
pub struct NonNullSlotRef<T> {
    raw: SlotRef<T>,
}

impl<T> Clone for NonNullSlotRef<T> {
    fn clone(&self) -> (r: Self)
        ensures
            r == *self,
    {
        proof {
            use_type_invariant(self);
        }
        NonNullSlotRef { raw: self.raw }
    }
}

impl<T> Copy for NonNullSlotRef<T> {

}

impl<T> View for NonNullSlotRef<T> {
    type V = SlotRef<T>;

    closed spec fn view(&self) -> SlotRef<T> {
        self.raw
    }
}

impl<T> NonNullSlotRef<T> {
    #[verifier::type_invariant]
    spec fn non_null(&self) -> bool {
        !self.raw.is_null()
    }

    /// Accepts every reference but the null one.
    pub fn new(raw: SlotRef<T>) -> (r: Option<Self>)
        ensures
            raw.is_null() <==> r is None,
            r matches Some(nn) ==> nn@ == raw,
    {
        if raw.is_null() {
            None
        } else {
            Some(NonNullSlotRef { raw })
        }
    }

    /// The reference itself, which is not null.
    pub fn as_raw(&self) -> (r: SlotRef<T>)
        ensures
            r == self@,
            !r.is_null(),
    {
        proof {
            use_type_invariant(self);
        }
        self.raw
    }
}

} // verus!
