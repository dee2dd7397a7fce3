//! The erased value box and its checked accessors.

use crate::tag::AnyTag;
use vstd::prelude::*;
use vstd::string::StringExecFns;

verus! {

/// An erased value box: a value paired with the runtime identity of the
/// concrete type it was constructed from.
///
/// The identity is recorded exactly once, by [`AnyOf::new`], and nothing can
/// change it afterwards: the fields are private, the constructor derives the
/// identity solely from its type parameter, and every mutating accessor
/// leaves it untouched. A downcast hands the stored value back only when the
/// requested type's token equals the recorded one, and refuses otherwise.
pub struct AnyOf<T> {
    id: u64,
    value: T,
}

impl<T> AnyOf<T> {
    /// The identity token recorded at construction.
    pub closed spec fn spec_id(self) -> u64 {
        self.id
    }

    /// The stored value.
    pub closed spec fn spec_value(self) -> T {
        self.value
    }

    /// The box as it stands once its value is replaced by `v`: the recorded
    /// identity is untouched. Both mutating accessors leave the box in
    /// exactly this state.
    pub closed spec fn with_value(self, v: T) -> AnyOf<T> {
        AnyOf { id: self.id, value: v }
    }

    /// True of the box exactly when the token of `U` equals the recorded
    /// identity: the meaning of every identity query and downcast.
    pub open spec fn is_spec<U: AnyTag>(self) -> bool {
        self.spec_id() == U::token_spec()
    }

    /// What a downcast to `U` yields: the stored value on a matching token,
    /// nothing otherwise.
    pub open spec fn downcast_spec<U: AnyTag>(self) -> Option<T> {
        if self.is_spec::<U>() {
            Some(self.spec_value())
        } else {
            None
        }
    }

    /// Returns whether the box was constructed from the type `U`: true
    /// exactly when `U`'s token equals the recorded identity.
    pub fn is<U: AnyTag>(&self) -> (r: bool)
        ensures
            r == self.is_spec::<U>(),
    {
        let t: u64 = U::token();
        let boxed: u64 = self.id;
        t == boxed
    }

    /// Returns a reference to the stored value when `U`'s token equals the
    /// recorded identity, and nothing otherwise. A refusal is an ordinary
    /// outcome, not an error.
    pub fn downcast_ref<U: AnyTag>(&self) -> (r: Option<&T>)
        ensures
            self.is_spec::<U>() ==> (r matches Some(v) && *v == self.spec_value()),
            !self.is_spec::<U>() ==> r is None,
    {
        if self.is::<U>() {
            Some(&self.value)
        } else {
            None
        }
    }

    /// Returns a mutable reference to the stored value when `U`'s token
    /// equals the recorded identity, and nothing otherwise. Whatever the
    /// caller writes through the reference becomes the stored value; the
    /// recorded identity stays as it was either way.
    pub fn downcast_mut<U: AnyTag>(&mut self) -> (r: Option<&mut T>)
        ensures
            old(self).is_spec::<U>() ==> r.is_some() && *r.unwrap() == old(self).spec_value()
                && final(self).spec_id() == old(self).spec_id()
                && final(self).spec_value() == *final(r.unwrap())
                && *final(self) == old(self).with_value(*final(r.unwrap())),
            !old(self).is_spec::<U>() ==> r.is_none() && *final(self) == *old(self),
    {
        if self.is::<U>() {
            Some(&mut self.value)
        } else {
            None
        }
    }

    /// Transparent access: the stored value itself, for interface-level use
    /// without a downcast.
    pub fn inner(&self) -> (r: &T)
        ensures
            *r == self.spec_value(),
    {
        &self.value
    }

    /// Transparent mutable access: whatever the caller writes through the
    /// reference becomes the stored value, and the recorded identity stays
    /// as it was.
    pub fn inner_mut(&mut self) -> (r: &mut T)
        ensures
            *r == old(self).spec_value(),
            final(self).spec_id() == old(self).spec_id(),
            final(self).spec_value() == *final(r),
            *final(self) == old(self).with_value(*final(r)),
    {
        &mut self.value
    }
}

impl<T: AnyTag> AnyOf<T> {
    /// True of every box the constructor hands out: the recorded identity is
    /// the token of the stored value's own type.
    pub open spec fn wf(self) -> bool {
        self.spec_id() == T::token_spec()
    }

    /// Constructs a box over `value`, recording the identity of its type.
    /// Construction always succeeds: there is no error case and no input is
    /// refused.
    pub fn new(value: T) -> (r: AnyOf<T>)
        ensures
            r.wf(),
            r.spec_value() == value,
    {
        AnyOf { id: T::token(), value }
    }
}

/// A box built from a value of `A` answers the identity query for `A` with
/// true, and for any type whose token differs from `A`'s with false.
pub proof fn lemma_identity_distinguishes<A: AnyTag, B: AnyTag>(b: AnyOf<A>)
    requires
        b.wf(),
        A::token_spec() != B::token_spec(),
    ensures
        b.is_spec::<A>(),
        !b.is_spec::<B>(),
{
}

/// On a box built from a value of `A`, a downcast to `A` yields exactly the
/// stored value, and a downcast to any type whose token differs yields
/// nothing.
pub proof fn lemma_downcast_pins_value<A: AnyTag, B: AnyTag>(b: AnyOf<A>)
    requires
        b.wf(),
        A::token_spec() != B::token_spec(),
    ensures
        b.downcast_spec::<A>() == Some(b.spec_value()),
        b.downcast_spec::<B>() is None,
{
}

/// Queries are pure: two boxes in the same state answer every identity query
/// and every downcast alike, so repeated calls on an unmodified box return
/// the same result every time.
pub proof fn lemma_queries_repeatable<T, U: AnyTag>(b1: AnyOf<T>, b2: AnyOf<T>)
    requires
        b1 == b2,
    ensures
        b1.is_spec::<U>() == b2.is_spec::<U>(),
        b1.downcast_spec::<U>() == b2.downcast_spec::<U>(),
{
}

/// Replacing the stored value, whether through the transparent mutable
/// accessor or through a matching mutable downcast, leads to one and the
/// same state: the new value is stored and the recorded identity is
/// untouched, so every later observation through either path agrees.
pub proof fn lemma_mutation_paths_agree<T: AnyTag>(b: AnyOf<T>, v: T)
    ensures
        b.with_value(v).spec_value() == v,
        b.with_value(v).spec_id() == b.spec_id(),
        b.wf() ==> b.with_value(v).wf(),
{
}

/// A value written through a matching mutable downcast is what every later
/// observation sees: the transparent accessor reports it, and a fresh
/// downcast to the same type yields it.
pub proof fn lemma_mutation_observable<A: AnyTag>(b: AnyOf<A>, v: A)
    requires
        b.wf(),
    ensures
        b.with_value(v).spec_value() == v,
        b.with_value(v).downcast_spec::<A>() == Some(v),
{
}

/// Diagnostic rendering: wraps a rendering of the stored value in the box's
/// fixed textual marker.
pub fn debug_wrap(value_repr: &str) -> (r: String)
    ensures
        r@ == "AnyOf("@ + value_repr@ + ")"@,
{
    let mut s: String = "AnyOf(".to_owned();
    s.append(value_repr);
    s.append(")");
    s
}

} // verus!
