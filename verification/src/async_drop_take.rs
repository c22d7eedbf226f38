//! The consuming guard family: teardown takes the resource by value, so one
//! call ends the resource's — and, for a guard, the guard's — existence.
//!
//! A resource offers the operation through [`AsyncDropTake`] and describes
//! when it still awaits teardown. [`AsyncDropWrapper`] wraps any such
//! resource; since its teardown consumes the whole guard, a second call on
//! the same guard is ruled out by ownership alone, and the guard's recorded
//! state never leaves active while the guard exists.

use vstd::prelude::*;

verus! {

/// Consuming teardown: the one-time cleanup that takes the resource
/// outright. Callers enforce the "once" — here ownership does most of the
/// work, since a consumed value cannot be offered a second time — and the
/// operation demands a resource that still awaits its teardown, at every
/// level of a nesting.
pub trait AsyncDropTake: Sized {
    /// The resource still awaits its one teardown, at every level.
    spec fn needs_teardown(&self) -> bool;

    fn async_drop(self)
        requires
            self.needs_teardown(),
    ;
}

/// A guard around an [`AsyncDropTake`] resource.
///
/// The guard takes ownership of the resource and offers one way forward for
/// each fate the resource may meet: teardown
/// ([`AsyncDropTake::async_drop`], which consumes guard and resource
/// together) or extraction ([`AsyncDropWrapper::into_inner`], which hands
/// the resource back and ends the guard's role).
pub struct AsyncDropWrapper<T: AsyncDropTake> {
    dropped: bool,
    data: T,
}

impl<T: AsyncDropTake> AsyncDropWrapper<T> {
    /// Whether teardown has run through this guard. Teardown consumes the
    /// guard, so every guard still in existence is active.
    pub closed spec fn is_dropped(&self) -> bool {
        self.dropped
    }

    /// The wrapped resource, as the contracts see it.
    pub closed spec fn resource(&self) -> T {
        self.data
    }

    /// Takes ownership of `t`; the fresh guard is active and holds `t`
    /// unchanged.
    pub fn new(t: T) -> (r: AsyncDropWrapper<T>)
        ensures
            r.resource() == t,
            !r.is_dropped(),
    {
        AsyncDropWrapper { dropped: false, data: t }
    }

    /// Shared access to the resource; the guard's state is untouched.
    pub fn borrow(&self) -> (r: &T)
        ensures
            *r == self.resource(),
    {
        &self.data
    }

    /// Exclusive access to the resource; whatever the caller does through
    /// the reference, the guard's own state is untouched.
    pub fn borrow_mut(&mut self) -> (r: &mut T)
        ensures
            *r == old(self).resource(),
            final(self).resource() == *final(r),
            final(self).is_dropped() == old(self).is_dropped(),
    {
        &mut self.data
    }

    /// Extraction: moves the resource back out and ends the guard's role
    /// with no further check — responsibility for the resource's teardown
    /// passes to the caller.
    pub fn into_inner(self) -> (r: T)
        ensures
            r == self.resource(),
    {
        let AsyncDropWrapper { dropped: _, data } = self;
        data
    }
}

impl<T: AsyncDropTake> AsyncDropTake for AsyncDropWrapper<T> {
    open spec fn needs_teardown(&self) -> bool {
        !self.is_dropped() && self.resource().needs_teardown()
    }

    /// Teardown through the guard: moves the resource out and delegates to
    /// its own consuming teardown, ending resource and guard together.
    fn async_drop(self) {
        let AsyncDropWrapper { dropped: _, data } = self;
        data.async_drop()
    }
}

/// Composition is transparent: a nested guard awaiting teardown awaits it
/// at every level, so the demand the outermost teardown makes reaches the
/// innermost resource.
pub proof fn lemma_nested_teardown_reaches_inner<T: AsyncDropTake>(
    g: &AsyncDropWrapper<AsyncDropWrapper<T>>,
)
    ensures
        g.needs_teardown() ==> g.resource().needs_teardown()
            && g.resource().resource().needs_teardown(),
{
}

/// A sample resource for exercising the guards: a bare payload whose
/// consuming teardown has nothing left to do.
pub struct PlainResource {
    pub value: u64,
}

impl AsyncDropTake for PlainResource {
    open spec fn needs_teardown(&self) -> bool {
        true
    }

    fn async_drop(self) {
    }
}

} // verus!
