//! The shared-access guard family: teardown works through a reference to the
//! resource, so the guard outlives the call and records that it happened.
//!
//! A resource describes its own teardown status through [`TeardownState`],
//! and offers the operation itself through [`AsyncDrop`] (exclusive access)
//! or [`AsyncDropConst`] (the form a composed guard exposes; every such
//! resource satisfies [`AsyncDrop`] by delegation). [`AsyncDropWrapper`]
//! wraps any [`AsyncDrop`] resource and enforces the protocol: teardown at
//! most once, and a guard may only be discarded once torn down.

use vstd::prelude::*;

verus! {

/// The teardown status of a resource, as the contracts see it.
///
/// `needs_teardown` holds while the resource (and everything nested inside
/// it) still awaits its one teardown; `torn_down` holds once the resource
/// (and everything nested inside it) has been fully torn down. A value part
/// way through a composed teardown satisfies neither.
pub trait TeardownState: Sized {
    /// The resource still awaits its one teardown, at every level.
    spec fn needs_teardown(&self) -> bool;

    /// The resource has been fully torn down, at every level.
    spec fn torn_down(&self) -> bool;
}

/// Teardown through exclusive access: the one-time cleanup a resource must
/// undergo before it may be discarded. Callers enforce the "once": the
/// operation demands a resource that still awaits teardown and leaves one
/// that no longer does.
pub trait AsyncDrop: TeardownState {
    fn async_drop(&mut self)
        requires
            old(self).needs_teardown(),
        ensures
            final(self).torn_down(),
            !final(self).needs_teardown(),
    ;
}

/// Teardown reachable from a guard one level out: the form
/// [`AsyncDropWrapper`] itself offers, so that a wrapped guard can be torn
/// down by its wrapper. Every resource offering this form satisfies
/// [`AsyncDrop`] as well, by delegation.
pub trait AsyncDropConst: TeardownState {
    fn async_drop_const(&mut self)
        requires
            old(self).needs_teardown(),
        ensures
            final(self).torn_down(),
            !final(self).needs_teardown(),
    ;
}

impl<T: AsyncDropConst> AsyncDrop for T {
    fn async_drop(&mut self) {
        self.async_drop_const()
    }
}

/// A guard around an [`AsyncDrop`] resource.
///
/// The guard starts active, hands out access to the resource, and offers
/// exactly one way forward for each fate the resource may meet: teardown
/// ([`AsyncDropConst::async_drop_const`], at most once), extraction
/// ([`AsyncDropWrapper::into_inner`], which ends the guard's role), or
/// [`AsyncDropWrapper::discard`], which stands for letting a guard go and is
/// only open to a guard already torn down.
pub struct AsyncDropWrapper<T: AsyncDrop> {
    dropped: bool,
    data: T,
}

impl<T: AsyncDrop> AsyncDropWrapper<T> {
    /// Whether teardown has already run through this guard.
    pub closed spec fn is_dropped(&self) -> bool {
        self.dropped
    }

    /// The wrapped resource, as the contracts see it.
    pub closed spec fn resource(&self) -> T {
        self.data
    }

    /// Wraps `t`; the fresh guard is active and holds `t` unchanged.
    pub fn new(t: T) -> (r: AsyncDropWrapper<T>)
        ensures
            r.resource() == t,
            !r.is_dropped(),
    {
        AsyncDropWrapper { dropped: false, data: t }
    }

    /// Shared access to the resource; the guard's state is untouched.
    pub fn borrow(&self) -> (r: &T)
        ensures
            *r == self.resource(),
    {
        &self.data
    }

    /// Exclusive access to the resource; whatever the caller does through
    /// the reference, the guard's own state is untouched.
    pub fn borrow_mut(&mut self) -> (r: &mut T)
        ensures
            *r == old(self).resource(),
            final(self).resource() == *final(r),
            final(self).is_dropped() == old(self).is_dropped(),
    {
        &mut self.data
    }

    /// Extraction: removes the resource from the guard, whose role ends here
    /// with no further check — responsibility for the resource's teardown
    /// passes to the caller.
    pub fn into_inner(self) -> (r: T)
        ensures
            r == self.resource(),
    {
        let AsyncDropWrapper { dropped: _, data } = self;
        data
    }

    /// Lets go of a guard whose teardown has run. A guard still active must
    /// instead be torn down or have its resource extracted first: ending an
    /// active guard's existence is the error this library exists to rule
    /// out.
    pub fn discard(self)
        requires
            self.is_dropped(),
    {
    }
}

impl<T: AsyncDrop> TeardownState for AsyncDropWrapper<T> {
    open spec fn needs_teardown(&self) -> bool {
        !self.is_dropped() && self.resource().needs_teardown()
    }

    open spec fn torn_down(&self) -> bool {
        self.is_dropped() && self.resource().torn_down()
    }
}

impl<T: AsyncDrop> AsyncDropConst for AsyncDropWrapper<T> {
    /// Teardown through the guard: records that teardown ran, then delegates
    /// to the resource's own teardown. The record is made before the
    /// delegated operation completes, so an interrupted teardown leaves the
    /// guard marked torn down with the resource possibly only part way — a
    /// deliberate limitation of this design.
    fn async_drop_const(&mut self)
        ensures
            final(self).is_dropped(),
    {
        self.dropped = true;
        self.data.async_drop();
    }
}

/// A fresh, active guard over a resource that awaits teardown itself awaits
/// teardown: construction is all it takes to make the one teardown call
/// legitimate.
pub proof fn lemma_fresh_guard_awaits_teardown<T: AsyncDrop>(g: &AsyncDropWrapper<T>)
    requires
        !g.is_dropped(),
        g.resource().needs_teardown(),
    ensures
        g.needs_teardown(),
{
}

/// A guard torn down no longer awaits teardown: a second teardown call can
/// never be legitimate on the same guard.
pub proof fn lemma_torn_down_excludes_teardown<T: AsyncDrop>(g: &AsyncDropWrapper<T>)
    ensures
        g.torn_down() ==> !g.needs_teardown(),
{
}

/// Composition is transparent: a nested guard torn down is torn down at
/// every level, and one awaiting teardown awaits it at every level. Applied
/// at each depth of a nesting, this carries the outermost teardown's effect
/// all the way to the innermost resource.
pub proof fn lemma_nested_teardown_propagates<T: AsyncDrop>(
    g: &AsyncDropWrapper<AsyncDropWrapper<T>>,
)
    ensures
        g.torn_down() ==> g.resource().torn_down() && g.resource().resource().torn_down(),
        g.needs_teardown() ==> g.resource().needs_teardown()
            && g.resource().resource().needs_teardown(),
{
}

/// A sample resource for exercising the guards: its teardown appends one
/// mark to its log, so a log holds as many marks as teardowns ran on it.
pub struct LogResource {
    pub torn: bool,
    pub log: Vec<char>,
}

impl LogResource {
    /// A resource that still awaits teardown, with an empty log.
    pub fn new() -> (r: LogResource)
        ensures
            !r.torn,
            r.log@ == Seq::<char>::empty(),
    {
        LogResource { torn: false, log: Vec::new() }
    }
}

impl TeardownState for LogResource {
    open spec fn needs_teardown(&self) -> bool {
        !self.torn
    }

    open spec fn torn_down(&self) -> bool {
        self.torn
    }
}

impl AsyncDrop for LogResource {
    /// The teardown body runs once: it appends exactly one mark to the log.
    fn async_drop(&mut self)
        ensures
            final(self).log@ == old(self).log@.push('X'),
            final(self).torn,
    {
        self.torn = true;
        self.log.push('X');
    }
}

} // verus!
