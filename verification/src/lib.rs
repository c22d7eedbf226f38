//! Guards that force a wrapped resource to undergo its deferred teardown
//! operation exactly once before the guard's existence ends.
//!
//! Two families share one design: [`async_drop_ref`] wraps a resource whose
//! teardown works through a reference and leaves the guard behind, while
//! [`async_drop_take`] wraps a resource whose teardown consumes it outright.
//! Both compose: a guard is itself a resource fit for an outer guard, and
//! tearing down the outermost guard tears down every level beneath it.

pub mod async_drop_ref;
pub mod async_drop_take;
