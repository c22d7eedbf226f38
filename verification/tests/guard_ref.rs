use async_drop_guard::async_drop_ref::{AsyncDrop, AsyncDropConst, AsyncDropWrapper, LogResource};

#[test]
fn single_teardown_appends_one_mark() {
    let mut g = AsyncDropWrapper::new(LogResource::new());
    g.async_drop_const();
    assert!(g.borrow().torn);
    assert_eq!(g.borrow().log, vec!['X']);
    g.discard();
}

#[test]
fn delegated_teardown_runs_once() {
    let mut g = AsyncDropWrapper::new(LogResource::new());
    g.async_drop();
    assert!(g.borrow().torn);
    assert_eq!(g.borrow().log, vec!['X']);
    g.discard();
}

#[test]
fn async_drop_ref_test_func() {
    let a = LogResource::new();
    let mut a = AsyncDropWrapper::new(AsyncDropWrapper::new(AsyncDropWrapper::new(
        AsyncDropWrapper::new(AsyncDropWrapper::new(AsyncDropWrapper::new(
            AsyncDropWrapper::new(AsyncDropWrapper::new(AsyncDropWrapper::new(
                AsyncDropWrapper::new(AsyncDropWrapper::new(AsyncDropWrapper::new(
                    AsyncDropWrapper::new(AsyncDropWrapper::new(a)),
                ))),
            ))),
        ))),
    )));
    a.async_drop_const();
    let innermost = a
        .borrow()
        .borrow()
        .borrow()
        .borrow()
        .borrow()
        .borrow()
        .borrow()
        .borrow()
        .borrow()
        .borrow()
        .borrow()
        .borrow()
        .borrow()
        .borrow();
    assert!(innermost.torn);
    assert_eq!(innermost.log, vec!['X']);
    a.discard();
}

#[test]
fn borrows_leave_state_alone() {
    let mut g = AsyncDropWrapper::new(LogResource::new());
    assert!(!g.borrow().torn);
    g.borrow_mut().log.push('Y');
    assert_eq!(g.borrow().log, vec!['Y']);
    g.async_drop_const();
    assert_eq!(g.borrow().log, vec!['Y', 'X']);
    g.discard();
}

#[test]
fn extraction_returns_resource_and_suppresses_check() {
    let mut g = AsyncDropWrapper::new(LogResource::new());
    g.borrow_mut().log.push('Y');
    let r = g.into_inner();
    assert!(!r.torn);
    assert_eq!(r.log, vec!['Y']);
}
