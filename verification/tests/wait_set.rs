use std::sync::Arc;
use std::time::Duration;

use rclrs::{
    rcl_timeout, timeout_to_rcl, Context, RclContext, RclReturnCode, RclrsError, WaitReadiness,
    WaitSet, WaitSetCapacities,
};

struct Entity {
    id: u32,
}

type Ws = WaitSet<Entity, Entity, Entity>;

fn init_ok(_: &Context, _: WaitSetCapacities) -> Result<(), RclrsError> {
    Ok(())
}

fn context() -> Context {
    Context::new(RclContext { is_valid: true })
}

fn err(code: RclReturnCode) -> RclrsError {
    RclrsError::RclError { code, msg: None }
}

fn readiness(subscriptions: &[bool], clients: &[bool], services: &[bool]) -> WaitReadiness {
    WaitReadiness {
        subscriptions: subscriptions.to_vec(),
        clients: clients.to_vec(),
        services: services.to_vec(),
    }
}

fn ids(v: &[Arc<Entity>]) -> Vec<u32> {
    v.iter().map(|e| e.id).collect()
}

#[test]
fn new_wait_set_reports_empty_on_wait() {
    let ctx = context();
    let mut ws: Ws = WaitSet::new(2, 0, 0, 2, 2, 0, &ctx, init_ok).unwrap();
    let mut called = false;
    let r = ws.wait(None, |_, _| {
        called = true;
        Ok(readiness(&[], &[], &[]))
    });
    assert_eq!(r.err(), Some(err(RclReturnCode::WaitSetEmpty)));
    assert!(!called);
}

#[test]
fn add_subscription_up_to_capacity() {
    let ctx = context();
    let mut ws: Ws = WaitSet::new(2, 0, 0, 0, 0, 0, &ctx, init_ok).unwrap();
    assert!(ws.add_subscription(Arc::new(Entity { id: 1 })).is_ok());
    assert!(ws.add_subscription(Arc::new(Entity { id: 2 })).is_ok());
    assert_eq!(
        ws.add_subscription(Arc::new(Entity { id: 3 })),
        Err(err(RclReturnCode::WaitSetFull))
    );
    let ready = ws.wait(None, |_, _| Ok(readiness(&[true, true, true], &[], &[]))).unwrap();
    assert_eq!(ids(&ready.subscriptions), vec![1, 2]);
}

#[test]
fn add_client_and_service_respect_their_capacities() {
    let ctx = context();
    let mut ws: Ws = WaitSet::new(0, 0, 0, 1, 1, 0, &ctx, init_ok).unwrap();
    assert_eq!(
        ws.add_subscription(Arc::new(Entity { id: 1 })),
        Err(err(RclReturnCode::WaitSetFull))
    );
    assert!(ws.add_client(Arc::new(Entity { id: 2 })).is_ok());
    assert_eq!(ws.add_client(Arc::new(Entity { id: 3 })), Err(err(RclReturnCode::WaitSetFull)));
    assert!(ws.add_service(Arc::new(Entity { id: 4 })).is_ok());
    assert_eq!(ws.add_service(Arc::new(Entity { id: 5 })), Err(err(RclReturnCode::WaitSetFull)));
    let ready = ws.wait(None, |_, _| Ok(readiness(&[], &[true], &[true]))).unwrap();
    assert!(ready.subscriptions.is_empty());
    assert_eq!(ids(&ready.clients), vec![2]);
    assert_eq!(ids(&ready.services), vec![4]);
}

#[test]
fn same_subscription_can_be_added_twice() {
    let ctx = context();
    let mut ws: Ws = WaitSet::new(2, 0, 0, 0, 0, 0, &ctx, init_ok).unwrap();
    let s = Arc::new(Entity { id: 7 });
    assert!(ws.add_subscription(s.clone()).is_ok());
    assert!(ws.add_subscription(s.clone()).is_ok());
    let ready = ws.wait(None, |_, _| Ok(readiness(&[true, true], &[], &[]))).unwrap();
    assert_eq!(ids(&ready.subscriptions), vec![7, 7]);
    assert!(Arc::ptr_eq(&ready.subscriptions[0], &s));
}

#[test]
fn clear_resets_to_new_state() {
    let ctx = context();
    let mut ws: Ws = WaitSet::new(1, 0, 0, 1, 1, 0, &ctx, init_ok).unwrap();
    ws.add_subscription(Arc::new(Entity { id: 1 })).unwrap();
    ws.add_client(Arc::new(Entity { id: 2 })).unwrap();
    ws.add_service(Arc::new(Entity { id: 3 })).unwrap();
    ws.clear();
    let r = ws.wait(None, |_, _| Ok(readiness(&[true], &[true], &[true])));
    assert_eq!(r.err(), Some(err(RclReturnCode::WaitSetEmpty)));
    // The capacities are those of `new` again.
    assert!(ws.add_subscription(Arc::new(Entity { id: 4 })).is_ok());
    assert_eq!(
        ws.add_subscription(Arc::new(Entity { id: 5 })),
        Err(err(RclReturnCode::WaitSetFull))
    );
}

#[test]
fn wait_hands_the_timeout_in_nanoseconds() {
    let ctx = context();
    let mut ws: Ws = WaitSet::new(1, 0, 0, 0, 0, 0, &ctx, init_ok).unwrap();
    ws.add_subscription(Arc::new(Entity { id: 1 })).unwrap();
    let cases: [(Option<Duration>, i64); 4] = [
        (None, -1),
        (Some(Duration::ZERO), 0),
        (Some(Duration::from_millis(1500)), 1_500_000_000),
        (Some(Duration::new(1, 7)), 1_000_000_007),
    ];
    for (timeout, expected) in cases {
        let mut seen = None;
        ws.wait(timeout, |_, ns| {
            seen = Some(ns);
            Ok(readiness(&[false], &[], &[]))
        })
        .unwrap();
        assert_eq!(seen, Some(expected));
    }
}

#[test]
fn wait_rejects_a_timeout_that_overflows() {
    let ctx = context();
    let mut ws: Ws = WaitSet::new(1, 0, 0, 0, 0, 0, &ctx, init_ok).unwrap();
    ws.add_subscription(Arc::new(Entity { id: 1 })).unwrap();
    let mut called = false;
    let r = ws.wait(Some(Duration::MAX), |_, _| {
        called = true;
        Ok(readiness(&[true], &[], &[]))
    });
    assert_eq!(r.err(), Some(err(RclReturnCode::InvalidArgument)));
    assert!(!called);
    // The largest timeout that fits in an i64 is accepted.
    let max = Duration::from_nanos(i64::MAX as u64);
    let mut seen = None;
    ws.wait(Some(max), |_, ns| {
        seen = Some(ns);
        Ok(readiness(&[], &[], &[]))
    })
    .unwrap();
    assert_eq!(seen, Some(i64::MAX));
    let over = max + Duration::from_nanos(1);
    assert_eq!(
        ws.wait(Some(over), |_, _| Ok(readiness(&[], &[], &[]))).err(),
        Some(err(RclReturnCode::InvalidArgument))
    );
}

#[test]
fn wait_reports_ready_entities_in_registration_order() {
    let ctx = context();
    let mut ws: Ws = WaitSet::new(4, 0, 0, 2, 2, 0, &ctx, init_ok).unwrap();
    for id in [10, 11, 12, 13] {
        ws.add_subscription(Arc::new(Entity { id })).unwrap();
    }
    ws.add_client(Arc::new(Entity { id: 20 })).unwrap();
    ws.add_client(Arc::new(Entity { id: 21 })).unwrap();
    ws.add_service(Arc::new(Entity { id: 30 })).unwrap();
    let ready = ws
        .wait(None, |_, _| Ok(readiness(&[true, false, true, true], &[false, true], &[false, true])))
        .unwrap();
    assert_eq!(ids(&ready.subscriptions), vec![10, 12, 13]);
    assert_eq!(ids(&ready.clients), vec![21]);
    // A flag beyond the registered services names nothing.
    assert!(ready.services.is_empty());
}

#[test]
fn wait_treats_missing_flags_as_not_ready() {
    let ctx = context();
    let mut ws: Ws = WaitSet::new(3, 0, 0, 0, 0, 0, &ctx, init_ok).unwrap();
    for id in [1, 2, 3] {
        ws.add_subscription(Arc::new(Entity { id })).unwrap();
    }
    let ready = ws.wait(None, |_, _| Ok(readiness(&[false, true], &[], &[]))).unwrap();
    assert_eq!(ids(&ready.subscriptions), vec![2]);
}

#[test]
fn wait_returns_the_middleware_error_and_keeps_entities() {
    let ctx = context();
    let mut ws: Ws = WaitSet::new(1, 0, 0, 0, 0, 0, &ctx, init_ok).unwrap();
    ws.add_subscription(Arc::new(Entity { id: 1 })).unwrap();
    let r = ws.wait(Some(Duration::from_millis(10)), |_, _| Err(err(RclReturnCode::Timeout)));
    assert_eq!(r.err(), Some(err(RclReturnCode::Timeout)));
    // Waiting does not change what is registered.
    let ready = ws.wait(None, |_, _| Ok(readiness(&[true], &[], &[]))).unwrap();
    assert_eq!(ids(&ready.subscriptions), vec![1]);
    let again = ws.wait(None, |_, _| Ok(readiness(&[true], &[], &[]))).unwrap();
    assert_eq!(ids(&again.subscriptions), vec![1]);
}

#[test]
fn ready_entities_without_waiting() {
    let ctx = context();
    let mut ws: Ws = WaitSet::new(2, 0, 0, 1, 0, 0, &ctx, init_ok).unwrap();
    ws.add_subscription(Arc::new(Entity { id: 1 })).unwrap();
    ws.add_subscription(Arc::new(Entity { id: 2 })).unwrap();
    ws.add_client(Arc::new(Entity { id: 3 })).unwrap();
    let ready = ws.ready_entities(&readiness(&[false, true], &[true], &[]));
    assert_eq!(ids(&ready.subscriptions), vec![2]);
    assert_eq!(ids(&ready.clients), vec![3]);
    let none = ws.ready_entities(&readiness(&[], &[], &[]));
    assert!(none.subscriptions.is_empty() && none.clients.is_empty());
}

#[test]
fn rcl_timeout_conversions() {
    assert_eq!(rcl_timeout(None), Ok(-1));
    assert_eq!(rcl_timeout(Some(0)), Ok(0));
    assert_eq!(rcl_timeout(Some(42)), Ok(42));
    assert_eq!(rcl_timeout(Some(i64::MAX as u128)), Ok(i64::MAX));
    assert_eq!(
        rcl_timeout(Some(i64::MAX as u128 + 1)),
        Err(err(RclReturnCode::InvalidArgument))
    );
    assert_eq!(rcl_timeout(Some(u128::MAX)), Err(err(RclReturnCode::InvalidArgument)));
}

#[test]
fn timeout_to_rcl_uses_the_duration() {
    assert_eq!(timeout_to_rcl(None), Ok(-1));
    assert_eq!(timeout_to_rcl(Some(Duration::from_millis(3))), Ok(3_000_000));
    assert_eq!(timeout_to_rcl(Some(Duration::from_secs(2))), Ok(2_000_000_000));
    assert_eq!(
        timeout_to_rcl(Some(Duration::from_secs(u64::MAX))),
        Err(err(RclReturnCode::InvalidArgument))
    );
}

#[test]
fn error_code_and_constructor() {
    let e = RclrsError::from_code(RclReturnCode::WaitSetFull);
    assert_eq!(e.code(), RclReturnCode::WaitSetFull);
    assert_eq!(e, err(RclReturnCode::WaitSetFull));
    let with_msg = RclrsError::RclError { code: RclReturnCode::Error, msg: Some("x".to_string()) };
    assert_eq!(with_msg.code(), RclReturnCode::Error);
}

#[test]
fn new_hands_the_capacities_to_the_middleware() {
    let ctx = context();
    let mut seen = None;
    let ws: Result<Ws, RclrsError> = WaitSet::new(1, 2, 3, 4, 5, 6, &ctx, |_, caps| {
        seen = Some(caps);
        Ok(())
    });
    assert!(ws.is_ok());
    assert_eq!(
        seen,
        Some(WaitSetCapacities {
            subscriptions: 1,
            guard_conditions: 2,
            timers: 3,
            clients: 4,
            services: 5,
            events: 6,
        })
    );
}

#[test]
fn new_returns_the_initialisation_error() {
    let ctx = context();
    let ws: Result<Ws, RclrsError> =
        WaitSet::new(1, 0, 0, 0, 0, 0, &ctx, |_, _| Err(err(RclReturnCode::Error)));
    assert_eq!(ws.err(), Some(err(RclReturnCode::Error)));
}

#[test]
fn wait_hands_the_wait_set_to_the_middleware() {
    let ctx = context();
    let mut ws: Ws = WaitSet::new(3, 0, 0, 1, 1, 0, &ctx, init_ok).unwrap();
    for id in [4, 5, 6] {
        ws.add_subscription(Arc::new(Entity { id })).unwrap();
    }
    ws.add_client(Arc::new(Entity { id: 7 })).unwrap();
    // The middleware decides readiness from what is registered: even ids are ready.
    let ready = ws
        .wait(None, |set, _| {
            assert_eq!(ids(set.subscriptions()), vec![4, 5, 6]);
            assert_eq!(ids(set.clients()), vec![7]);
            assert!(set.services().is_empty());
            Ok(WaitReadiness {
                subscriptions: set.subscriptions().iter().map(|e| e.id % 2 == 0).collect(),
                clients: set.clients().iter().map(|e| e.id % 2 == 0).collect(),
                services: Vec::new(),
            })
        })
        .unwrap();
    assert_eq!(ids(&ready.subscriptions), vec![4, 6]);
    assert!(ready.clients.is_empty());
}

#[test]
fn new_hands_the_context_to_the_middleware() {
    let ctx = context();
    let mut same = false;
    let ws: Result<Ws, RclrsError> = WaitSet::new(1, 0, 0, 0, 0, 0, &ctx, |c, _| {
        same = std::ptr::eq(c, &ctx);
        Ok(())
    });
    assert!(ws.is_ok());
    assert!(same);
}
