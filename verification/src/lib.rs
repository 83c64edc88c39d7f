//! Rust client library for ROS 2: the executor's bookkeeping, verified.
use vstd::prelude::*;

use std::sync::Arc;
use std::time::Duration;

pub mod context;
pub mod error;
pub mod node;
pub mod time;
pub mod wait;

pub use context::{Context, RclContext};
pub use error::{RclReturnCode, RclrsError};
pub use node::{ClientBase, Node, ServiceBase, SubscriptionBase};
pub use time::{rcl_timeout, timeout_to_rcl};
pub use wait::{ReadyEntities, WaitReadiness, WaitSet, WaitSetCapacities};

use context::arc_clone;
use time::{duration_from_millis, spec_rcl_timeout, timeout_nanos};
use wait::{creation_result_for, ready_filter, WaitSetView};

verus! {

/// Running subscription `s` may return `r`.
pub open spec fn subscription_ran<S: SubscriptionBase>(s: Arc<S>, r: Result<(), RclrsError>) -> bool {
    call_ensures(S::execute, (&*s,), r)
}

/// Running client `c` may return `r`.
pub open spec fn client_ran<C: ClientBase>(c: Arc<C>, r: Result<(), RclrsError>) -> bool {
    call_ensures(C::execute, (&*c,), r)
}

/// Running service `v` may return `r`.
pub open spec fn service_ran<V: ServiceBase>(v: Arc<V>, r: Result<(), RclrsError>) -> bool {
    call_ensures(V::execute, (&*v,), r)
}

/// Running subscription `s` may succeed.
pub open spec fn subscription_succeeded<S: SubscriptionBase>(s: Arc<S>) -> bool {
    exists|r: Result<(), RclrsError>| r is Ok && #[trigger] subscription_ran(s, r)
}

/// Running client `c` may succeed.
pub open spec fn client_succeeded<C: ClientBase>(c: Arc<C>) -> bool {
    exists|r: Result<(), RclrsError>| r is Ok && #[trigger] client_ran(c, r)
}

/// Running service `v` may succeed.
pub open spec fn service_succeeded<V: ServiceBase>(v: Arc<V>) -> bool {
    exists|r: Result<(), RclrsError>| r is Ok && #[trigger] service_ran(v, r)
}

/// Each of the first `k` subscriptions may succeed when run.
pub open spec fn subscriptions_ran_ok<S: SubscriptionBase>(subs: Seq<Arc<S>>, k: int) -> bool {
    forall|j: int| 0 <= j < k ==> #[trigger] subscription_succeeded(subs[j])
}

/// Each of the first `k` clients may succeed when run.
pub open spec fn clients_ran_ok<C: ClientBase>(clients: Seq<Arc<C>>, k: int) -> bool {
    forall|j: int| 0 <= j < k ==> #[trigger] client_succeeded(clients[j])
}

/// Each of the first `k` services may succeed when run.
pub open spec fn services_ran_ok<V: ServiceBase>(services: Seq<Arc<V>>, k: int) -> bool {
    forall|j: int| 0 <= j < k ==> #[trigger] service_succeeded(services[j])
}

/// `r` is a result that running the given entities can give, subscriptions first, then clients,
/// then services, each in order: either every entity before some entity may have succeeded and
/// that entity may have failed with `r`, or every entity may have succeeded and `r` is `Ok`.
/// Which calls were made, and how often, is not visible here: an entity's run has no effect that
/// a contract can observe.
pub open spec fn ran_in_order<S: SubscriptionBase, C: ClientBase, V: ServiceBase>(
    subs: Seq<Arc<S>>,
    clients: Seq<Arc<C>>,
    services: Seq<Arc<V>>,
    r: Result<(), RclrsError>,
) -> bool {
    ||| exists|k: int|
        0 <= k < subs.len() && subscriptions_ran_ok(subs, k) && r is Err && #[trigger] subscription_ran(
            subs[k],
            r,
        )
    ||| subscriptions_ran_ok(subs, subs.len() as int) && exists|k: int|
        0 <= k < clients.len() && clients_ran_ok(clients, k) && r is Err && #[trigger] client_ran(
            clients[k],
            r,
        )
    ||| subscriptions_ran_ok(subs, subs.len() as int) && clients_ran_ok(clients, clients.len() as int)
        && exists|k: int|
        0 <= k < services.len() && services_ran_ok(services, k) && r is Err && #[trigger] service_ran(
            services[k],
            r,
        )
    ||| subscriptions_ran_ok(subs, subs.len() as int) && clients_ran_ok(clients, clients.len() as int)
        && services_ran_ok(services, services.len() as int) && r is Ok
}

/// The outcome of a spin, once the node's entities and what the middleware reported are known:
/// the middleware's error comes back unchanged; otherwise the ready entities run in order.
pub open spec fn spin_result_for<S: SubscriptionBase, C: ClientBase, V: ServiceBase>(
    ws: WaitSetView<S, C, V>,
    reported: Result<WaitReadiness, RclrsError>,
    r: Result<(), RclrsError>,
) -> bool {
    match reported {
        Err(e) => r == Err::<(), RclrsError>(e),
        Ok(readiness) => ran_in_order(
            ready_filter(ws.subscriptions, readiness.subscriptions@),
            ready_filter(ws.clients, readiness.clients@),
            ready_filter(ws.services, readiness.services@),
            r,
        ),
    }
}

/// What `spin_once` may return once the middleware's wait set is initialised: a timeout too large
/// is rejected, a node without entities cannot be waited on, and otherwise the middleware's wait
/// is asked with a wait set that holds exactly the node's entities and the timeout in
/// nanoseconds, and its answer decides as `spin_result_for` says.
pub open spec fn spin_wait_result<
    S: SubscriptionBase,
    C: ClientBase,
    V: ServiceBase,
    F: FnOnce(&WaitSet<S, C, V>, i64) -> Result<WaitReadiness, RclrsError>,
>(
    node: Node<S, C, V>,
    timeout: Option<u128>,
    rcl_wait: F,
    r: Result<(), RclrsError>,
) -> bool {
    match spec_rcl_timeout(timeout) {
        Err(e) => r == Err::<(), RclrsError>(e),
        Ok(timeout_ns) => if node.wait_set_view().is_empty() {
            r == Err::<(), RclrsError>(RclrsError::bare(RclReturnCode::WaitSetEmpty))
        } else {
            exists|ws: WaitSet<S, C, V>, reported: Result<WaitReadiness, RclrsError>|
                #[trigger] rcl_wait.ensures((&ws, timeout_ns), reported) && ws@
                    == node.wait_set_view() && spin_result_for(node.wait_set_view(), reported, r)
        },
    }
}

/// What `spin_once` may return for a node, a timeout in nanoseconds and the middleware's
/// initialisation of a wait set and wait: the initialisation is asked, on the node's context, for
/// the capacities that hold exactly the node's entities; its error comes back unchanged, otherwise the wait decides.
pub open spec fn spin_once_result<
    S: SubscriptionBase,
    C: ClientBase,
    V: ServiceBase,
    I: FnOnce(&Context, WaitSetCapacities) -> Result<(), RclrsError>,
    F: FnOnce(&WaitSet<S, C, V>, i64) -> Result<WaitReadiness, RclrsError>,
>(
    node: Node<S, C, V>,
    timeout: Option<u128>,
    rcl_wait_set_init: I,
    rcl_wait: F,
    r: Result<(), RclrsError>,
) -> bool {
    exists|ctx: Context, initialised: Result<(), RclrsError>|
        #[trigger] rcl_wait_set_init.ensures((&ctx, node.wait_set_capacities()), initialised)
            && ctx.spec_mutex() == node.spec_context() && (
        initialised matches Err(e) ==> r == Err::<(), RclrsError>(e)) && (initialised is Ok
            ==> spin_wait_result(node, timeout, rcl_wait, r))
}

/// How an executor treats the result of one spin.
#[derive(Debug, PartialEq, Eq)]
pub enum SpinOutcome {
    /// The spin succeeded.
    Spun,
    /// The wait timed out: no failure, but nothing ran either.
    TimedOut,
    /// The spin failed with the given error.
    Failed(RclrsError),
}

/// A timeout is no failure of a spin; any other error is.
pub open spec fn spec_spin_outcome(r: Result<(), RclrsError>) -> SpinOutcome {
    match r {
        Ok(()) => SpinOutcome::Spun,
        Err(e) => if e.spec_code() == RclReturnCode::Timeout {
            SpinOutcome::TimedOut
        } else {
            SpinOutcome::Failed(e)
        },
    }
}

/// What one step of a spin loop returns for the result of its spin: a failure ends the loop
/// with its error, a success or a timeout lets the loop go on.
pub open spec fn spec_spin_step(r: Result<(), RclrsError>) -> Result<bool, RclrsError> {
    match spec_spin_outcome(r) {
        SpinOutcome::Failed(e) => Err(e),
        _ => Ok(true),
    }
}

/// Only a timeout is no failure of a spin: a success is `Spun`, an error is `TimedOut` exactly
/// when its code is `Timeout`, and every other error is `Failed` with that very error.
pub proof fn lemma_only_a_timeout_is_benign(r: Result<(), RclrsError>)
    ensures
        r is Ok ==> spec_spin_outcome(r) == SpinOutcome::Spun,
        r is Err ==> (spec_spin_outcome(r) == SpinOutcome::TimedOut <==> r->Err_0.spec_code()
            == RclReturnCode::Timeout),
        r is Err && r->Err_0.spec_code() != RclReturnCode::Timeout ==> spec_spin_outcome(r)
            == SpinOutcome::Failed(r->Err_0),
        spec_spin_outcome(r) matches SpinOutcome::Failed(e) ==> r == Err::<(), RclrsError>(e),
{
}

/// A step of a spin loop goes on after a success or a timeout, returns every other error as it
/// came, and never ends the loop as an invalid context does (`Ok(false)`).
pub proof fn lemma_spin_step_returns_every_failure(r: Result<(), RclrsError>)
    ensures
        r is Ok ==> spec_spin_step(r) == Ok::<bool, RclrsError>(true),
        r is Err && r->Err_0.spec_code() == RclReturnCode::Timeout ==> spec_spin_step(r) == Ok::<
            bool,
            RclrsError,
        >(true),
        r is Err && r->Err_0.spec_code() != RclReturnCode::Timeout ==> spec_spin_step(r) == Err::<
            bool,
            RclrsError,
        >(r->Err_0),
        spec_spin_step(r) != Ok::<bool, RclrsError>(false),
{
}

/// Classifies the result of one spin: success, a timeout, or a failure with its error.
pub fn spin_outcome(r: Result<(), RclrsError>) -> (outcome: SpinOutcome)
    ensures
        outcome == spec_spin_outcome(r),
        r is Ok ==> outcome == SpinOutcome::Spun,
        r is Err ==> (outcome == SpinOutcome::TimedOut <==> r->Err_0.spec_code()
            == RclReturnCode::Timeout),
        r is Err && r->Err_0.spec_code() != RclReturnCode::Timeout ==> outcome
            == SpinOutcome::Failed(r->Err_0),
{
    match r {
        Ok(()) => SpinOutcome::Spun,
        Err(e) => {
            if e.code() == RclReturnCode::Timeout {
                SpinOutcome::TimedOut
            } else {
                SpinOutcome::Failed(e)
            }
        },
    }
}

/// Runs every ready entity, subscriptions first, then clients, then services, and stops at the
/// first error.
fn execute_ready<S: SubscriptionBase, C: ClientBase, V: ServiceBase>(
    ready: &ReadyEntities<S, C, V>,
) -> (r: Result<(), RclrsError>)
    ensures
        ran_in_order(ready.subscriptions@, ready.clients@, ready.services@, r),
{
    let n = ready.subscriptions.len();
    for i in 0..n
        invariant
            n == ready.subscriptions@.len(),
            subscriptions_ran_ok(ready.subscriptions@, i as int),
    {
        let s: &S = &ready.subscriptions[i];
        let ran = s.execute();
        assert(subscription_ran(ready.subscriptions@[i as int], ran));
        match ran {
            Ok(()) => {
                assert(subscription_succeeded(ready.subscriptions@[i as int]));
            },
            Err(e) => {
                assert(ran_in_order(
                    ready.subscriptions@,
                    ready.clients@,
                    ready.services@,
                    Err::<(), RclrsError>(e),
                ));
                return Err(e);
            },
        }
    }
    let n = ready.clients.len();
    for i in 0..n
        invariant
            n == ready.clients@.len(),
            subscriptions_ran_ok(ready.subscriptions@, ready.subscriptions@.len() as int),
            clients_ran_ok(ready.clients@, i as int),
    {
        let c: &C = &ready.clients[i];
        let ran = c.execute();
        assert(client_ran(ready.clients@[i as int], ran));
        match ran {
            Ok(()) => {
                assert(client_succeeded(ready.clients@[i as int]));
            },
            Err(e) => {
                assert(ran_in_order(
                    ready.subscriptions@,
                    ready.clients@,
                    ready.services@,
                    Err::<(), RclrsError>(e),
                ));
                return Err(e);
            },
        }
    }
    let n = ready.services.len();
    for i in 0..n
        invariant
            n == ready.services@.len(),
            subscriptions_ran_ok(ready.subscriptions@, ready.subscriptions@.len() as int),
            clients_ran_ok(ready.clients@, ready.clients@.len() as int),
            services_ran_ok(ready.services@, i as int),
    {
        let v: &V = &ready.services[i];
        let ran = v.execute();
        assert(service_ran(ready.services@[i as int], ran));
        match ran {
            Ok(()) => {
                assert(service_succeeded(ready.services@[i as int]));
            },
            Err(e) => {
                assert(ran_in_order(
                    ready.subscriptions@,
                    ready.clients@,
                    ready.services@,
                    Err::<(), RclrsError>(e),
                ));
                return Err(e);
            },
        }
    }
    Ok(())
}

/// Polls the node for new messages and executes the corresponding callbacks.
///
/// See [`WaitSet::wait`] for the meaning of the `timeout` parameter; `rcl_wait` is the
/// middleware's wait that it hands on to, and `rcl_wait_set_init` the middleware's initialisation
/// of a wait set that [`WaitSet::new`] hands the capacities to.
///
/// This may under some circumstances return
/// [`SubscriptionTakeFailed`][1], [`ClientTakeFailed`][1], [`ServiceTakeFailed`][1] when the wait
/// set spuriously wakes up.
/// This can usually be ignored.
///
/// [1]: crate::RclReturnCode
pub fn spin_once<S: SubscriptionBase, C: ClientBase, V: ServiceBase, I, F>(
    node: &Node<S, C, V>,
    timeout: Option<Duration>,
    rcl_wait_set_init: I,
    rcl_wait: F,
) -> (r: Result<(), RclrsError>) where
    I: FnOnce(&Context, WaitSetCapacities) -> Result<(), RclrsError>,
    F: FnOnce(&WaitSet<S, C, V>, i64) -> Result<WaitReadiness, RclrsError>,

    requires
        forall|ctx: Context, capacities: WaitSetCapacities|
            rcl_wait_set_init.requires((&ctx, capacities)),
        forall|ws: WaitSet<S, C, V>, timeout_ns: i64| rcl_wait.requires((&ws, timeout_ns)),
    ensures
        spin_once_result(*node, timeout_nanos(timeout), rcl_wait_set_init, rcl_wait, r),
{
    let live_subscriptions = node.live_subscriptions();
    let live_clients = node.live_clients();
    let live_services = node.live_services();
    let ctx = node.context();
    let created = WaitSet::new(
        live_subscriptions.len(),
        0,
        0,
        live_clients.len(),
        live_services.len(),
        0,
        &ctx,
        rcl_wait_set_init,
    );
    let ghost initialised = choose|initialised: Result<(), RclrsError>|
        #[trigger] rcl_wait_set_init.ensures((&ctx, node.wait_set_capacities()), initialised)
            && creation_result_for(node.wait_set_view().cleared(), initialised, created);
    assert(rcl_wait_set_init.ensures((&ctx, node.wait_set_capacities()), initialised));
    let mut wait_set: WaitSet<S, C, V> = match created {
        Ok(ws) => ws,
        Err(e) => return Err(e),
    };

    let n = live_subscriptions.len();
    assert(live_subscriptions@.take(0) =~= Seq::empty());
    for i in 0..n
        invariant
            n == live_subscriptions@.len(),
            live_subscriptions@ == node.spec_subscriptions(),
            live_clients@ == node.spec_clients(),
            live_services@ == node.spec_services(),
            wait_set@ == (WaitSetView {
                subscriptions: live_subscriptions@.take(i as int),
                ..node.wait_set_view().cleared()
            }),
    {
        match wait_set.add_subscription(arc_clone(&live_subscriptions[i])) {
            Ok(()) => {},
            Err(e) => return Err(e),
        }
        assert(live_subscriptions@.take(i + 1) =~= live_subscriptions@.take(i as int).push(
            live_subscriptions@[i as int],
        ));
    }
    assert(live_subscriptions@.take(n as int) =~= live_subscriptions@);

    let n = live_clients.len();
    assert(live_clients@.take(0) =~= Seq::empty());
    for i in 0..n
        invariant
            n == live_clients@.len(),
            live_subscriptions@ == node.spec_subscriptions(),
            live_clients@ == node.spec_clients(),
            live_services@ == node.spec_services(),
            wait_set@ == (WaitSetView {
                subscriptions: node.spec_subscriptions(),
                clients: live_clients@.take(i as int),
                ..node.wait_set_view().cleared()
            }),
    {
        match wait_set.add_client(arc_clone(&live_clients[i])) {
            Ok(()) => {},
            Err(e) => return Err(e),
        }
        assert(live_clients@.take(i + 1) =~= live_clients@.take(i as int).push(
            live_clients@[i as int],
        ));
    }
    assert(live_clients@.take(n as int) =~= live_clients@);

    let n = live_services.len();
    assert(live_services@.take(0) =~= Seq::empty());
    for i in 0..n
        invariant
            n == live_services@.len(),
            live_subscriptions@ == node.spec_subscriptions(),
            live_clients@ == node.spec_clients(),
            live_services@ == node.spec_services(),
            wait_set@ == (WaitSetView {
                subscriptions: node.spec_subscriptions(),
                clients: node.spec_clients(),
                services: live_services@.take(i as int),
                ..node.wait_set_view().cleared()
            }),
    {
        match wait_set.add_service(arc_clone(&live_services[i])) {
            Ok(()) => {},
            Err(e) => return Err(e),
        }
        assert(live_services@.take(i + 1) =~= live_services@.take(i as int).push(
            live_services@[i as int],
        ));
    }
    assert(live_services@.take(n as int) =~= live_services@);
    assert(wait_set@ == node.wait_set_view());

    let ready_entities = match wait_set.wait(timeout, rcl_wait) {
        Ok(ready) => ready,
        Err(e) => return Err(e),
    };
    execute_ready(&ready_entities)
}

/// One step of a loop that spins while the node's context is valid: `context_valid` is what the
/// loop's check of the context found.
///
/// On an invalid context nothing is spun and `Ok(false)` ends the loop. Otherwise the node is spun
/// once with the given timeout; a failure other than a timeout is returned, and `Ok(true)` lets
/// the loop go on.
pub fn spin_step<S: SubscriptionBase, C: ClientBase, V: ServiceBase, I, F>(
    node: &Node<S, C, V>,
    context_valid: bool,
    timeout: Option<Duration>,
    rcl_wait_set_init: I,
    rcl_wait: F,
) -> (r: Result<bool, RclrsError>) where
    I: FnOnce(&Context, WaitSetCapacities) -> Result<(), RclrsError>,
    F: FnOnce(&WaitSet<S, C, V>, i64) -> Result<WaitReadiness, RclrsError>,

    requires
        forall|ctx: Context, capacities: WaitSetCapacities|
            rcl_wait_set_init.requires((&ctx, capacities)),
        forall|ws: WaitSet<S, C, V>, timeout_ns: i64| rcl_wait.requires((&ws, timeout_ns)),
    ensures
        !context_valid ==> r == Ok::<bool, RclrsError>(false),
        context_valid ==> r != Ok::<bool, RclrsError>(false),
        context_valid ==> exists|spun: Result<(), RclrsError>|
            #[trigger] spin_once_result(
                *node,
                timeout_nanos(timeout),
                rcl_wait_set_init,
                rcl_wait,
                spun,
            ) && r == spec_spin_step(spun),
{
    if context_valid {
        let spun = spin_once(node, timeout, rcl_wait_set_init, rcl_wait);
        let ghost result = spun;
        assert(spin_once_result(
            *node,
            timeout_nanos(timeout),
            rcl_wait_set_init,
            rcl_wait,
            result,
        ));
        let r = match spin_outcome(spun) {
            SpinOutcome::Failed(e) => Err(e),
            _ => Ok(true),
        };
        assert(r == spec_spin_step(result));
        r
    } else {
        Ok(false)
    }
}

/// What a loop that spins until a future completes does next.
#[derive(Debug, PartialEq, Eq)]
pub enum FutureStep {
    /// The spin succeeded: poll the future.
    Poll,
    /// Nothing was spun, or the wait timed out: go round again without polling.
    Retry,
    /// The spin failed: stop with the given error.
    Fail(RclrsError),
}

/// What the loop of `spin_until_future_complete` does after a spin with the given result.
pub open spec fn spec_future_step(spun: Result<(), RclrsError>) -> FutureStep {
    match spec_spin_outcome(spun) {
        SpinOutcome::Spun => FutureStep::Poll,
        SpinOutcome::TimedOut => FutureStep::Retry,
        SpinOutcome::Failed(e) => FutureStep::Fail(e),
    }
}

/// After a spin, the loop that waits on a future polls it exactly when the spin succeeded,
/// retries exactly when the wait timed out, and stops with every other error as it came.
pub proof fn lemma_future_step_fails_on_every_other_error(spun: Result<(), RclrsError>)
    ensures
        spun is Ok ==> spec_future_step(spun) == FutureStep::Poll,
        spun is Err && spun->Err_0.spec_code() == RclReturnCode::Timeout ==> spec_future_step(spun)
            == FutureStep::Retry,
        spun is Err && spun->Err_0.spec_code() != RclReturnCode::Timeout ==> spec_future_step(spun)
            == FutureStep::Fail(spun->Err_0),
        spec_future_step(spun) == FutureStep::Poll ==> spun is Ok,
        spec_future_step(spun) == FutureStep::Retry ==> (spun is Err && spun->Err_0.spec_code()
            == RclReturnCode::Timeout),
{
}

/// One step of the loop of `spin_until_future_complete`: `context_valid` is what the loop's
/// check of the context found.
///
/// On an invalid context nothing is spun and the loop retries. Otherwise the node is spun once
/// without a timeout: after a success the future is to be polled, after a timeout the loop
/// retries, and any other error ends the loop.
pub fn spin_until_future_step<S: SubscriptionBase, C: ClientBase, V: ServiceBase, I, F>(
    node: &Node<S, C, V>,
    context_valid: bool,
    rcl_wait_set_init: I,
    rcl_wait: F,
) -> (step: FutureStep) where
    I: FnOnce(&Context, WaitSetCapacities) -> Result<(), RclrsError>,
    F: FnOnce(&WaitSet<S, C, V>, i64) -> Result<WaitReadiness, RclrsError>,

    requires
        forall|ctx: Context, capacities: WaitSetCapacities|
            rcl_wait_set_init.requires((&ctx, capacities)),
        forall|ws: WaitSet<S, C, V>, timeout_ns: i64| rcl_wait.requires((&ws, timeout_ns)),
    ensures
        !context_valid ==> step == FutureStep::Retry,
        context_valid && step == FutureStep::Retry ==> exists|e: RclrsError|
            e.spec_code() == RclReturnCode::Timeout && #[trigger] spin_once_result(
                *node,
                None,
                rcl_wait_set_init,
                rcl_wait,
                Err::<(), RclrsError>(e),
            ),
        context_valid ==> exists|spun: Result<(), RclrsError>|
            #[trigger] spin_once_result(*node, None, rcl_wait_set_init, rcl_wait, spun) && step
                == spec_future_step(spun),
{
    if context_valid {
        let spun = spin_once(node, None, rcl_wait_set_init, rcl_wait);
        let ghost result = spun;
        assert(spin_once_result(*node, None, rcl_wait_set_init, rcl_wait, result));
        let step = match spin_outcome(spun) {
            SpinOutcome::Spun => FutureStep::Poll,
            SpinOutcome::TimedOut => FutureStep::Retry,
            SpinOutcome::Failed(e) => FutureStep::Fail(e),
        };
        assert(step == spec_future_step(result));
        step
    } else {
        FutureStep::Retry
    }
}

/// One step of the loop of `spin_some`, which calls [`spin_once`] while the context is valid,
/// with a timeout of half a second: `context_valid` is what the loop's check of the context
/// found.
///
/// On an invalid context nothing is spun and `Ok(false)` ends the loop. Otherwise the node is spun
/// once; a failure other than a timeout is returned, and `Ok(true)` lets the loop go on.
pub fn spin_some_with<S: SubscriptionBase, C: ClientBase, V: ServiceBase, I, F>(
    node: &Node<S, C, V>,
    context_valid: bool,
    rcl_wait_set_init: I,
    rcl_wait: F,
) -> (r: Result<bool, RclrsError>) where
    I: FnOnce(&Context, WaitSetCapacities) -> Result<(), RclrsError>,
    F: FnOnce(&WaitSet<S, C, V>, i64) -> Result<WaitReadiness, RclrsError>,

    requires
        forall|ctx: Context, capacities: WaitSetCapacities|
            rcl_wait_set_init.requires((&ctx, capacities)),
        forall|ws: WaitSet<S, C, V>, timeout_ns: i64| rcl_wait.requires((&ws, timeout_ns)),
    ensures
        !context_valid ==> r == Ok::<bool, RclrsError>(false),
        context_valid ==> r != Ok::<bool, RclrsError>(false),
        context_valid ==> exists|spun: Result<(), RclrsError>|
            #[trigger] spin_once_result(
                *node,
                Some(500_000_000u128),
                rcl_wait_set_init,
                rcl_wait,
                spun,
            ) && r == spec_spin_step(spun),
{
    spin_step(node, context_valid, Some(duration_from_millis(500)), rcl_wait_set_init, rcl_wait)
}

} // verus!
