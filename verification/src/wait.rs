use vstd::prelude::*;

use std::sync::Arc;
use std::time::Duration;

use parking_lot::Mutex;

use crate::context::{arc_clone, Context, RclContext};
use crate::error::{RclReturnCode, RclrsError};
use crate::time::{spec_rcl_timeout, timeout_nanos, timeout_to_rcl};

verus! {

/// The entities of one kind that a wait reports as ready: those at the positions whose flag is
/// set, in the order in which they were registered. A position beyond the flags is not ready.
pub open spec fn ready_filter<T>(entities: Seq<T>, flags: Seq<bool>) -> Seq<T>
    decreases entities.len(),
{
    if entities.len() == 0 {
        Seq::empty()
    } else {
        let i = entities.len() - 1;
        let before = ready_filter(entities.drop_last(), flags);
        if i < flags.len() && flags[i] {
            before.push(entities.last())
        } else {
            before
        }
    }
}

/// What a wait reports ready is drawn from the registered entities: never more of them than
/// are registered, and each one of them registered.
pub proof fn lemma_ready_are_registered<T>(entities: Seq<T>, flags: Seq<bool>)
    ensures
        ready_filter(entities, flags).len() <= entities.len(),
        forall|k: int|
            0 <= k < ready_filter(entities, flags).len() ==> entities.contains(
                #[trigger] ready_filter(entities, flags)[k],
            ),
    decreases entities.len(),
{
    if entities.len() > 0 {
        let prev = entities.drop_last();
        lemma_ready_are_registered(prev, flags);
        let r = ready_filter(entities, flags);
        assert forall|k: int| 0 <= k < r.len() implies entities.contains(#[trigger] r[k]) by {
            if k < ready_filter(prev, flags).len() {
                assert(r[k] == ready_filter(prev, flags)[k]);
                let j = choose|j: int| 0 <= j < prev.len() && prev[j] == r[k];
                assert(entities[j] == r[k]);
            } else {
                assert(r[k] == entities[entities.len() - 1]);
            }
        }
    }
}

/// Every registered entity whose flag is set is reported ready.
pub proof fn lemma_flagged_are_ready<T>(entities: Seq<T>, flags: Seq<bool>, i: int)
    requires
        0 <= i < entities.len(),
        i < flags.len(),
        flags[i],
    ensures
        ready_filter(entities, flags).contains(entities[i]),
    decreases entities.len(),
{
    let prev = entities.drop_last();
    let r = ready_filter(entities, flags);
    if i == entities.len() - 1 {
        assert(r[r.len() - 1] == entities[i]);
    } else {
        lemma_flagged_are_ready(prev, flags, i);
        let p = ready_filter(prev, flags);
        let k = choose|k: int| 0 <= k < p.len() && p[k] == prev[i];
        assert(r[k] == entities[i]);
    }
}

/// When every registered entity is flagged, all of them are reported ready, in order.
pub proof fn lemma_all_flagged_all_ready<T>(entities: Seq<T>, flags: Seq<bool>)
    requires
        entities.len() <= flags.len(),
        forall|i: int| 0 <= i < entities.len() ==> #[trigger] flags[i],
    ensures
        ready_filter(entities, flags) == entities,
    decreases entities.len(),
{
    if entities.len() > 0 {
        lemma_all_flagged_all_ready(entities.drop_last(), flags);
        assert(entities.drop_last().push(entities.last()) =~= entities);
    }
}

/// When no registered entity is flagged, nothing is reported ready.
pub proof fn lemma_none_flagged_none_ready<T>(entities: Seq<T>, flags: Seq<bool>)
    requires
        forall|i: int| 0 <= i < entities.len() && i < flags.len() ==> !#[trigger] flags[i],
    ensures
        ready_filter(entities, flags).len() == 0,
    decreases entities.len(),
{
    if entities.len() > 0 {
        lemma_none_flagged_none_ready(entities.drop_last(), flags);
    }
}

/// The abstract state of a wait set: the capacities it was created with and the entities
/// registered so far, each kind in the order of registration.
pub struct WaitSetView<S, C, V> {
    pub context: Arc<Mutex<RclContext>>,
    pub subscription_capacity: nat,
    pub guard_condition_capacity: nat,
    pub timer_capacity: nat,
    pub client_capacity: nat,
    pub service_capacity: nat,
    pub event_capacity: nat,
    pub subscriptions: Seq<Arc<S>>,
    pub clients: Seq<Arc<C>>,
    pub services: Seq<Arc<V>>,
}

impl<S, C, V> WaitSetView<S, C, V> {
    /// A wait set bound to the given context, with the given capacities and nothing registered.
    pub open spec fn initial(
        context: Arc<Mutex<RclContext>>,
        subscription_capacity: nat,
        guard_condition_capacity: nat,
        timer_capacity: nat,
        client_capacity: nat,
        service_capacity: nat,
        event_capacity: nat,
    ) -> WaitSetView<S, C, V> {
        WaitSetView {
            context,
            subscription_capacity,
            guard_condition_capacity,
            timer_capacity,
            client_capacity,
            service_capacity,
            event_capacity,
            subscriptions: Seq::empty(),
            clients: Seq::empty(),
            services: Seq::empty(),
        }
    }

    /// The same context and capacities with nothing registered.
    pub open spec fn cleared(self) -> WaitSetView<S, C, V> {
        WaitSetView::initial(
            self.context,
            self.subscription_capacity,
            self.guard_condition_capacity,
            self.timer_capacity,
            self.client_capacity,
            self.service_capacity,
            self.event_capacity,
        )
    }

    /// Clearing a wait set gives the state that creating one with the same capacities gives,
    /// and that state holds no more entities than its capacities.
    pub proof fn lemma_clear_restores_new(self)
        ensures
            self.cleared() == WaitSetView::<S, C, V>::initial(
                self.context,
                self.subscription_capacity,
                self.guard_condition_capacity,
                self.timer_capacity,
                self.client_capacity,
                self.service_capacity,
                self.event_capacity,
            ),
            self.cleared().within_capacity(),
            self.cleared().is_empty(),
    {
    }

    /// No kind holds more entities than its capacity.
    pub open spec fn within_capacity(self) -> bool {
        &&& self.subscriptions.len() <= self.subscription_capacity
        &&& self.clients.len() <= self.client_capacity
        &&& self.services.len() <= self.service_capacity
    }

    /// Nothing is registered that a wait could wait on.
    pub open spec fn is_empty(self) -> bool {
        &&& self.subscriptions.len() == 0
        &&& self.clients.len() == 0
        &&& self.services.len() == 0
    }

    /// The state after a subscription was added.
    pub open spec fn with_subscription(self, s: Arc<S>) -> WaitSetView<S, C, V> {
        WaitSetView { subscriptions: self.subscriptions.push(s), ..self }
    }

    /// The state after a client was added.
    pub open spec fn with_client(self, c: Arc<C>) -> WaitSetView<S, C, V> {
        WaitSetView { clients: self.clients.push(c), ..self }
    }

    /// The state after a service was added.
    pub open spec fn with_service(self, v: Arc<V>) -> WaitSetView<S, C, V> {
        WaitSetView { services: self.services.push(v), ..self }
    }

    /// The state after one operation: an add takes effect only below its kind's capacity, a
    /// wait changes nothing, a clear empties every kind.
    pub open spec fn after(self, op: WaitSetOp<S, C, V>) -> WaitSetView<S, C, V> {
        match op {
            WaitSetOp::AddSubscription(s) => if self.subscriptions.len() < self.subscription_capacity {
                self.with_subscription(s)
            } else {
                self
            },
            WaitSetOp::AddClient(c) => if self.clients.len() < self.client_capacity {
                self.with_client(c)
            } else {
                self
            },
            WaitSetOp::AddService(v) => if self.services.len() < self.service_capacity {
                self.with_service(v)
            } else {
                self
            },
            WaitSetOp::Wait => self,
            WaitSetOp::Clear => self.cleared(),
        }
    }

    /// The state after a sequence of operations, applied in order.
    pub open spec fn after_all(self, ops: Seq<WaitSetOp<S, C, V>>) -> WaitSetView<S, C, V>
        decreases ops.len(),
    {
        if ops.len() == 0 {
            self
        } else {
            self.after_all(ops.drop_last()).after(ops.last())
        }
    }

    /// Starting from a wait set with nothing registered (as `new` and `clear` leave it), any
    /// sequence of adds, waits and clears leaves registered, per kind and in order, exactly the
    /// entities of the adds that succeeded since the last clear; no kind exceeds its capacity;
    /// the context and the capacities never change.
    pub proof fn lemma_registered_are_accepted_adds(self, ops: Seq<WaitSetOp<S, C, V>>)
        requires
            self.is_empty(),
        ensures
            self.after_all(ops) == (WaitSetView {
                subscriptions: accepted_subscriptions(self.subscription_capacity, ops),
                clients: accepted_clients(self.client_capacity, ops),
                services: accepted_services(self.service_capacity, ops),
                ..self
            }),
            self.after_all(ops).within_capacity(),
        decreases ops.len(),
    {
        if ops.len() == 0 {
            assert(self.subscriptions =~= Seq::empty());
            assert(self.clients =~= Seq::empty());
            assert(self.services =~= Seq::empty());
        } else {
            self.lemma_registered_are_accepted_adds(ops.drop_last());
            let prev = self.after_all(ops.drop_last());
            assert(self.after_all(ops) == prev.after(ops.last()));
            match ops.last() {
                WaitSetOp::Clear => {
                    assert(accepted_subscriptions(self.subscription_capacity, ops) =~= Seq::empty());
                    assert(accepted_clients(self.client_capacity, ops) =~= Seq::empty());
                    assert(accepted_services(self.service_capacity, ops) =~= Seq::empty());
                },
                _ => {},
            }
        }
    }
}

/// An operation on a wait set: what a call of `add_*`, `wait` or `clear` does to it.
pub enum WaitSetOp<S, C, V> {
    AddSubscription(Arc<S>),
    AddClient(Arc<C>),
    AddService(Arc<V>),
    Wait,
    Clear,
}

/// The subscriptions of the adds that succeed in `ops` since its last clear, in order, starting
/// from none with the given capacity: an add succeeds while fewer than `capacity` are registered.
pub open spec fn accepted_subscriptions<S, C, V>(capacity: nat, ops: Seq<WaitSetOp<S, C, V>>) -> Seq<
    Arc<S>,
>
    decreases ops.len(),
{
    if ops.len() == 0 {
        Seq::empty()
    } else {
        let before = accepted_subscriptions(capacity, ops.drop_last());
        match ops.last() {
            WaitSetOp::AddSubscription(s) => if before.len() < capacity {
                before.push(s)
            } else {
                before
            },
            WaitSetOp::Clear => Seq::empty(),
            _ => before,
        }
    }
}

/// The clients of the adds that succeed in `ops` since its last clear, in order.
pub open spec fn accepted_clients<S, C, V>(capacity: nat, ops: Seq<WaitSetOp<S, C, V>>) -> Seq<
    Arc<C>,
>
    decreases ops.len(),
{
    if ops.len() == 0 {
        Seq::empty()
    } else {
        let before = accepted_clients(capacity, ops.drop_last());
        match ops.last() {
            WaitSetOp::AddClient(c) => if before.len() < capacity {
                before.push(c)
            } else {
                before
            },
            WaitSetOp::Clear => Seq::empty(),
            _ => before,
        }
    }
}

/// The services of the adds that succeed in `ops` since its last clear, in order.
pub open spec fn accepted_services<S, C, V>(capacity: nat, ops: Seq<WaitSetOp<S, C, V>>) -> Seq<
    Arc<V>,
>
    decreases ops.len(),
{
    if ops.len() == 0 {
        Seq::empty()
    } else {
        let before = accepted_services(capacity, ops.drop_last());
        match ops.last() {
            WaitSetOp::AddService(v) => if before.len() < capacity {
                before.push(v)
            } else {
                before
            },
            WaitSetOp::Clear => Seq::empty(),
            _ => before,
        }
    }
}

/// The capacities that a wait set is created with, as the middleware's initialisation of the
/// wait set receives them.
#[derive(Clone, Copy, Debug, PartialEq, Eq, Structural)]
pub struct WaitSetCapacities {
    pub subscriptions: usize,
    pub guard_conditions: usize,
    pub timers: usize,
    pub clients: usize,
    pub services: usize,
    pub events: usize,
}

/// What the middleware reports after a wait: for each kind, one flag per registered entity,
/// in the order of registration, set where the entity became ready.
pub struct WaitReadiness {
    pub subscriptions: Vec<bool>,
    pub clients: Vec<bool>,
    pub services: Vec<bool>,
}

/// A list of entities that are ready, returned by [`WaitSet::wait`].
pub struct ReadyEntities<S, C, V> {
    /// A list of subscriptions that have potentially received messages.
    pub subscriptions: Vec<Arc<S>>,
    pub clients: Vec<Arc<C>>,
    pub services: Vec<Arc<V>>,
}

impl<S, C, V> ReadyEntities<S, C, V> {
    /// The ready entities that a wait set in state `ws` reports for the given flags.
    pub open spec fn reported_by(self, ws: WaitSetView<S, C, V>, readiness: WaitReadiness) -> bool {
        &&& self.subscriptions@ == ready_filter(ws.subscriptions, readiness.subscriptions@)
        &&& self.clients@ == ready_filter(ws.clients, readiness.clients@)
        &&& self.services@ == ready_filter(ws.services, readiness.services@)
    }
}

/// What a wait returns, given what the middleware reported.
pub open spec fn wait_result_for<S, C, V>(
    ws: WaitSetView<S, C, V>,
    reported: Result<WaitReadiness, RclrsError>,
    r: Result<ReadyEntities<S, C, V>, RclrsError>,
) -> bool {
    match reported {
        Err(e) => r == Err::<ReadyEntities<S, C, V>, RclrsError>(e),
        Ok(readiness) => r matches Ok(ready) && ready.reported_by(ws, readiness),
    }
}

/// What creating a wait set returns, given what the middleware's initialisation reported: its
/// error unchanged, or a wait set in the state `initial`.
pub open spec fn creation_result_for<S, C, V>(
    initial: WaitSetView<S, C, V>,
    initialised: Result<(), RclrsError>,
    r: Result<WaitSet<S, C, V>, RclrsError>,
) -> bool {
    &&& initialised matches Err(e) ==> r == Err::<WaitSet<S, C, V>, RclrsError>(e)
    &&& initialised is Ok ==> (r matches Ok(ws) && ws@ == initial)
}

/// A struct for waiting on subscriptions and other waitable entities to become ready.
pub struct WaitSet<S, C, V> {
    number_of_subscriptions: usize,
    number_of_guard_conditions: usize,
    number_of_timers: usize,
    number_of_clients: usize,
    number_of_services: usize,
    number_of_events: usize,
    // Used to ensure the context is alive while the wait set is alive.
    _rcl_context_mtx: Arc<Mutex<RclContext>>,
    // The subscriptions that are currently registered in the wait set.
    subscriptions: Vec<Arc<S>>,
    clients: Vec<Arc<C>>,
    services: Vec<Arc<V>>,
}

impl<S, C, V> View for WaitSet<S, C, V> {
    type V = WaitSetView<S, C, V>;

    closed spec fn view(&self) -> WaitSetView<S, C, V> {
        WaitSetView {
            context: self._rcl_context_mtx,
            subscription_capacity: self.number_of_subscriptions as nat,
            guard_condition_capacity: self.number_of_guard_conditions as nat,
            timer_capacity: self.number_of_timers as nat,
            client_capacity: self.number_of_clients as nat,
            service_capacity: self.number_of_services as nat,
            event_capacity: self.number_of_events as nat,
            subscriptions: self.subscriptions@,
            clients: self.clients@,
            services: self.services@,
        }
    }
}

/// Filters the entities of one kind by the flags that the middleware reported.
fn collect_ready<T>(entities: &Vec<Arc<T>>, flags: &Vec<bool>) -> (ready: Vec<Arc<T>>)
    ensures
        ready@ == ready_filter(entities@, flags@),
{
    let mut ready: Vec<Arc<T>> = Vec::new();
    let n = entities.len();
    for i in 0..n
        invariant
            n == entities@.len(),
            ready@ == ready_filter(entities@.take(i as int), flags@),
    {
        assert(entities@.take(i + 1).drop_last() =~= entities@.take(i as int));
        if i < flags.len() && flags[i] {
            ready.push(arc_clone(&entities[i]));
        }
    }
    assert(entities@.take(n as int) =~= entities@);
    ready
}

impl<S, C, V> WaitSet<S, C, V> {
    /// Creates a new wait set.
    ///
    /// The given number of subscriptions is a capacity, corresponding to how often
    /// [`WaitSet::add_subscription`] may be called.
    ///
    /// The middleware's own wait set is initialised by `rcl_wait_set_init`, which receives the
    /// context and the capacities; its error is returned unchanged. The new wait set holds a handle to `context`,
    /// which keeps the context alive as long as the wait set.
    pub fn new<I>(
        number_of_subscriptions: usize,
        number_of_guard_conditions: usize,
        number_of_timers: usize,
        number_of_clients: usize,
        number_of_services: usize,
        number_of_events: usize,
        context: &Context,
        rcl_wait_set_init: I,
    ) -> (r: Result<Self, RclrsError>) where
        I: FnOnce(&Context, WaitSetCapacities) -> Result<(), RclrsError>,

        requires
            forall|ctx: Context, capacities: WaitSetCapacities|
                rcl_wait_set_init.requires((&ctx, capacities)),
        ensures
            exists|initialised: Result<(), RclrsError>|
                #[trigger] rcl_wait_set_init.ensures(
                    (context, (WaitSetCapacities {
                        subscriptions: number_of_subscriptions,
                        guard_conditions: number_of_guard_conditions,
                        timers: number_of_timers,
                        clients: number_of_clients,
                        services: number_of_services,
                        events: number_of_events,
                    }),),
                    initialised,
                ) && creation_result_for(
                    WaitSetView::<S, C, V>::initial(
                        context.spec_mutex(),
                        number_of_subscriptions as nat,
                        number_of_guard_conditions as nat,
                        number_of_timers as nat,
                        number_of_clients as nat,
                        number_of_services as nat,
                        number_of_events as nat,
                    ),
                    initialised,
                    r,
                ),
    {
        let capacities = WaitSetCapacities {
            subscriptions: number_of_subscriptions,
            guard_conditions: number_of_guard_conditions,
            timers: number_of_timers,
            clients: number_of_clients,
            services: number_of_services,
            events: number_of_events,
        };
        let initialised = rcl_wait_set_init(context, capacities);
        let ghost reported = initialised;
        if let Err(e) = initialised {
            return Err(e);
        }
        proof {
            context.lemma_spec_mutex();
        }
        let ws = WaitSet {
            number_of_subscriptions,
            number_of_guard_conditions,
            number_of_timers,
            number_of_clients,
            number_of_services,
            number_of_events,
            _rcl_context_mtx: arc_clone(&context.rcl_context_mtx),
            subscriptions: Vec::new(),
            clients: Vec::new(),
            services: Vec::new(),
        };
        assert(rcl_wait_set_init.ensures((context, capacities), reported));
        Ok(ws)
    }

    /// Removes all entities from the wait set.
    ///
    /// This effectively resets the wait set to the state it was in after being created by
    /// [`WaitSet::new`].
    pub fn clear(&mut self)
        ensures
            final(self)@ == old(self)@.cleared(),
            final(self)@ == old(self)@.after(WaitSetOp::Clear),
    {
        self.subscriptions.clear();
        self.clients.clear();
        self.services.clear();
    }

    /// Adds a subscription to the wait set.
    ///
    /// It is possible, but not useful, to add the same subscription twice.
    ///
    /// This will return an error if the number of subscriptions in the wait set is larger than the
    /// capacity set in [`WaitSet::new`].
    pub fn add_subscription(&mut self, subscription: Arc<S>) -> (r: Result<(), RclrsError>)
        ensures
            final(self)@ == old(self)@.after(WaitSetOp::AddSubscription(subscription)),
            old(self)@.within_capacity() ==> final(self)@.within_capacity(),
            old(self)@.subscriptions.len() < old(self)@.subscription_capacity ==> {
                &&& r is Ok
                &&& final(self)@ == old(self)@.with_subscription(subscription)
            },
            old(self)@.subscriptions.len() >= old(self)@.subscription_capacity ==> {
                &&& r == Err::<(), RclrsError>(RclrsError::bare(RclReturnCode::WaitSetFull))
                &&& final(self)@ == old(self)@
            },
    {
        if self.subscriptions.len() < self.number_of_subscriptions {
            self.subscriptions.push(subscription);
            Ok(())
        } else {
            Err(RclrsError::from_code(RclReturnCode::WaitSetFull))
        }
    }

    /// Adds a client to the wait set.
    ///
    /// It is possible, but not useful, to add the same client twice.
    ///
    /// This will return an error if the number of clients in the wait set is larger than the
    /// capacity set in [`WaitSet::new`].
    pub fn add_client(&mut self, client: Arc<C>) -> (r: Result<(), RclrsError>)
        ensures
            final(self)@ == old(self)@.after(WaitSetOp::AddClient(client)),
            old(self)@.within_capacity() ==> final(self)@.within_capacity(),
            old(self)@.clients.len() < old(self)@.client_capacity ==> {
                &&& r is Ok
                &&& final(self)@ == old(self)@.with_client(client)
            },
            old(self)@.clients.len() >= old(self)@.client_capacity ==> {
                &&& r == Err::<(), RclrsError>(RclrsError::bare(RclReturnCode::WaitSetFull))
                &&& final(self)@ == old(self)@
            },
    {
        if self.clients.len() < self.number_of_clients {
            self.clients.push(client);
            Ok(())
        } else {
            Err(RclrsError::from_code(RclReturnCode::WaitSetFull))
        }
    }

    /// Adds a service to the wait set.
    ///
    /// It is possible, but not useful, to add the same service twice.
    ///
    /// This will return an error if the number of services in the wait set is larger than the
    /// capacity set in [`WaitSet::new`].
    pub fn add_service(&mut self, service: Arc<V>) -> (r: Result<(), RclrsError>)
        ensures
            final(self)@ == old(self)@.after(WaitSetOp::AddService(service)),
            old(self)@.within_capacity() ==> final(self)@.within_capacity(),
            old(self)@.services.len() < old(self)@.service_capacity ==> {
                &&& r is Ok
                &&& final(self)@ == old(self)@.with_service(service)
            },
            old(self)@.services.len() >= old(self)@.service_capacity ==> {
                &&& r == Err::<(), RclrsError>(RclrsError::bare(RclReturnCode::WaitSetFull))
                &&& final(self)@ == old(self)@
            },
    {
        if self.services.len() < self.number_of_services {
            self.services.push(service);
            Ok(())
        } else {
            Err(RclrsError::from_code(RclReturnCode::WaitSetFull))
        }
    }

    /// The registered subscriptions, in the order of registration.
    pub fn subscriptions(&self) -> (r: &Vec<Arc<S>>)
        ensures
            r@ == self@.subscriptions,
    {
        &self.subscriptions
    }

    /// The registered clients, in the order of registration.
    pub fn clients(&self) -> (r: &Vec<Arc<C>>)
        ensures
            r@ == self@.clients,
    {
        &self.clients
    }

    /// The registered services, in the order of registration.
    pub fn services(&self) -> (r: &Vec<Arc<V>>)
        ensures
            r@ == self@.services,
    {
        &self.services
    }

    /// The entities that are ready according to what the middleware reported, each kind in the
    /// order of registration.
    pub fn ready_entities(&self, readiness: &WaitReadiness) -> (ready: ReadyEntities<S, C, V>)
        ensures
            ready.reported_by(self@, *readiness),
    {
        ReadyEntities {
            subscriptions: collect_ready(&self.subscriptions, &readiness.subscriptions),
            clients: collect_ready(&self.clients, &readiness.clients),
            services: collect_ready(&self.services, &readiness.services),
        }
    }

    /// Blocks until the wait set is ready, or until the timeout has been exceeded.
    ///
    /// If the timeout is `None` then this function will block indefinitely until
    /// something in the wait set is valid or it is interrupted.
    ///
    /// If the timeout is [`Duration::ZERO`][1] then this function will be non-blocking; checking what's
    /// ready now, but not waiting if nothing is ready yet.
    ///
    /// If the timeout is greater than [`Duration::ZERO`][1] then this function will return after
    /// that period of time has elapsed or the wait set becomes ready, which ever
    /// comes first.
    ///
    /// The blocking itself is done by `rcl_wait`, the middleware's wait, which receives this wait
    /// set (whose registered entities it can read through [`WaitSet::subscriptions`],
    /// [`WaitSet::clients`] and [`WaitSet::services`]) and the timeout in nanoseconds (`-1` for no
    /// timeout), and reports, for each registered entity, whether it became ready.
    ///
    /// This function does not change the entities registered in the wait set.
    ///
    /// # Errors
    ///
    /// - Passing a wait set with no wait-able items in it will return an error.
    /// - The timeout must not be so large so as to overflow an `i64` with its nanosecond
    /// representation, or an error will occur.
    ///
    /// This list is not comprehensive, since further errors may occur in the middleware; those
    /// are returned as it reported them.
    ///
    /// [1]: std::time::Duration::ZERO
    pub fn wait<F>(&mut self, timeout: Option<Duration>, rcl_wait: F) -> (r: Result<
        ReadyEntities<S, C, V>,
        RclrsError,
    >) where F: FnOnce(&WaitSet<S, C, V>, i64) -> Result<WaitReadiness, RclrsError>
        requires
            forall|ws: WaitSet<S, C, V>, timeout_ns: i64| rcl_wait.requires((&ws, timeout_ns)),
        ensures
            final(self)@ == old(self)@,
            final(self)@ == old(self)@.after(WaitSetOp::Wait),
            spec_rcl_timeout(timeout_nanos(timeout)) matches Err(e) ==> r == Err::<
                ReadyEntities<S, C, V>,
                RclrsError,
            >(e),
            spec_rcl_timeout(timeout_nanos(timeout)) is Ok && old(self)@.is_empty() ==> r == Err::<
                ReadyEntities<S, C, V>,
                RclrsError,
            >(RclrsError::bare(RclReturnCode::WaitSetEmpty)),
            spec_rcl_timeout(timeout_nanos(timeout)) matches Ok(timeout_ns) ==> (!old(self)@.is_empty()
                ==> exists|reported: Result<WaitReadiness, RclrsError>|
                #[trigger] rcl_wait.ensures((old(self), timeout_ns), reported) && wait_result_for(
                    old(self)@,
                    reported,
                    r,
                )),
    {
        let timeout_ns = match timeout_to_rcl(timeout) {
            Ok(ns) => ns,
            Err(e) => return Err(e),
        };
        if self.subscriptions.len() == 0 && self.clients.len() == 0 && self.services.len() == 0 {
            return Err(RclrsError::from_code(RclReturnCode::WaitSetEmpty));
        }
        let reported = rcl_wait(self, timeout_ns);
        match reported {
            Err(e) => Err(e),
            Ok(readiness) => Ok(self.ready_entities(&readiness)),
        }
    }
}

} // verus!
