use vstd::prelude::*;

use std::sync::Arc;

use parking_lot::Mutex;

use crate::context::{arc_clone, context_is_valid, Context, RclContext};
use crate::error::RclrsError;
use crate::wait::{WaitSetCapacities, WaitSetView};

verus! {

/// A subscription that the executor can wait on and run.
pub trait SubscriptionBase {
    /// Takes a pending message, if any, and runs the subscription's callback on it.
    fn execute(&self) -> Result<(), RclrsError>;
}

/// A client that the executor can wait on and run.
pub trait ClientBase {
    /// Takes a pending response, if any, and hands it to the waiting request.
    fn execute(&self) -> Result<(), RclrsError>;
}

/// A service that the executor can wait on and run.
pub trait ServiceBase {
    /// Takes a pending request, if any, and answers it with the service's callback.
    fn execute(&self) -> Result<(), RclrsError>;
}

/// A node: the entities it owns and the context they live in.
pub struct Node<S, C, V> {
    pub(crate) rcl_context_mtx: Arc<Mutex<RclContext>>,
    subscriptions: Vec<Arc<S>>,
    clients: Vec<Arc<C>>,
    services: Vec<Arc<V>>,
}

impl<S, C, V> Node<S, C, V> {
    /// The node's subscriptions, in the order they were added.
    pub closed spec fn spec_subscriptions(&self) -> Seq<Arc<S>> {
        self.subscriptions@
    }

    /// The node's clients, in the order they were added.
    pub closed spec fn spec_clients(&self) -> Seq<Arc<C>> {
        self.clients@
    }

    /// The node's services, in the order they were added.
    pub closed spec fn spec_services(&self) -> Seq<Arc<V>> {
        self.services@
    }

    /// The shared context that the node lives in.
    pub closed spec fn spec_context(&self) -> Arc<Mutex<RclContext>> {
        self.rcl_context_mtx
    }

    /// The wait set that holds exactly the node's entities, each kind filled to its capacity.
    pub open spec fn wait_set_view(&self) -> WaitSetView<S, C, V> {
        WaitSetView {
            context: self.spec_context(),
            subscription_capacity: self.spec_subscriptions().len(),
            guard_condition_capacity: 0,
            timer_capacity: 0,
            client_capacity: self.spec_clients().len(),
            service_capacity: self.spec_services().len(),
            event_capacity: 0,
            subscriptions: self.spec_subscriptions(),
            clients: self.spec_clients(),
            services: self.spec_services(),
        }
    }

    /// The capacities of the wait set that holds exactly the node's entities.
    pub open spec fn wait_set_capacities(&self) -> WaitSetCapacities {
        WaitSetCapacities {
            subscriptions: self.spec_subscriptions().len() as usize,
            guard_conditions: 0,
            timers: 0,
            clients: self.spec_clients().len() as usize,
            services: self.spec_services().len() as usize,
            events: 0,
        }
    }

    /// Creates a node without entities in the given context.
    pub fn new(context: &Context) -> (node: Self)
        ensures
            node.spec_subscriptions() == Seq::<Arc<S>>::empty(),
            node.spec_clients() == Seq::<Arc<C>>::empty(),
            node.spec_services() == Seq::<Arc<V>>::empty(),
            node.spec_context() == context.spec_mutex(),
    {
        proof {
            context.lemma_spec_mutex();
        }
        Node {
            rcl_context_mtx: arc_clone(&context.rcl_context_mtx),
            subscriptions: Vec::new(),
            clients: Vec::new(),
            services: Vec::new(),
        }
    }

    /// Adds a subscription to the node.
    pub fn add_subscription(&mut self, subscription: Arc<S>)
        ensures
            final(self).spec_subscriptions() == old(self).spec_subscriptions().push(subscription),
            final(self).spec_clients() == old(self).spec_clients(),
            final(self).spec_services() == old(self).spec_services(),
            final(self).spec_context() == old(self).spec_context(),
    {
        self.subscriptions.push(subscription);
    }

    /// Adds a client to the node.
    pub fn add_client(&mut self, client: Arc<C>)
        ensures
            final(self).spec_subscriptions() == old(self).spec_subscriptions(),
            final(self).spec_clients() == old(self).spec_clients().push(client),
            final(self).spec_services() == old(self).spec_services(),
            final(self).spec_context() == old(self).spec_context(),
    {
        self.clients.push(client);
    }

    /// Adds a service to the node.
    pub fn add_service(&mut self, service: Arc<V>)
        ensures
            final(self).spec_subscriptions() == old(self).spec_subscriptions(),
            final(self).spec_clients() == old(self).spec_clients(),
            final(self).spec_services() == old(self).spec_services().push(service),
            final(self).spec_context() == old(self).spec_context(),
    {
        self.services.push(service);
    }

    /// The subscriptions of the node that are alive.
    pub fn live_subscriptions(&self) -> (live: Vec<Arc<S>>)
        ensures
            live@ == self.spec_subscriptions(),
    {
        clone_all(&self.subscriptions)
    }

    /// The clients of the node that are alive.
    pub fn live_clients(&self) -> (live: Vec<Arc<C>>)
        ensures
            live@ == self.spec_clients(),
    {
        clone_all(&self.clients)
    }

    /// The services of the node that are alive.
    pub fn live_services(&self) -> (live: Vec<Arc<V>>)
        ensures
            live@ == self.spec_services(),
    {
        clone_all(&self.services)
    }

    /// Locks the node's context and reports whether it is still valid.
    pub fn context_is_valid(&self) -> bool {
        context_is_valid(&self.rcl_context_mtx)
    }

    /// A handle to the context that the node lives in.
    pub(crate) fn context(&self) -> (c: Context)
        ensures
            c.spec_mutex() == self.spec_context(),
    {
        let c = Context { rcl_context_mtx: arc_clone(&self.rcl_context_mtx) };
        proof {
            c.lemma_spec_mutex();
        }
        c
    }
}

/// A second handle to each of the given entities, in the same order.
fn clone_all<T>(entities: &Vec<Arc<T>>) -> (r: Vec<Arc<T>>)
    ensures
        r@ == entities@,
{
    let mut r: Vec<Arc<T>> = Vec::new();
    let n = entities.len();
    for i in 0..n
        invariant
            n == entities@.len(),
            r@ == entities@.take(i as int),
    {
        r.push(arc_clone(&entities[i]));
        assert(entities@.take(i + 1) =~= entities@.take(i as int).push(entities@[i as int]));
    }
    assert(entities@.take(n as int) =~= entities@);
    r
}

} // verus!
