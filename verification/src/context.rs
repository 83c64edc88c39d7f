use vstd::prelude::*;

use std::sync::Arc;

use parking_lot::Mutex;

verus! {

#[verifier::external_type_specification]
#[verifier::external_body]
#[verifier::reject_recursive_types(R)]
#[verifier::reject_recursive_types(T)]
pub struct ExLockApiMutex<R, T: ?Sized>(parking_lot::lock_api::Mutex<R, T>);

#[verifier::external_type_specification]
#[verifier::external_body]
pub struct ExRawMutex(parking_lot::RawMutex);

/// The middleware's state of an initialised context, as far as this library reads it.
pub struct RclContext {
    /// Whether the context is still initialised (it has not been shut down).
    pub is_valid: bool,
}

/// Shared, thread-safe handle to the middleware context.
pub struct Context {
    pub(crate) rcl_context_mtx: Arc<Mutex<RclContext>>,
}

/// Calls `Arc::clone`: the clone points to the same allocation, so it holds the same value.
#[verifier::external_body]
pub(crate) fn arc_clone<T>(a: &Arc<T>) -> (r: Arc<T>)
    ensures
        r == *a,
{
    Arc::clone(a)
}

/// Calls `parking_lot::Mutex::new` on the context state. Nothing is stated of what the mutex
/// holds: other threads may change it through the lock at any time.
#[verifier::external_body]
fn new_context_mutex(rcl_context: RclContext) -> Mutex<RclContext> {
    Mutex::new(rcl_context)
}

/// Calls `parking_lot::Mutex::lock` and reads the validity flag while the lock is held.
/// What it reads depends on what other threads wrote last, so nothing is stated of it.
/// The lock is released before the call returns and the library takes it nowhere else, so the
/// call does not deadlock on a lock that its own thread holds.
#[verifier::external_body]
pub(crate) fn context_is_valid(rcl_context_mtx: &Mutex<RclContext>) -> bool {
    rcl_context_mtx.lock().is_valid
}

impl Context {
    /// The shared mutex that this handle refers to.
    pub closed spec fn spec_mutex(&self) -> Arc<Mutex<RclContext>> {
        self.rcl_context_mtx
    }

    /// Inside the crate, the shared mutex is the handle's field.
    pub(crate) proof fn lemma_spec_mutex(&self)
        ensures
            self.spec_mutex() == self.rcl_context_mtx,
    {
    }

    /// Creates a context around the given middleware state.
    pub fn new(rcl_context: RclContext) -> (c: Context) {
        Context { rcl_context_mtx: Arc::new(new_context_mutex(rcl_context)) }
    }
}

} // verus!
