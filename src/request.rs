use vstd::prelude::*;

verus! {

/// A boxed computation that must be driven on the context that created it.
#[verifier::external_body]
#[verifier::reject_recursive_types(T)]
pub struct LocalFuture<T> {
    pub fut: core::pin::Pin<Box<dyn core::future::Future<Output = T> + 'static>>,
}

/// A boxed computation that any worker thread may drive.
#[verifier::external_body]
#[verifier::reject_recursive_types(T)]
pub struct SendFuture<T> {
    pub fut: core::pin::Pin<Box<dyn core::future::Future<Output = T> + Send + 'static>>,
}

/// Where a task item may run.
#[derive(Clone, Copy, Debug, PartialEq, Eq, Structural)]
pub enum TaskKind {
    /// Bound to the execution context that owns the dispatcher.
    Local,
    /// Free to run on any worker.
    NonLocal,
}

/// A unit of deferred work, tagged with where it may run. The tag is fixed
/// by the constructor and decides the pool the work is started on.
#[verifier::reject_recursive_types(T)]
#[allow(inconsistent_fields)]
pub enum DispatcherRequest<T> {
    Local { fut: LocalFuture<T> },
    NonLocal { fut: SendFuture<T> },
}

/// The value produced by one admitted task item.
pub struct DispatcherResponse<T> {
    pub payload: T,
}

/// Relies on `Box::pin`: moves the computation to the heap, unstarted.
#[verifier::external_body]
fn pin_local<T, F: core::future::Future<Output = T> + 'static>(task: F) -> (r: LocalFuture<T>) {
    LocalFuture { fut: Box::pin(task) }
}

/// Relies on `Box::pin`: moves the computation to the heap, unstarted.
#[verifier::external_body]
fn pin_send<T, F: core::future::Future<Output = T> + Send + 'static>(task: F) -> (r: SendFuture<T>) {
    SendFuture { fut: Box::pin(task) }
}

impl<T> DispatcherRequest<T> {
    pub open spec fn spec_kind(&self) -> TaskKind {
        match self {
            DispatcherRequest::Local { .. } => TaskKind::Local,
            DispatcherRequest::NonLocal { .. } => TaskKind::NonLocal,
        }
    }

    /// Wraps a computation that may be handed to any worker.
    pub fn non_local<F>(task: F) -> (r: Self)
        where F: core::future::Future<Output = T> + Send + 'static,
        ensures
            r.spec_kind() == TaskKind::NonLocal,
    {
        DispatcherRequest::NonLocal { fut: pin_send(task) }
    }

    /// Wraps a computation that must stay on the creating context.
    pub fn local<F>(task: F) -> (r: Self)
        where F: core::future::Future<Output = T> + 'static,
        ensures
            r.spec_kind() == TaskKind::Local,
    {
        DispatcherRequest::Local { fut: pin_local(task) }
    }

    /// The tag this item was built with.
    pub fn kind(&self) -> (k: TaskKind)
        ensures
            k == self.spec_kind(),
    {
        match self {
            DispatcherRequest::Local { .. } => TaskKind::Local,
            DispatcherRequest::NonLocal { .. } => TaskKind::NonLocal,
        }
    }
}

impl<T> DispatcherResponse<T> {
    /// Packages the value a task produced.
    pub fn new(payload: T) -> (r: Self)
        ensures
            r.payload == payload,
    {
        DispatcherResponse { payload }
    }
}

} // verus!
