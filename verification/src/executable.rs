//! User application execution business logic: the service trait, the
//! batches of updates handed to it, and the executor that applies them
//! to the replicated state.

use vstd::prelude::*;

use crate::communication::NodeId;
use crate::crypto::Digest;
use crate::error::{Error, ErrorKind};

verus! {

/// A request sent to the executor task.
pub enum ExecutionRequest<S, O> {
    /// Install state from the state transfer protocol, then replay the
    /// given operations on it.
    InstallState(S, Vec<O>),
    /// Update the state of the service with a batch of operations.
    Update(UpdateBatch<O>),
    /// Same as `Update`, and include the application state in the
    /// reply, used for local checkpoints.
    UpdateAndGetAppstate(UpdateBatch<O>),
    /// Read the state of the service; reserved for future read-only
    /// operations.
    Read(NodeId),
}

/// The data types used by the application and the SMR protocol: the
/// replicated state, the client operations, and the replies.
///
/// Their serialization is a collaborator's concern and lives with the
/// code that touches the wire.
pub trait SharedData {
    /// The application state on which requests operate.
    type State;

    /// The operation a client request carries.
    type Request;

    /// The payload of a reply to a client.
    type Reply;
}

/// A user defined `Service`.
///
/// Application logic is implemented by this trait; the engine totally
/// orders the requests and feeds them to it.
pub trait Service {
    /// The data types used by the application and the SMR protocol.
    type Data: SharedData;

    /// Returns the initial state of the application.
    fn initial_state(&mut self) -> Result<State<Self>, crate::error::Error>;

    /// Process a user request, producing a matching reply, meanwhile
    /// updating the application state.
    fn update(&mut self, state: &mut State<Self>, request: Request<Self>) -> Reply<Self>;
}

/// State type of the `Service`.
pub type State<S> = <<S as Service>::Data as SharedData>::State;

/// Request type of the `Service`.
pub type Request<S> = <<S as Service>::Data as SharedData>::Request;

/// Reply type of the `Service`.
pub type Reply<S> = <<S as Service>::Data as SharedData>::Reply;

/// The sending half of the standard library channel carrying execution
/// requests to the executor task.
#[verifier::external_type_specification]
#[verifier::external_body]
#[verifier::reject_recursive_types(T)]
pub struct ExSender<T>(std::sync::mpsc::Sender<T>);

/// Hands `request` to the executor task over the channel.
///
/// Relies on `std::sync::mpsc::Sender::send`, which delivers the value
/// to the receiver, failing only when the receiver disconnected.
#[verifier::external_body]
fn send_request<S, O>(
    tx: &std::sync::mpsc::Sender<ExecutionRequest<S, O>>,
    request: ExecutionRequest<S, O>,
) -> (r: Result<(), Error>)
    ensures
        r is Err ==> r->Err_0.spec_kind() == ErrorKind::Executable,
{
    tx.send(request).map_err(|_| Error::simple(ErrorKind::Executable))
}

/// Stateful data of the task responsible for executing client requests:
/// the user's service and the replicated state it operates on.
pub struct Executor<S: Service> {
    /// The user's service.
    pub service: S,
    /// The replicated application state.
    pub state: State<S>,
}

impl<S> Executor<S> where S: Service {
    /// Builds the executor around `service`, starting from the
    /// service's initial state; fails when the service cannot produce
    /// one.
    pub fn new(service: S) -> (r: Result<Executor<S>, Error>) {
        let mut service = service;
        let state = match service.initial_state() {
            Ok(state) => state,
            Err(e) => {
                return Err(e);
            },
        };
        Ok(Executor { service, state })
    }

    /// Sets the current state of the execution layer to the given
    /// value, then replays the operations decided after it was taken.
    ///
    /// The replay goes through the user's service, whose updates no
    /// contract here can name; with nothing to replay, the installed
    /// state is exactly the given one.
    pub fn install_state(&mut self, state: State<S>, after: Vec<Request<S>>)
        ensures
            after@.len() == 0 ==> final(self).state == state,
    {
        self.state = state;
        let mut after = after;
        let mut k: usize = 0;
        let total = after.len();
        while k < total
            invariant
                k <= total,
                after@.len() + k == total,
                total == 0 ==> self.state == state,
            decreases total - k,
        {
            let request = after.remove(0);
            self.service.update(&mut self.state, request);
            k = k + 1;
        }
    }

    /// Executes a batch of update requests against the service,
    /// producing the matching batch of replies: one per request, in
    /// order, each addressed to the client whose request it answers.
    pub fn update_batch(&mut self, batch: UpdateBatch<Request<S>>) -> (r: UpdateBatchReplies<
        Reply<S>,
    >)
        ensures
            r.inner@.len() == batch.inner@.len(),
            forall|i: int| 0 <= i < batch.inner@.len() ==> (#[trigger] r.inner@[i]).to
                == batch.inner@[i].from && r.inner@[i].digest == batch.inner@[i].digest,
    {
        let ghost updates = batch.inner@;
        let total = batch.len();
        let mut reply_batch = UpdateBatchReplies::<Reply<S>>::with_capacity(total);
        let mut inner = batch.into_inner();
        let mut k: usize = 0;
        while k < total
            invariant
                k <= total,
                inner@ =~= updates.skip(k as int),
                updates.len() == total,
                reply_batch.inner@.len() == k,
                forall|i: int| 0 <= i < k ==> (#[trigger] reply_batch.inner@[i]).to
                    == updates[i].from && reply_batch.inner@[i].digest == updates[i].digest,
            decreases total - k,
        {
            let update = inner.remove(0);
            let (peer_id, digest, request) = update.into_inner();
            let reply = self.service.update(&mut self.state, request);
            reply_batch.add(peer_id, digest, reply);
            proof {
                assert(inner@ =~= updates.skip(k as int + 1));
            }
            k = k + 1;
        }
        reply_batch
    }

    /// As `update_batch`, additionally handing out the resulting
    /// application state, used to complete a pending checkpoint.
    pub fn update_batch_and_get_appstate(&mut self, batch: UpdateBatch<Request<S>>) -> (r: (
        UpdateBatchReplies<Reply<S>>,
        State<S>,
    )) where State<S>: Clone
        ensures
            r.0.inner@.len() == batch.inner@.len(),
            forall|i: int| 0 <= i < batch.inner@.len() ==> (#[trigger] r.0.inner@[i]).to
                == batch.inner@[i].from && r.0.inner@[i].digest == batch.inner@[i].digest,
            vstd::pervasive::cloned::<State<S>>(final(self).state, r.1),
    {
        let replies = self.update_batch(batch);
        let appstate = self.state.clone();
        (replies, appstate)
    }
}

/// Represents a handle to the client request executor, which runs on a
/// dedicated task fed through a channel.
pub struct ExecutorHandle<S: Service> {
    /// The sending half of the executor task's channel.
    pub e_tx: std::sync::mpsc::Sender<ExecutionRequest<State<S>, Request<S>>>,
}

impl<S> ExecutorHandle<S> where S: Service {
    /// Wraps the sending half of an executor task's channel.
    pub fn new(e_tx: std::sync::mpsc::Sender<ExecutionRequest<State<S>, Request<S>>>) -> (r:
        Self) {
        Self { e_tx }
    }

    /// Sets the current state of the execution layer to the given
    /// value; fails when the executor task is gone.
    pub fn install_state(&mut self, state: State<S>, after: Vec<Request<S>>) -> (r: Result<
        (),
        Error,
    >)
        ensures
            r is Err ==> r->Err_0.spec_kind() == ErrorKind::Executable,
    {
        send_request(&self.e_tx, ExecutionRequest::InstallState(state, after))
    }

    /// Queues a batch of requests `batch` for execution; fails when the
    /// executor task is gone.
    pub fn queue_update(&mut self, batch: UpdateBatch<Request<S>>) -> (r: Result<(), Error>)
        ensures
            r is Err ==> r->Err_0.spec_kind() == ErrorKind::Executable,
    {
        send_request(&self.e_tx, ExecutionRequest::Update(batch))
    }

    /// Same as `queue_update()`, additionally reporting the serialized
    /// application state; this is useful during local checkpoints.
    pub fn queue_update_and_get_appstate(&mut self, batch: UpdateBatch<Request<S>>) -> (r: Result<
        (),
        Error,
    >)
        ensures
            r is Err ==> r->Err_0.spec_kind() == ErrorKind::Executable,
    {
        send_request(&self.e_tx, ExecutionRequest::UpdateAndGetAppstate(batch))
    }
}

impl<S: Service> Clone for ExecutorHandle<S> {
    /// Another handle to the same executor task.
    ///
    /// Relies on `std::sync::mpsc::Sender::clone`, which yields a
    /// sender feeding the same receiver.
    #[verifier::external_body]
    fn clone(&self) -> Self {
        let e_tx = self.e_tx.clone();
        Self { e_tx }
    }
}

/// Represents a single client update request, to be executed.
pub struct Update<O> {
    /// The client the request came from.
    pub from: NodeId,
    /// The unique digest identifying the request.
    pub digest: Digest,
    /// The operation to apply to the state.
    pub operation: O,
}

impl<O> Update<O> {
    /// Returns the inner types stored in this `Update`.
    pub fn into_inner(self) -> (r: (NodeId, Digest, O))
        ensures
            r.0 == self.from,
            r.1 == self.digest,
            r.2 == self.operation,
    {
        (self.from, self.digest, self.operation)
    }

    /// Returns a reference to the operation in this `Update`.
    pub fn operation(&self) -> (r: &O)
        ensures
            r == self.operation,
    {
        &self.operation
    }
}

impl<O: Clone> Clone for Update<O> {
    /// The clone names the same client and digest, and carries a clone
    /// of the operation.
    fn clone(&self) -> (res: Self)
        ensures
            res.from == self.from,
            res.digest == self.digest,
            vstd::pervasive::cloned::<O>(self.operation, res.operation),
    {
        Update { from: self.from, digest: self.digest, operation: self.operation.clone() }
    }
}

/// Represents a single client update reply.
pub struct UpdateReply<P> {
    /// The client the reply is destined to.
    pub to: NodeId,
    /// The unique digest of the request being answered.
    pub digest: Digest,
    /// The reply payload the service produced.
    pub payload: P,
}

impl<P> UpdateReply<P> {
    /// Returns the inner types stored in this `UpdateReply`.
    pub fn into_inner(self) -> (r: (NodeId, Digest, P))
        ensures
            r.0 == self.to,
            r.1 == self.digest,
            r.2 == self.payload,
    {
        (self.to, self.digest, self.payload)
    }
}

/// Storage for a batch of client update requests to be executed, in the
/// order the leader proposed them.
pub struct UpdateBatch<O> {
    /// The updates, in batch order.
    pub inner: Vec<Update<O>>,
}

impl<O> UpdateBatch<O> {
    /// Returns a new, empty batch of requests.
    pub fn new() -> (r: Self)
        ensures
            r.inner@.len() == 0,
    {
        Self { inner: Vec::new() }
    }

    /// Adds a new update request to the batch.
    pub fn add(&mut self, from: NodeId, digest: Digest, operation: O)
        ensures
            final(self).inner@ == old(self).inner@.push(Update { from, digest, operation }),
    {
        self.inner.push(Update { from, digest, operation });
    }

    /// Returns the inner storage.
    pub fn into_inner(self) -> (r: Vec<Update<O>>)
        ensures
            r == self.inner,
    {
        self.inner
    }

    /// Returns the length of the batch.
    pub fn len(&self) -> (r: usize)
        ensures
            r == self.inner@.len(),
    {
        self.inner.len()
    }

    /// Returns the updates of the batch, in order.
    pub fn as_ref(&self) -> (r: &[Update<O>])
        ensures
            r@ == self.inner@,
    {
        self.inner.as_slice()
    }
}

/// Storage for a batch of client update replies, in the order their
/// requests were executed.
pub struct UpdateBatchReplies<P> {
    /// The replies, in execution order.
    pub inner: Vec<UpdateReply<P>>,
}

impl<P> UpdateBatchReplies<P> {
    /// Returns a new, empty batch of replies, with the given capacity.
    pub fn with_capacity(n: usize) -> (r: Self)
        ensures
            r.inner@.len() == 0,
    {
        Self { inner: Vec::with_capacity(n) }
    }

    /// Adds a new update reply to the batch.
    pub fn add(&mut self, to: NodeId, digest: Digest, payload: P)
        ensures
            final(self).inner@ == old(self).inner@.push(UpdateReply { to, digest, payload }),
    {
        self.inner.push(UpdateReply { to, digest, payload });
    }

    /// Returns the inner storage.
    pub fn into_inner(self) -> (r: Vec<UpdateReply<P>>)
        ensures
            r == self.inner,
    {
        self.inner
    }

    /// Returns the length of the batch.
    pub fn len(&self) -> (r: usize)
        ensures
            r == self.inner@.len(),
    {
        self.inner.len()
    }
}

} // verus!
