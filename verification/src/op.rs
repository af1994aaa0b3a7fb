//! The state of a subscribe operation, and how one starts or is picked up again.
use crate::error::{OpError, OpErrorView};
use crate::message::{SubscribeMsg, SubscribeMsgView};
use crate::node::{PeerKey, Transaction};
use freenet_stdlib::prelude::ContractKey;
use std::time::Duration;
use vstd::prelude::*;

verus! {

/// How many refusals a request survives, and how many peers may pass a
/// request on.
pub const MAX_RETRIES: usize = 10;

#[derive(Debug, PartialEq, Eq)]
pub enum SubscribeState {
    /// Prepare the request to subscribe.
    PrepareRequest { id: Transaction, key: ContractKey },
    /// Received a request to subscribe to this network.
    ReceivedRequest,
    /// Awaiting the response to a request. `skip_list` holds the peers that
    /// have refused it.
    AwaitingResponse { skip_list: Vec<PeerKey>, retries: usize },
    Completed,
}

/// A state, with its skip list as a sequence.
#[verifier::ext_equal]
pub enum SubscribeStateView {
    PrepareRequest { id: Transaction, key: ContractKey },
    ReceivedRequest,
    AwaitingResponse { skip_list: Seq<PeerKey>, retries: nat },
    Completed,
}

impl View for SubscribeState {
    type V = SubscribeStateView;

    open spec fn view(&self) -> SubscribeStateView {
        match *self {
            SubscribeState::PrepareRequest { id, key } => SubscribeStateView::PrepareRequest {
                id,
                key,
            },
            SubscribeState::ReceivedRequest => SubscribeStateView::ReceivedRequest,
            SubscribeState::AwaitingResponse { skip_list, retries } =>
                SubscribeStateView::AwaitingResponse {
                    skip_list: skip_list@,
                    retries: retries as nat,
                },
            SubscribeState::Completed => SubscribeStateView::Completed,
        }
    }
}

/// A subscribe operation. Its state is gone once it has nothing left to do.
#[derive(Debug, PartialEq, Eq)]
pub struct SubscribeOp {
    pub id: Transaction,
    pub state: Option<SubscribeState>,
    pub ttl: Duration,
}

#[verifier::ext_equal]
pub struct SubscribeOpView {
    pub id: Transaction,
    pub state: Option<SubscribeStateView>,
    pub ttl: Duration,
}

/// The view of the state in `state`, if there is one.
pub open spec fn state_view(state: Option<SubscribeState>) -> Option<SubscribeStateView> {
    match state {
        Some(s) => Some(s@),
        None => None,
    }
}

impl View for SubscribeOp {
    type V = SubscribeOpView;

    open spec fn view(&self) -> SubscribeOpView {
        SubscribeOpView { id: self.id, state: state_view(self.state), ttl: self.ttl }
    }
}

impl SubscribeOpView {
    /// The operation after a change of its state alone.
    pub open spec fn with_state(self, state: Option<SubscribeStateView>) -> SubscribeOpView {
        SubscribeOpView { state, ..self }
    }

    /// A request is prepared under the operation's own transaction, and no
    /// more retries are counted than are allowed.
    pub open spec fn wf(self) -> bool {
        match self.state {
            Some(SubscribeStateView::PrepareRequest { id, .. }) => id == self.id,
            Some(SubscribeStateView::AwaitingResponse { retries, .. }) => retries <= MAX_RETRIES,
            _ => true,
        }
    }

    pub open spec fn finalized(self) -> bool {
        self.state == Some(SubscribeStateView::Completed)
    }
}

/// What an operation tells about the peers that it dealt with.
#[derive(Clone, Copy, Debug, PartialEq, Eq)]
pub enum OpOutcome {
    /// Nothing.
    Irrelevant,
}

/// An operation as the node stores it.
#[derive(Debug, PartialEq, Eq)]
pub enum OpEnum {
    Subscribe(SubscribeOp),
    /// An operation of any other kind.
    Other,
}

/// An operation that is ready to handle a message, and the peer that sent the
/// message, if the message says so.
#[derive(Debug, PartialEq, Eq)]
pub struct OpInitialization {
    pub op: SubscribeOp,
    pub sender: Option<PeerKey>,
}

#[verifier::ext_equal]
pub struct OpInitializationView {
    pub op: SubscribeOpView,
    pub sender: Option<PeerKey>,
}

impl View for OpInitialization {
    type V = OpInitializationView;

    open spec fn view(&self) -> OpInitializationView {
        OpInitializationView { op: self.op@, sender: self.sender }
    }
}

/// What handling a message comes to: the message to answer with, and the
/// operation to store.
#[derive(Debug, PartialEq, Eq)]
pub struct OperationResult {
    pub return_msg: Option<SubscribeMsg>,
    pub state: Option<SubscribeOp>,
}

#[verifier::ext_equal]
pub struct OperationResultView {
    pub return_msg: Option<SubscribeMsgView>,
    pub state: Option<SubscribeOpView>,
}

/// The view of the message in `msg`, if there is one.
pub open spec fn msg_view(msg: Option<SubscribeMsg>) -> Option<SubscribeMsgView> {
    match msg {
        Some(m) => Some(m@),
        None => None,
    }
}

/// The view of the operation in `op`, if there is one.
pub open spec fn op_view(op: Option<SubscribeOp>) -> Option<SubscribeOpView> {
    match op {
        Some(o) => Some(o@),
        None => None,
    }
}

impl View for OperationResult {
    type V = OperationResultView;

    open spec fn view(&self) -> OperationResultView {
        OperationResultView { return_msg: msg_view(self.return_msg), state: op_view(self.state) }
    }
}

/// A result whose two sides are taken by their views.
pub open spec fn result_view<T: View, F: View>(res: Result<T, F>) -> Result<T::V, F::V> {
    match res {
        Ok(value) => Ok(value@),
        Err(error) => Err(error@),
    }
}

/// The operation that a request from another peer opens on this node.
pub open spec fn received(id: Transaction, ttl: Duration) -> SubscribeOpView {
    SubscribeOpView { id, state: Some(SubscribeStateView::ReceivedRequest), ttl }
}

/// The operation that prepares a request of this node's own.
pub open spec fn prepared(id: Transaction, key: ContractKey, ttl: Duration) -> SubscribeOpView {
    SubscribeOpView { id, state: Some(SubscribeStateView::PrepareRequest { id, key }), ttl }
}

/// The operation that handles `msg`, given what was stored under the
/// message's transaction.
pub open spec fn loaded<E>(
    stored: Option<OpEnum>,
    msg: SubscribeMsgView,
    peer_timeout: Duration,
) -> Result<OpInitializationView, OpErrorView<E>> {
    let sender = match msg.sender() {
        Some(at) => Some(at.peer),
        None => None,
    };
    match stored {
        Some(OpEnum::Subscribe(op)) => Ok(OpInitializationView { op: op@, sender }),
        Some(OpEnum::Other) => Err(OpErrorView::OpNotPresent(msg.id())),
        None => Ok(OpInitializationView { op: received(msg.id(), peer_timeout), sender }),
    }
}

impl SubscribeOp {
    /// A subscription says nothing about how well peers perform.
    pub fn outcome(&self) -> (res: OpOutcome)
        ensures
            res == OpOutcome::Irrelevant,
    {
        OpOutcome::Irrelevant
    }

    /// Whether the operation has taken a subscriber, and is done.
    pub fn finalized(&self) -> (res: bool)
        ensures
            res == self@.finalized(),
            res <==> self.state == Some(SubscribeState::Completed),
    {
        matches!(self.state, Some(SubscribeState::Completed))
    }

    /// Transfers are not recorded for subscriptions.
    pub fn record_transfer(&mut self)
        ensures
            *final(self) == *old(self),
    {
    }

    /// The transaction of the operation.
    pub fn id(&self) -> (res: &Transaction)
        ensures
            *res == self@.id,
            *res == self.id,
    {
        &self.id
    }

    /// Picks up the operation that `msg` belongs to. `stored` is what the node
    /// had stored under the message's transaction, and no longer stores. With
    /// nothing stored, the message is a new request, and opens an operation
    /// that lives for `peer_timeout`.
    pub fn load_or_init<E>(
        stored: Option<OpEnum>,
        msg: &SubscribeMsg,
        peer_timeout: Duration,
    ) -> (res: Result<OpInitialization, OpError<E>>)
        ensures
            result_view(res) == loaded::<E>(stored, msg@, peer_timeout),
            stored matches Some(OpEnum::Subscribe(op)) ==> res is Ok && res->Ok_0.op == op,
            stored == Some(OpEnum::Other) ==> res == Err::<OpInitialization, OpError<E>>(
                OpError::OpNotPresent(msg@.id()),
            ),
            stored is None ==> res is Ok && res->Ok_0.op == (SubscribeOp {
                id: msg@.id(),
                state: Some(SubscribeState::ReceivedRequest),
                ttl: peer_timeout,
            }),
            res is Ok ==> res->Ok_0.sender == (match *msg {
                SubscribeMsg::ReturnSub { sender, .. } => Some(sender.peer),
                _ => None,
            }),
    {
        let sender = match msg.sender() {
            Some(at) => Some(at.peer),
            None => None,
        };
        let id = *msg.id();
        match stored {
            // was an existing operation, the other peer messaged back
            Some(OpEnum::Subscribe(op)) => Ok(OpInitialization { op, sender }),
            Some(OpEnum::Other) => Err(OpError::OpNotPresent(id)),
            // new request to subscribe to a contract, initialize the machine
            None => Ok(
                OpInitialization {
                    op: SubscribeOp {
                        id,
                        state: Some(SubscribeState::ReceivedRequest),
                        ttl: peer_timeout,
                    },
                    sender,
                },
            ),
        }
    }
}

/// Opens an operation of this node's own under the fresh transaction `id`.
pub fn start_op(key: ContractKey, id: Transaction, peer_timeout: Duration) -> (res: SubscribeOp)
    ensures
        res@ == prepared(id, key, peer_timeout),
        res == (SubscribeOp {
            id,
            state: Some(SubscribeState::PrepareRequest { id, key }),
            ttl: peer_timeout,
        }),
{
    SubscribeOp {
        id,
        state: Some(SubscribeState::PrepareRequest { id, key }),
        ttl: peer_timeout,
    }
}

/// The result that answers with `msg` and stores the operation in `state`.
/// The operation is stored even when it has no state left.
pub fn build_op_result<E>(
    id: Transaction,
    state: Option<SubscribeState>,
    msg: Option<SubscribeMsg>,
    ttl: Duration,
) -> (res: Result<OperationResult, OpError<E>>)
    ensures
        res is Ok,
        res->Ok_0.return_msg == msg,
        res->Ok_0.state == Some(SubscribeOp { id, state, ttl }),
        result_view(res) == Ok::<OperationResultView, OpErrorView<E>>(
            OperationResultView {
                return_msg: msg_view(msg),
                state: Some(SubscribeOpView { id, state: state_view(state), ttl }),
            },
        ),
{
    Ok(OperationResult { return_msg: msg, state: Some(SubscribeOp { id, state, ttl }) })
}

} // verus!
