//! How an incoming message advances an operation.
use crate::error::{OpError, OpErrorView, RingError};
use crate::message::{SubscribeMsg, SubscribeMsgView};
use crate::node::{copy_peers, ClientId, PeerKey, PeerKeyLocation, Transaction};
use crate::op::{
    build_op_result, result_view, OperationResult, OperationResultView, SubscribeOp,
    SubscribeOpView, SubscribeState, SubscribeStateView, MAX_RETRIES,
};
use crate::step::{answers, Action, ActionView, Event};
use freenet_stdlib::prelude::ContractKey;
use std::time::Duration;
use vstd::pervasive::unreached;
use vstd::prelude::*;

verus! {

/// What a `SeekNode` message says.
#[derive(Debug, PartialEq, Eq)]
pub struct Seek {
    pub id: Transaction,
    pub key: ContractKey,
    pub target: PeerKeyLocation,
    pub subscriber: PeerKeyLocation,
    pub skip_list: Vec<PeerKey>,
    pub htl: usize,
}

#[verifier::ext_equal]
pub struct SeekView {
    pub id: Transaction,
    pub key: ContractKey,
    pub target: PeerKeyLocation,
    pub subscriber: PeerKeyLocation,
    pub skip_list: Seq<PeerKey>,
    pub htl: nat,
}

impl View for Seek {
    type V = SeekView;

    open spec fn view(&self) -> SeekView {
        SeekView {
            id: self.id,
            key: self.key,
            target: self.target,
            subscriber: self.subscriber,
            skip_list: self.skip_list@,
            htl: self.htl as nat,
        }
    }
}

impl SeekView {
    /// The message that says this.
    pub open spec fn msg(self) -> SubscribeMsgView {
        SubscribeMsgView::SeekNode {
            id: self.id,
            key: self.key,
            target: self.target,
            subscriber: self.subscriber,
            skip_list: self.skip_list,
            htl: self.htl,
        }
    }

    /// The request as this node passes it on to `next`: one more hop, and one
    /// more peer to skip.
    pub open spec fn passed_on(self, next: PeerKeyLocation) -> SeekView {
        SeekView {
            target: next,
            skip_list: self.skip_list.push(self.target.peer),
            htl: self.htl + 1,
            ..self
        }
    }

    /// The refusal of the request by the peer `own`. No operation is kept.
    pub open spec fn refused(self, own: PeerKeyLocation) -> OperationResultView {
        OperationResultView {
            return_msg: Some(
                SubscribeMsgView::ReturnSub {
                    id: self.id,
                    key: self.key,
                    sender: own,
                    target: self.subscriber,
                    subscribed: false,
                },
            ),
            state: None,
        }
    }

    /// The confirmation of the request, which completes `op`. Only an
    /// operation that has received a request can confirm one.
    pub open spec fn confirmed<E>(self, op: SubscribeOpView) -> Result<
        OperationResultView,
        OpErrorView<E>,
    > {
        if op.state == Some(SubscribeStateView::ReceivedRequest) {
            Ok(
                OperationResultView {
                    return_msg: Some(
                        SubscribeMsgView::ReturnSub {
                            id: self.id,
                            key: self.key,
                            sender: self.target,
                            target: self.subscriber,
                            subscribed: true,
                        },
                    ),
                    state: Some(op.with_state(Some(SubscribeStateView::Completed))),
                },
            )
        } else {
            Err(OpErrorView::InvalidStateTransition(op.id))
        }
    }
}

/// An operation that waits for the node to perform an action.
#[derive(Debug, PartialEq, Eq)]
pub enum Pending {
    /// A request of this node's own waits for the node's location.
    RequestOwn { op: SubscribeOp, id: Transaction, key: ContractKey, target: PeerKeyLocation },
    /// A peer's request waits for this node's location.
    SeekOwn { op: SubscribeOp, seek: Seek },
    /// A peer's request waits to hear whether the contract is cached here.
    SeekCached { op: SubscribeOp, seek: Seek, own: PeerKeyLocation },
    /// A peer's request for a contract that is not cached here waits for a
    /// peer to pass it on to.
    SeekClosest { op: SubscribeOp, seek: Seek, own: PeerKeyLocation },
    /// A peer's request is being passed on as `passed`.
    SeekForward { op: SubscribeOp, seek: Seek, passed: Seek },
    /// A peer's request for a contract that is cached here waits for its
    /// subscriber to be taken.
    SeekAdd { op: SubscribeOp, seek: Seek, own: PeerKeyLocation },
    /// A refused request waits for another peer to try. `skip_list` holds the
    /// peers that have refused it and `retries` counts the tries, both with
    /// the last refusal included.
    RetryClosest {
        op_id: Transaction,
        ttl: Duration,
        id: Transaction,
        key: ContractKey,
        skip_list: Vec<PeerKey>,
        retries: usize,
    },
    /// A refused request that goes to `target` next waits for the node's
    /// location.
    RetryOwn {
        op_id: Transaction,
        ttl: Duration,
        id: Transaction,
        key: ContractKey,
        skip_list: Vec<PeerKey>,
        retries: usize,
        target: PeerKeyLocation,
    },
    /// A confirmed request waits for the subscription to be noted.
    Confirm { op: SubscribeOp, key: ContractKey },
}

/// A waiting operation, with what it holds taken by its view.
#[verifier::ext_equal]
pub enum PendingView {
    RequestOwn { op: SubscribeOpView, id: Transaction, key: ContractKey, target: PeerKeyLocation },
    SeekOwn { op: SubscribeOpView, seek: SeekView },
    SeekCached { op: SubscribeOpView, seek: SeekView, own: PeerKeyLocation },
    SeekClosest { op: SubscribeOpView, seek: SeekView, own: PeerKeyLocation },
    SeekForward { op: SubscribeOpView, seek: SeekView, passed: SeekView },
    SeekAdd { op: SubscribeOpView, seek: SeekView, own: PeerKeyLocation },
    RetryClosest {
        op_id: Transaction,
        ttl: Duration,
        id: Transaction,
        key: ContractKey,
        skip_list: Seq<PeerKey>,
        retries: nat,
    },
    RetryOwn {
        op_id: Transaction,
        ttl: Duration,
        id: Transaction,
        key: ContractKey,
        skip_list: Seq<PeerKey>,
        retries: nat,
        target: PeerKeyLocation,
    },
    Confirm { op: SubscribeOpView, key: ContractKey },
}

impl View for Pending {
    type V = PendingView;

    open spec fn view(&self) -> PendingView {
        match *self {
            Pending::RequestOwn { op, id, key, target } => PendingView::RequestOwn {
                op: op@,
                id,
                key,
                target,
            },
            Pending::SeekOwn { op, seek } => PendingView::SeekOwn { op: op@, seek: seek@ },
            Pending::SeekCached { op, seek, own } => PendingView::SeekCached {
                op: op@,
                seek: seek@,
                own,
            },
            Pending::SeekClosest { op, seek, own } => PendingView::SeekClosest {
                op: op@,
                seek: seek@,
                own,
            },
            Pending::SeekForward { op, seek, passed } => PendingView::SeekForward {
                op: op@,
                seek: seek@,
                passed: passed@,
            },
            Pending::SeekAdd { op, seek, own } => PendingView::SeekAdd {
                op: op@,
                seek: seek@,
                own,
            },
            Pending::RetryClosest { op_id, ttl, id, key, skip_list, retries } =>
                PendingView::RetryClosest {
                    op_id,
                    ttl,
                    id,
                    key,
                    skip_list: skip_list@,
                    retries: retries as nat,
                },
            Pending::RetryOwn { op_id, ttl, id, key, skip_list, retries, target } =>
                PendingView::RetryOwn {
                    op_id,
                    ttl,
                    id,
                    key,
                    skip_list: skip_list@,
                    retries: retries as nat,
                    target,
                },
            Pending::Confirm { op, key } => PendingView::Confirm { op: op@, key },
        }
    }
}

/// Where the handling of a message stands: the node has to perform an action,
/// or the handling is over.
#[derive(Debug, PartialEq, Eq)]
pub enum Progress<E> {
    Perform { action: Action, pending: Pending },
    Done(Result<OperationResult, OpError<E>>),
}

#[verifier::ext_equal]
pub enum ProgressView<E> {
    Perform { action: ActionView, pending: PendingView },
    Done(Result<OperationResultView, OpErrorView<E>>),
}

impl<E> View for Progress<E> {
    type V = ProgressView<E>;

    open spec fn view(&self) -> ProgressView<E> {
        match *self {
            Progress::Perform { action, pending } => ProgressView::Perform {
                action: action@,
                pending: pending@,
            },
            Progress::Done(res) => ProgressView::Done(result_view(res)),
        }
    }
}

impl PendingView {
    /// The action that the operation waits for.
    pub open spec fn action(self) -> ActionView {
        match self {
            PendingView::RequestOwn { .. } => ActionView::OwnLocation,
            PendingView::SeekOwn { .. } => ActionView::OwnLocation,
            PendingView::SeekCached { seek, .. } => ActionView::IsContractCached { key: seek.key },
            PendingView::SeekClosest { seek, own, .. } => ActionView::ClosestCaching {
                key: seek.key,
                skip_list: seq![own.peer],
            },
            PendingView::SeekForward { passed, .. } => ActionView::Send {
                peer: passed.target.peer,
                msg: passed.msg(),
            },
            PendingView::SeekAdd { seek, .. } => ActionView::AddSubscriber {
                key: seek.key,
                subscriber: seek.subscriber,
            },
            PendingView::RetryClosest { key, skip_list, .. } => ActionView::ClosestCaching {
                key,
                skip_list,
            },
            PendingView::RetryOwn { .. } => ActionView::OwnLocation,
            PendingView::Confirm { key, .. } => ActionView::AddSubscription { key },
        }
    }

    /// If `event` names a peer to pass a request on to, one more hop can be
    /// counted.
    pub open spec fn hop_fits<E>(self, event: Event<E>) -> bool {
        match (self, event) {
            (PendingView::SeekClosest { seek, .. }, Event::ClosestCaching(Some(_))) => seek.htl
                < usize::MAX,
            _ => true,
        }
    }

    /// Asks the node for what the operation waits for.
    pub open spec fn asked<E>(self) -> ProgressView<E> {
        ProgressView::Perform { action: self.action(), pending: self }
    }

    /// Where the handling stands once `event` has answered the action.
    pub open spec fn resumed<E>(self, event: Event<E>) -> ProgressView<E> {
        match (self, event) {
            (PendingView::RequestOwn { op, id, key, target }, Event::OwnLocation(own)) =>
                ProgressView::Done(
                    Ok(
                        OperationResultView {
                            return_msg: Some(
                                SubscribeMsgView::SeekNode {
                                    id,
                                    key,
                                    target,
                                    subscriber: own,
                                    skip_list: seq![own.peer],
                                    htl: 0,
                                },
                            ),
                            state: Some(op),
                        },
                    ),
                ),
            (PendingView::SeekOwn { op, seek }, Event::OwnLocation(own)) =>
                PendingView::SeekCached { op, seek, own }.asked(),
            (PendingView::SeekCached { op, seek, own }, Event::IsContractCached(cached)) =>
                if cached {
                    PendingView::SeekAdd { op, seek, own }.asked()
                } else {
                    PendingView::SeekClosest { op, seek, own }.asked()
                },
            (PendingView::SeekClosest { op, seek, own }, Event::ClosestCaching(closest)) =>
                match closest {
                    None => ProgressView::Done(
                        Err(OpErrorView::RingError(RingError::NoCachingPeers(seek.key))),
                    ),
                    Some(next) => if seek.htl < MAX_RETRIES {
                        PendingView::SeekForward { op, seek, passed: seek.passed_on(next) }.asked()
                    } else {
                        ProgressView::Done(Ok(seek.refused(own)))
                    },
                },
            (PendingView::SeekForward { op, seek, .. }, Event::Send(sent)) => match sent {
                Ok(_) => ProgressView::Done(seek.confirmed(op)),
                Err(e) => ProgressView::Done(Err(OpErrorView::External(e))),
            },
            (PendingView::SeekAdd { op, seek, own }, Event::AddSubscriber(added)) =>
                ProgressView::Done(
                    if added {
                        seek.confirmed(op)
                    } else {
                        Ok(seek.refused(own))
                    },
                ),
            (
                PendingView::RetryClosest { op_id, ttl, id, key, skip_list, retries },
                Event::ClosestCaching(closest),
            ) => match closest {
                None => ProgressView::Done(
                    Err(OpErrorView::RingError(RingError::NoCachingPeers(key))),
                ),
                Some(target) => PendingView::RetryOwn {
                    op_id,
                    ttl,
                    id,
                    key,
                    skip_list,
                    retries,
                    target,
                }.asked(),
            },
            (
                PendingView::RetryOwn { op_id, ttl, id, key, skip_list, retries, target },
                Event::OwnLocation(own),
            ) => ProgressView::Done(
                Ok(
                    OperationResultView {
                        return_msg: Some(
                            SubscribeMsgView::SeekNode {
                                id,
                                key,
                                target,
                                subscriber: own,
                                skip_list: seq![target.peer],
                                htl: 0,
                            },
                        ),
                        state: Some(
                            SubscribeOpView {
                                id: op_id,
                                state: Some(
                                    SubscribeStateView::AwaitingResponse {
                                        skip_list,
                                        retries,
                                    },
                                ),
                                ttl,
                            },
                        ),
                    },
                ),
            ),
            (PendingView::Confirm { op, .. }, Event::AddSubscription) => ProgressView::Done(
                if op.state is Some && op.state->0 is AwaitingResponse {
                    Ok(OperationResultView { return_msg: None, state: Some(op.with_state(None)) })
                } else {
                    Err(OpErrorView::InvalidStateTransition(op.id))
                },
            ),
            _ => ProgressView::Done(Err(OpErrorView::UnexpectedOpState)),
        }
    }
}

impl SubscribeOpView {
    /// Where the handling of `input` by this operation starts.
    pub open spec fn handling<E>(self, input: SubscribeMsgView) -> ProgressView<E> {
        match input {
            SubscribeMsgView::FetchRouting { .. } => ProgressView::Done(
                Err(OpErrorView::UnexpectedOpState),
            ),
            SubscribeMsgView::RequestSub { id, key, target } => PendingView::RequestOwn {
                op: self,
                id,
                key,
                target,
            }.asked(),
            SubscribeMsgView::SeekNode { id, key, target, subscriber, skip_list, htl } =>
                PendingView::SeekOwn {
                    op: self,
                    seek: SeekView { id, key, target, subscriber, skip_list, htl },
                }.asked(),
            SubscribeMsgView::ReturnSub { id, key, sender, target, subscribed } => if subscribed {
                PendingView::Confirm { op: self, key }.asked()
            } else {
                match self.state {
                    Some(SubscribeStateView::AwaitingResponse { skip_list, retries }) =>
                        if retries < MAX_RETRIES {
                            PendingView::RetryClosest {
                                op_id: self.id,
                                ttl: self.ttl,
                                id,
                                key,
                                skip_list: skip_list.push(sender.peer),
                                retries: retries + 1,
                            }.asked()
                        } else {
                            ProgressView::Done(Err(OpErrorView::MaxRetriesExceeded(id, "sub"@)))
                        },
                    _ => ProgressView::Done(Err(OpErrorView::InvalidStateTransition(self.id))),
                }
            },
        }
    }
}

impl Seek {
    /// The request as this node passes it on to `next`.
    fn pass_on(&self, next: PeerKeyLocation) -> (res: Seek)
        requires
            self@.htl < usize::MAX,
        ensures
            res@ == self@.passed_on(next),
    {
        let mut skip_list = copy_peers(&self.skip_list);
        skip_list.push(self.target.peer);
        Seek {
            id: self.id,
            key: self.key.clone(),
            target: next,
            subscriber: self.subscriber,
            skip_list,
            htl: self.htl + 1,
        }
    }

    /// The refusal of the request by the peer `own`. No operation is kept.
    fn refuse(self, own: PeerKeyLocation) -> (res: OperationResult)
        ensures
            res@ == self@.refused(own),
    {
        OperationResult {
            return_msg: Some(
                SubscribeMsg::ReturnSub {
                    key: self.key,
                    id: self.id,
                    subscribed: false,
                    sender: own,
                    target: self.subscriber,
                },
            ),
            state: None,
        }
    }

    /// The confirmation of the request, which completes `op`.
    fn confirm<E>(self, op: SubscribeOp) -> (res: Result<OperationResult, OpError<E>>)
        ensures
            result_view(res) == self@.confirmed::<E>(op@),
    {
        match op.state {
            Some(SubscribeState::ReceivedRequest) => build_op_result(
                op.id,
                Some(SubscribeState::Completed),
                Some(
                    SubscribeMsg::ReturnSub {
                        sender: self.target,
                        target: self.subscriber,
                        id: self.id,
                        key: self.key,
                        subscribed: true,
                    },
                ),
                op.ttl,
            ),
            _ => Err(OpError::InvalidStateTransition(op.id)),
        }
    }
}

impl Pending {
    /// The action that the operation waits for.
    fn action(&self) -> (res: Action)
        ensures
            res@ == self@.action(),
    {
        let res = match self {
            Pending::RequestOwn { .. } => Action::OwnLocation,
            Pending::SeekOwn { .. } => Action::OwnLocation,
            Pending::SeekCached { seek, .. } => Action::IsContractCached { key: seek.key.clone() },
            Pending::SeekClosest { seek, own, .. } => Action::ClosestCaching {
                key: seek.key.clone(),
                skip_list: vec![own.peer],
            },
            Pending::SeekForward { passed, .. } => Action::Send {
                peer: passed.target.peer,
                msg: SubscribeMsg::SeekNode {
                    id: passed.id,
                    key: passed.key.clone(),
                    subscriber: passed.subscriber,
                    target: passed.target,
                    skip_list: copy_peers(&passed.skip_list),
                    htl: passed.htl,
                },
            },
            Pending::SeekAdd { seek, .. } => Action::AddSubscriber {
                key: seek.key.clone(),
                subscriber: seek.subscriber,
            },
            Pending::RetryClosest { key, skip_list, .. } => Action::ClosestCaching {
                key: key.clone(),
                skip_list: copy_peers(skip_list),
            },
            Pending::RetryOwn { .. } => Action::OwnLocation,
            Pending::Confirm { key, .. } => Action::AddSubscription { key: key.clone() },
        };
        assert(res@ =~= self@.action());
        res
    }

    /// Asks the node for what the operation waits for.
    fn ask<E>(self) -> (res: Progress<E>)
        ensures
            res@ == self@.asked::<E>(),
    {
        Progress::Perform { action: self.action(), pending: self }
    }

    /// Goes on with the operation, now that the node has performed the action
    /// and `event` came of it. A request that is to be passed on must not have
    /// used up the hop counter.
    pub fn resume<E>(self, event: Event<E>) -> (res: Progress<E>)
        requires
            answers(event, self@.action()),
            self@.hop_fits(event),
        ensures
            res@ == self@.resumed(event),
    {
        match (self, event) {
            (Pending::RequestOwn { op, id, key, target }, Event::OwnLocation(own)) => {
                let skip_list = vec![own.peer];
                assert(skip_list@ =~= seq![own.peer]);
                let msg = SubscribeMsg::SeekNode {
                    id,
                    key,
                    target,
                    subscriber: own,
                    skip_list,
                    htl: 0,
                };
                Progress::Done(build_op_result(op.id, op.state, Some(msg), op.ttl))
            },
            (Pending::SeekOwn { op, seek }, Event::OwnLocation(own)) => Pending::SeekCached {
                op,
                seek,
                own,
            }.ask(),
            (Pending::SeekCached { op, seek, own }, Event::IsContractCached(cached)) => if cached {
                Pending::SeekAdd { op, seek, own }.ask()
            } else {
                // try to find the contract on another node
                Pending::SeekClosest { op, seek, own }.ask()
            },
            (Pending::SeekClosest { op, seek, own }, Event::ClosestCaching(closest)) =>
                match closest {
                    None => Progress::Done(
                        Err(OpError::RingError(RingError::NoCachingPeers(seek.key))),
                    ),
                    Some(next) => {
                        let new_htl: usize = seek.htl + 1;
                        if new_htl > MAX_RETRIES {
                            Progress::Done(Ok(seek.refuse(own)))
                        } else {
                            let passed = seek.pass_on(next);
                            Pending::SeekForward { op, seek, passed }.ask()
                        }
                    },
                },
            (Pending::SeekForward { op, seek, .. }, Event::Send(sent)) => match sent {
                Ok(_) => Progress::Done(seek.confirm(op)),
                Err(e) => Progress::Done(Err(OpError::External(e))),
            },
            (Pending::SeekAdd { op, seek, own }, Event::AddSubscriber(added)) => if added {
                Progress::Done(seek.confirm(op))
            } else {
                // max number of subscribers for this contract reached
                Progress::Done(Ok(seek.refuse(own)))
            },
            (
                Pending::RetryClosest { op_id, ttl, id, key, skip_list, retries },
                Event::ClosestCaching(closest),
            ) => match closest {
                None => Progress::Done(Err(OpError::RingError(RingError::NoCachingPeers(key)))),
                Some(target) => Pending::RetryOwn {
                    op_id,
                    ttl,
                    id,
                    key,
                    skip_list,
                    retries,
                    target,
                }.ask(),
            },
            (
                Pending::RetryOwn { op_id, ttl, id, key, skip_list, retries, target },
                Event::OwnLocation(own),
            ) => {
                let sought = vec![target.peer];
                assert(sought@ =~= seq![target.peer]);
                let msg = SubscribeMsg::SeekNode {
                    id,
                    key,
                    target,
                    subscriber: own,
                    skip_list: sought,
                    htl: 0,
                };
                let state = SubscribeState::AwaitingResponse { skip_list, retries };
                Progress::Done(build_op_result(op_id, Some(state), Some(msg), ttl))
            },
            (Pending::Confirm { op, .. }, Event::AddSubscription) => match op.state {
                Some(SubscribeState::AwaitingResponse { .. }) => Progress::Done(
                    build_op_result(op.id, None, None, op.ttl),
                ),
                _ => Progress::Done(Err(OpError::InvalidStateTransition(op.id))),
            },
            _ => unreached(),
        }
    }
}

impl SubscribeOp {
    /// Starts handling `input`.
    ///
    /// A `RequestSub` is a request that this node has just made, so it finds
    /// its operation awaiting a response; whatever the state, the operation
    /// keeps it.
    pub fn process_message<E>(self, input: SubscribeMsg, client_id: Option<ClientId>) -> (res:
        Progress<E>)
        ensures
            res@ == self@.handling::<E>(input@),
    {
        match input {
            SubscribeMsg::RequestSub { id, key, target } => Pending::RequestOwn {
                op: self,
                id,
                key,
                target,
            }.ask(),
            SubscribeMsg::SeekNode { id, key, target, subscriber, skip_list, htl } =>
                Pending::SeekOwn {
                    op: self,
                    seek: Seek { id, key, target, subscriber, skip_list, htl },
                }.ask(),
            SubscribeMsg::ReturnSub { id, key, sender, subscribed: false, .. } =>
                // will error out in case it has reached max number of retries
                match self.state {
                    Some(SubscribeState::AwaitingResponse { skip_list, retries }) =>
                        if retries < MAX_RETRIES {
                            let mut skip_list = skip_list;
                            skip_list.push(sender.peer);
                            Pending::RetryClosest {
                                op_id: self.id,
                                ttl: self.ttl,
                                id,
                                key,
                                skip_list,
                                retries: retries + 1,
                            }.ask()
                        } else {
                            Progress::Done(Err(OpError::MaxRetriesExceeded(id, "sub".to_owned())))
                        },
                    _ => Progress::Done(Err(OpError::InvalidStateTransition(self.id))),
                },
            SubscribeMsg::ReturnSub { key, subscribed: true, .. } => Pending::Confirm {
                op: self,
                key,
            }.ask(),
            SubscribeMsg::FetchRouting { .. } => Progress::Done(Err(OpError::UnexpectedOpState)),
        }
    }
}

} // verus!
