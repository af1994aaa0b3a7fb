//! How a request for a subscription leaves the node.
use crate::error::{ContractError, OpError, OpErrorView, RingError};
use crate::message::{SubscribeMsg, SubscribeMsgView};
use crate::node::{ClientId, PeerKeyLocation, Transaction};
use crate::op::{SubscribeOp, SubscribeOpView, SubscribeState, SubscribeStateView};
use crate::step::{answers, Action, ActionView, Event};
use freenet_stdlib::prelude::ContractKey;
use std::time::Duration;
use vstd::pervasive::unreached;
use vstd::prelude::*;

verus! {

/// The request that is being made.
#[derive(Debug, PartialEq, Eq)]
pub struct Request {
    pub id: Transaction,
    pub key: ContractKey,
    pub ttl: Duration,
    pub client_id: Option<ClientId>,
}

/// A request that waits for the node to perform an action.
#[derive(Debug, PartialEq, Eq)]
pub enum RequestPending {
    /// Waits to hear whether the contract is cached here.
    Cached { request: Request },
    /// Waits for a peer to turn to.
    Closest { request: Request },
    /// The node is being told to send the request to `target`.
    Notify { request: Request, target: PeerKeyLocation },
}

/// Where a request stands: the node has to perform an action, or the request
/// is on its way or has failed.
#[derive(Debug, PartialEq, Eq)]
pub enum RequestProgress<E> {
    Perform { action: Action, pending: RequestPending },
    Done(Result<(), OpError<E>>),
}

#[verifier::ext_equal]
pub enum RequestProgressView<E> {
    Perform { action: ActionView, pending: RequestPending },
    Done(Result<(), OpErrorView<E>>),
}

impl<E> View for RequestProgress<E> {
    type V = RequestProgressView<E>;

    open spec fn view(&self) -> RequestProgressView<E> {
        match *self {
            RequestProgress::Perform { action, pending } => RequestProgressView::Perform {
                action: action@,
                pending,
            },
            RequestProgress::Done(Ok(_)) => RequestProgressView::Done(Ok(())),
            RequestProgress::Done(Err(e)) => RequestProgressView::Done(Err(e@)),
        }
    }
}

/// The operation of a request that no peer has answered yet.
pub open spec fn awaiting(id: Transaction, ttl: Duration) -> SubscribeOpView {
    SubscribeOpView {
        id,
        state: Some(
            SubscribeStateView::AwaitingResponse { skip_list: Seq::empty(), retries: 0 },
        ),
        ttl,
    }
}

impl RequestPending {
    /// The action that the request waits for.
    pub open spec fn waits_for(self) -> ActionView {
        match self {
            RequestPending::Cached { request } => ActionView::IsContractCached {
                key: request.key,
            },
            RequestPending::Closest { request } => ActionView::ClosestCaching {
                key: request.key,
                skip_list: Seq::empty(),
            },
            RequestPending::Notify { request, target } => ActionView::NotifyOpChange {
                msg: SubscribeMsgView::RequestSub { id: request.id, key: request.key, target },
                op: awaiting(request.id, request.ttl),
                client_id: request.client_id,
            },
        }
    }

    /// Asks the node for what the request waits for.
    pub open spec fn asked<E>(self) -> RequestProgressView<E> {
        RequestProgressView::Perform { action: self.waits_for(), pending: self }
    }

    /// Where the request stands once `event` has answered the action.
    pub open spec fn resumed<E>(self, event: Event<E>) -> RequestProgressView<E> {
        match (self, event) {
            (RequestPending::Cached { request }, Event::IsContractCached(cached)) => if cached {
                RequestPending::Closest { request }.asked()
            } else {
                RequestProgressView::Done(
                    Err(OpErrorView::ContractError(ContractError::ContractNotFound(request.key))),
                )
            },
            (RequestPending::Closest { request }, Event::ClosestCaching(closest)) => match closest {
                Some(target) => RequestPending::Notify { request, target }.asked(),
                None => RequestProgressView::Done(
                    Err(OpErrorView::RingError(RingError::EmptyRing)),
                ),
            },
            (RequestPending::Notify { .. }, Event::NotifyOpChange(notified)) => match notified {
                Ok(_) => RequestProgressView::Done(Ok(())),
                Err(e) => RequestProgressView::Done(Err(OpErrorView::External(e))),
            },
            _ => RequestProgressView::Done(Err(OpErrorView::UnexpectedOpState)),
        }
    }

    /// The action that the request waits for.
    fn action(&self) -> (res: Action)
        ensures
            res@ == self.waits_for(),
    {
        let res = match self {
            RequestPending::Cached { request } => Action::IsContractCached {
                key: request.key.clone(),
            },
            RequestPending::Closest { request } => Action::ClosestCaching {
                key: request.key.clone(),
                skip_list: vec![],
            },
            RequestPending::Notify { request, target } => {
                let skip_list = vec![];
                assert(skip_list@ =~= Seq::empty());
                Action::NotifyOpChange {
                    msg: SubscribeMsg::RequestSub {
                        id: request.id,
                        key: request.key.clone(),
                        target: *target,
                    },
                    op: SubscribeOp {
                        id: request.id,
                        state: Some(SubscribeState::AwaitingResponse { skip_list, retries: 0 }),
                        ttl: request.ttl,
                    },
                    client_id: request.client_id,
                }
            },
        };
        assert(res@ =~= self.waits_for());
        res
    }

    /// Asks the node for what the request waits for.
    fn ask<E>(self) -> (res: RequestProgress<E>)
        ensures
            res@ == self.asked::<E>(),
    {
        RequestProgress::Perform { action: self.action(), pending: self }
    }

    /// Goes on with the request, now that the node has performed the action
    /// and `event` came of it.
    pub fn resume<E>(self, event: Event<E>) -> (res: RequestProgress<E>)
        requires
            answers(event, self.waits_for()),
        ensures
            res@ == self.resumed(event),
    {
        match (self, event) {
            (RequestPending::Cached { request }, Event::IsContractCached(cached)) => if cached {
                RequestPending::Closest { request }.ask()
            } else {
                RequestProgress::Done(
                    Err(OpError::ContractError(ContractError::ContractNotFound(request.key))),
                )
            },
            (RequestPending::Closest { request }, Event::ClosestCaching(closest)) => match closest {
                Some(target) => RequestPending::Notify { request, target }.ask(),
                None => RequestProgress::Done(Err(OpError::RingError(RingError::EmptyRing))),
            },
            (RequestPending::Notify { .. }, Event::NotifyOpChange(notified)) => match notified {
                Ok(_) => RequestProgress::Done(Ok(())),
                Err(e) => RequestProgress::Done(Err(OpError::External(e))),
            },
            _ => unreached(),
        }
    }
}

impl SubscribeOpView {
    /// Where the request of this operation starts.
    pub open spec fn requesting<E>(self, client_id: Option<ClientId>) -> RequestProgressView<E> {
        match self.state {
            Some(SubscribeStateView::PrepareRequest { id, key }) => RequestPending::Cached {
                request: Request { id, key, ttl: self.ttl, client_id },
            }.asked(),
            _ => RequestProgressView::Done(Err(OpErrorView::UnexpectedOpState)),
        }
    }
}

/// Request to subscribe to value changes from a contract.
pub fn request_subscribe<E>(sub_op: SubscribeOp, client_id: Option<ClientId>) -> (res:
    RequestProgress<E>)
    ensures
        res@ == sub_op@.requesting::<E>(client_id),
{
    match sub_op.state {
        Some(SubscribeState::PrepareRequest { id, key }) => RequestPending::Cached {
            request: Request { id, key, ttl: sub_op.ttl, client_id },
        }.ask(),
        _ => RequestProgress::Done(Err(OpError::UnexpectedOpState)),
    }
}

} // verus!
