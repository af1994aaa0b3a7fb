//! Whole runs of an operation: everything that the node is asked to do until
//! a message has been handled, and what comes of it.
use crate::error::OpErrorView;
use crate::message::SubscribeMsgView;
use crate::node::{ClientId, PeerKey, PeerKeyLocation};
use crate::op::{OperationResultView, SubscribeOpView};
use crate::process::{PendingView, ProgressView};
use crate::request::{RequestPending, RequestProgressView};
use crate::step::{ActionView, Event};
use freenet_stdlib::prelude::ContractKey;
use vstd::prelude::*;

verus! {

/// What a node answers to each action while a message is handled. An action
/// is asked for at most once (`laws::no_action_is_asked_for_twice`), so a fixed
/// answer is every possible answer.
pub struct Node<E> {
    pub own: PeerKeyLocation,
    pub cached: spec_fn(ContractKey) -> bool,
    pub closest: spec_fn(ContractKey, Seq<PeerKey>) -> Option<PeerKeyLocation>,
    pub takes: spec_fn(ContractKey, PeerKeyLocation) -> bool,
    pub sends: spec_fn(PeerKey, SubscribeMsgView) -> Result<(), E>,
    pub notifies: spec_fn(SubscribeMsgView, SubscribeOpView, Option<ClientId>) -> Result<(), E>,
}

impl<E> Node<E> {
    /// The node's answer to `action`.
    pub open spec fn answer(self, action: ActionView) -> Event<E> {
        match action {
            ActionView::OwnLocation => Event::OwnLocation(self.own),
            ActionView::IsContractCached { key } => Event::IsContractCached((self.cached)(key)),
            ActionView::ClosestCaching { key, skip_list } => Event::ClosestCaching(
                (self.closest)(key, skip_list),
            ),
            ActionView::AddSubscriber { key, subscriber } => Event::AddSubscriber(
                (self.takes)(key, subscriber),
            ),
            ActionView::AddSubscription { .. } => Event::AddSubscription,
            ActionView::Send { peer, msg } => Event::Send((self.sends)(peer, msg)),
            ActionView::NotifyOpChange { msg, op, client_id } => Event::NotifyOpChange(
                (self.notifies)(msg, op, client_id),
            ),
        }
    }
}

/// The actions of a run, in order, and its result.
#[verifier::ext_equal]
pub struct Run<R> {
    pub actions: Seq<ActionView>,
    pub result: R,
}

impl<R> Run<R> {
    /// The run that starts with `action` and goes on like this one.
    pub open spec fn after(self, action: ActionView) -> Run<R> {
        Run { actions: seq![action] + self.actions, result: self.result }
    }
}

impl PendingView {
    /// The most actions that can still be asked for.
    pub open spec fn actions_left(self) -> nat {
        match self {
            PendingView::RequestOwn { .. } => 1,
            PendingView::SeekOwn { .. } => 4,
            PendingView::SeekCached { .. } => 3,
            PendingView::SeekClosest { .. } => 2,
            PendingView::SeekForward { .. } => 1,
            PendingView::SeekAdd { .. } => 1,
            PendingView::RetryClosest { .. } => 2,
            PendingView::RetryOwn { .. } => 1,
            PendingView::Confirm { .. } => 1,
        }
    }
}

impl<E> ProgressView<E> {
    /// The most actions that can still be asked for.
    pub open spec fn actions_left(self) -> nat {
        match self {
            ProgressView::Perform { pending, .. } => pending.actions_left(),
            ProgressView::Done(_) => 0,
        }
    }

    /// The run from here on at `node`.
    pub open spec fn run(self, node: Node<E>) -> Run<Result<OperationResultView, OpErrorView<E>>>
        decreases self.actions_left(),
    {
        match self {
            ProgressView::Perform { action, pending } => pending.resumed(
                node.answer(pending.action()),
            ).run(node).after(action),
            ProgressView::Done(result) => Run { actions: Seq::empty(), result },
        }
    }
}

impl RequestPending {
    /// The most actions that can still be asked for.
    pub open spec fn actions_left(self) -> nat {
        match self {
            RequestPending::Cached { .. } => 3,
            RequestPending::Closest { .. } => 2,
            RequestPending::Notify { .. } => 1,
        }
    }
}

impl<E> RequestProgressView<E> {
    /// The most actions that can still be asked for.
    pub open spec fn actions_left(self) -> nat {
        match self {
            RequestProgressView::Perform { pending, .. } => pending.actions_left(),
            RequestProgressView::Done(_) => 0,
        }
    }

    /// The run from here on at `node`.
    pub open spec fn run(self, node: Node<E>) -> Run<Result<(), OpErrorView<E>>>
        decreases self.actions_left(),
    {
        match self {
            RequestProgressView::Perform { action, pending } => pending.resumed(
                node.answer(pending.waits_for()),
            ).run(node).after(action),
            RequestProgressView::Done(result) => Run { actions: Seq::empty(), result },
        }
    }
}

/// The run in which `op` handles `msg` at `node`.
pub open spec fn handled<E>(node: Node<E>, op: SubscribeOpView, msg: SubscribeMsgView) -> Run<
    Result<OperationResultView, OpErrorView<E>>,
> {
    op.handling::<E>(msg).run(node)
}

/// The run in which `node` makes the request of `op`.
pub open spec fn requested<E>(
    node: Node<E>,
    op: SubscribeOpView,
    client_id: Option<ClientId>,
) -> Run<Result<(), OpErrorView<E>>> {
    op.requesting::<E>(client_id).run(node)
}

} // verus!
