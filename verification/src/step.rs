//! What an operation asks the node to do, and what the node answers.
use crate::message::{SubscribeMsg, SubscribeMsgView};
use crate::node::{ClientId, PeerKey, PeerKeyLocation};
use crate::op::{SubscribeOp, SubscribeOpView};
use freenet_stdlib::prelude::ContractKey;
use vstd::prelude::*;

verus! {

/// One thing that the node has to look up or do before an operation can go on.
#[derive(Debug, PartialEq, Eq)]
pub enum Action {
    /// Tell which peer this node is, and where on the ring.
    OwnLocation,
    /// Tell whether this node caches the contract.
    IsContractCached { key: ContractKey },
    /// Find the closest peer that caches the contract, other than those in
    /// `skip_list`.
    ClosestCaching { key: ContractKey, skip_list: Vec<PeerKey> },
    /// Take `subscriber` as a subscriber of the contract, if there is room.
    AddSubscriber { key: ContractKey, subscriber: PeerKeyLocation },
    /// Note that this node is subscribed to the contract.
    AddSubscription { key: ContractKey },
    /// Send `msg` to `peer`.
    Send { peer: PeerKey, msg: SubscribeMsg },
    /// Store `op` and have this node handle `msg`.
    NotifyOpChange { msg: SubscribeMsg, op: SubscribeOp, client_id: Option<ClientId> },
}

/// An action, with what it holds taken by its view.
#[verifier::ext_equal]
pub enum ActionView {
    OwnLocation,
    IsContractCached { key: ContractKey },
    ClosestCaching { key: ContractKey, skip_list: Seq<PeerKey> },
    AddSubscriber { key: ContractKey, subscriber: PeerKeyLocation },
    AddSubscription { key: ContractKey },
    Send { peer: PeerKey, msg: SubscribeMsgView },
    NotifyOpChange { msg: SubscribeMsgView, op: SubscribeOpView, client_id: Option<ClientId> },
}

impl View for Action {
    type V = ActionView;

    open spec fn view(&self) -> ActionView {
        match *self {
            Action::OwnLocation => ActionView::OwnLocation,
            Action::IsContractCached { key } => ActionView::IsContractCached { key },
            Action::ClosestCaching { key, skip_list } => ActionView::ClosestCaching {
                key,
                skip_list: skip_list@,
            },
            Action::AddSubscriber { key, subscriber } => ActionView::AddSubscriber {
                key,
                subscriber,
            },
            Action::AddSubscription { key } => ActionView::AddSubscription { key },
            Action::Send { peer, msg } => ActionView::Send { peer, msg: msg@ },
            Action::NotifyOpChange { msg, op, client_id } => ActionView::NotifyOpChange {
                msg: msg@,
                op: op@,
                client_id,
            },
        }
    }
}

/// What came of an action. `E` is what the node's connections and channels
/// fail with.
#[derive(Debug, PartialEq, Eq)]
pub enum Event<E> {
    OwnLocation(PeerKeyLocation),
    IsContractCached(bool),
    ClosestCaching(Option<PeerKeyLocation>),
    /// Whether the subscriber was taken.
    AddSubscriber(bool),
    AddSubscription,
    Send(Result<(), E>),
    NotifyOpChange(Result<(), E>),
}

/// Whether `event` is an answer to `action`, whatever the answer is.
pub open spec fn answers<E>(event: Event<E>, action: ActionView) -> bool {
    match action {
        ActionView::OwnLocation => event is OwnLocation,
        ActionView::IsContractCached { .. } => event is IsContractCached,
        ActionView::ClosestCaching { .. } => event is ClosestCaching,
        ActionView::AddSubscriber { .. } => event is AddSubscriber,
        ActionView::AddSubscription { .. } => event is AddSubscription,
        ActionView::Send { .. } => event is Send,
        ActionView::NotifyOpChange { .. } => event is NotifyOpChange,
    }
}

impl<E> Event<E> {
    /// Whether this is an answer to `action`, whatever the answer is.
    pub fn answers(&self, action: &Action) -> (res: bool)
        ensures
            res == answers(*self, action@),
            res <==> match *action {
                Action::OwnLocation => *self is OwnLocation,
                Action::IsContractCached { .. } => *self is IsContractCached,
                Action::ClosestCaching { .. } => *self is ClosestCaching,
                Action::AddSubscriber { .. } => *self is AddSubscriber,
                Action::AddSubscription { .. } => *self is AddSubscription,
                Action::Send { .. } => *self is Send,
                Action::NotifyOpChange { .. } => *self is NotifyOpChange,
            },
    {
        match action {
            Action::OwnLocation => matches!(self, Event::OwnLocation(_)),
            Action::IsContractCached { .. } => matches!(self, Event::IsContractCached(_)),
            Action::ClosestCaching { .. } => matches!(self, Event::ClosestCaching(_)),
            Action::AddSubscriber { .. } => matches!(self, Event::AddSubscriber(_)),
            Action::AddSubscription { .. } => matches!(self, Event::AddSubscription),
            Action::Send { .. } => matches!(self, Event::Send(_)),
            Action::NotifyOpChange { .. } => matches!(self, Event::NotifyOpChange(_)),
        }
    }
}

} // verus!
