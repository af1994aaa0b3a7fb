//! The messages that peers exchange about a subscription.
use crate::node::{PeerKey, PeerKeyLocation, Transaction};
use freenet_stdlib::prelude::ContractKey;
use vstd::prelude::*;
use vstd::string::*;

verus! {

#[derive(Clone, Debug, PartialEq, Eq)]
pub enum SubscribeMsg {
    FetchRouting { id: Transaction, target: PeerKeyLocation },
    /// A request of this node's own, on its way to becoming a `SeekNode`.
    RequestSub { id: Transaction, key: ContractKey, target: PeerKeyLocation },
    /// Asks `target` to take `subscriber` as a subscriber of the contract.
    /// `htl` counts the peers that have passed the message on.
    SeekNode {
        id: Transaction,
        key: ContractKey,
        target: PeerKeyLocation,
        subscriber: PeerKeyLocation,
        skip_list: Vec<PeerKey>,
        htl: usize,
    },
    /// Tells `target` whether `sender` took it as a subscriber.
    ReturnSub {
        id: Transaction,
        key: ContractKey,
        sender: PeerKeyLocation,
        target: PeerKeyLocation,
        subscribed: bool,
    },
}

/// A message, with its skip list as a sequence.
#[verifier::ext_equal]
pub enum SubscribeMsgView {
    FetchRouting { id: Transaction, target: PeerKeyLocation },
    RequestSub { id: Transaction, key: ContractKey, target: PeerKeyLocation },
    SeekNode {
        id: Transaction,
        key: ContractKey,
        target: PeerKeyLocation,
        subscriber: PeerKeyLocation,
        skip_list: Seq<PeerKey>,
        htl: nat,
    },
    ReturnSub {
        id: Transaction,
        key: ContractKey,
        sender: PeerKeyLocation,
        target: PeerKeyLocation,
        subscribed: bool,
    },
}

impl View for SubscribeMsg {
    type V = SubscribeMsgView;

    open spec fn view(&self) -> SubscribeMsgView {
        match *self {
            SubscribeMsg::FetchRouting { id, target } => SubscribeMsgView::FetchRouting {
                id,
                target,
            },
            SubscribeMsg::RequestSub { id, key, target } => SubscribeMsgView::RequestSub {
                id,
                key,
                target,
            },
            SubscribeMsg::SeekNode { id, key, target, subscriber, skip_list, htl } =>
                SubscribeMsgView::SeekNode {
                    id,
                    key,
                    target,
                    subscriber,
                    skip_list: skip_list@,
                    htl: htl as nat,
                },
            SubscribeMsg::ReturnSub { id, key, sender, target, subscribed } =>
                SubscribeMsgView::ReturnSub { id, key, sender, target, subscribed },
        }
    }
}

impl SubscribeMsgView {
    /// The transaction that the message belongs to.
    pub open spec fn id(self) -> Transaction {
        match self {
            SubscribeMsgView::FetchRouting { id, .. } => id,
            SubscribeMsgView::RequestSub { id, .. } => id,
            SubscribeMsgView::SeekNode { id, .. } => id,
            SubscribeMsgView::ReturnSub { id, .. } => id,
        }
    }

    /// Only an answer says who sent it.
    pub open spec fn sender(self) -> Option<PeerKeyLocation> {
        match self {
            SubscribeMsgView::ReturnSub { sender, .. } => Some(sender),
            _ => None,
        }
    }

    /// The peer that the message is for, once it travels between peers.
    pub open spec fn target(self) -> Option<PeerKeyLocation> {
        match self {
            SubscribeMsgView::SeekNode { target, .. } => Some(target),
            SubscribeMsgView::ReturnSub { target, .. } => Some(target),
            _ => None,
        }
    }

    /// A request to a peer, or an answer.
    pub open spec fn terminal(self) -> bool {
        self is SeekNode || self is ReturnSub
    }

    /// The name of the kind of message.
    pub open spec fn kind_name(self) -> Seq<char> {
        match self {
            SubscribeMsgView::FetchRouting { .. } => "FetchRouting"@,
            SubscribeMsgView::RequestSub { .. } => "RequestSub"@,
            SubscribeMsgView::SeekNode { .. } => "SeekNode"@,
            SubscribeMsgView::ReturnSub { .. } => "ReturnSub"@,
        }
    }
}

/// The peer behind the reference in `peer`, if there is one.
pub open spec fn located(peer: Option<&PeerKeyLocation>) -> Option<PeerKeyLocation> {
    match peer {
        Some(at) => Some(*at),
        None => None,
    }
}

impl SubscribeMsg {
    /// The transaction that the message belongs to.
    pub fn id(&self) -> (res: &Transaction)
        ensures
            *res == self@.id(),
            match *self {
                SubscribeMsg::FetchRouting { id, .. } => *res == id,
                SubscribeMsg::RequestSub { id, .. } => *res == id,
                SubscribeMsg::SeekNode { id, .. } => *res == id,
                SubscribeMsg::ReturnSub { id, .. } => *res == id,
            },
    {
        match self {
            SubscribeMsg::SeekNode { id, .. } => id,
            SubscribeMsg::FetchRouting { id, .. } => id,
            SubscribeMsg::RequestSub { id, .. } => id,
            SubscribeMsg::ReturnSub { id, .. } => id,
        }
    }

    /// The peer that an answer comes from; other messages do not say.
    pub fn sender(&self) -> (res: Option<&PeerKeyLocation>)
        ensures
            located(res) == self@.sender(),
            match *self {
                SubscribeMsg::ReturnSub { sender, .. } => res is Some && *res->0 == sender,
                _ => res is None,
            },
    {
        match self {
            SubscribeMsg::ReturnSub { sender, .. } => Some(sender),
            _ => None,
        }
    }

    /// The peer that a message between peers is for.
    pub fn target(&self) -> (res: Option<&PeerKeyLocation>)
        ensures
            located(res) == self@.target(),
            match *self {
                SubscribeMsg::SeekNode { target, .. } => res is Some && *res->0 == target,
                SubscribeMsg::ReturnSub { target, .. } => res is Some && *res->0 == target,
                _ => res is None,
            },
    {
        match self {
            SubscribeMsg::SeekNode { target, .. } => Some(target),
            SubscribeMsg::ReturnSub { target, .. } => Some(target),
            _ => None,
        }
    }

    /// Whether the message is one that ends this node's part in a step of the
    /// exchange: a request to a peer, or an answer.
    pub fn terminal(&self) -> (res: bool)
        ensures
            res == self@.terminal(),
            res <==> (*self is SeekNode || *self is ReturnSub),
    {
        matches!(self, SubscribeMsg::ReturnSub { .. } | SubscribeMsg::SeekNode { .. })
    }

    /// The message as shown in logs: its kind, and its transaction, which is
    /// handed in as `id` in the form in which the node shows transactions.
    pub fn fmt(&self, id: &str) -> (res: String)
        ensures
            res@ == self@.kind_name() + "(id: "@ + id@ + ")"@,
            match *self {
                SubscribeMsg::FetchRouting { .. } => res@ == "FetchRouting"@ + "(id: "@ + id@
                    + ")"@,
                SubscribeMsg::RequestSub { .. } => res@ == "RequestSub"@ + "(id: "@ + id@ + ")"@,
                SubscribeMsg::SeekNode { .. } => res@ == "SeekNode"@ + "(id: "@ + id@ + ")"@,
                SubscribeMsg::ReturnSub { .. } => res@ == "ReturnSub"@ + "(id: "@ + id@ + ")"@,
            },
    {
        let kind = match self {
            SubscribeMsg::SeekNode { .. } => "SeekNode",
            SubscribeMsg::FetchRouting { .. } => "FetchRouting",
            SubscribeMsg::RequestSub { .. } => "RequestSub",
            SubscribeMsg::ReturnSub { .. } => "ReturnSub",
        };
        let mut res = kind.to_owned();
        res.append("(id: ");
        res.append(id);
        res.append(")");
        res
    }
}

} // verus!
