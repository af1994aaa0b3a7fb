//! What holds of whole runs, and of exchanges between peers.
use crate::error::{ContractError, OpErrorView, RingError};
use crate::message::SubscribeMsgView;
use crate::node::{ClientId, PeerKey, PeerKeyLocation, Transaction};
use crate::op::{
    loaded, prepared, received, OpEnum, OpInitializationView, OperationResultView, SubscribeOpView,
    SubscribeStateView, MAX_RETRIES,
};
use crate::process::{PendingView, ProgressView, SeekView};
use crate::request::{awaiting, RequestPending, RequestProgressView};
use crate::run::{handled, requested, Node, Run};
use crate::step::{answers, ActionView, Event};
use freenet_stdlib::prelude::ContractKey;
use std::time::Duration;
use vstd::prelude::*;

verus! {

/// A peer that handles its own request asks for its location alone. It turns
/// the request into one that names the peer as the subscriber, and keeps the
/// operation as it is.
pub proof fn own_request_is_sent_out<E>(
    node: Node<E>,
    op: SubscribeOpView,
    id: Transaction,
    key: ContractKey,
    target: PeerKeyLocation,
)
    ensures
        handled(node, op, SubscribeMsgView::RequestSub { id, key, target }) == (Run {
            actions: seq![ActionView::OwnLocation],
            result: Ok::<OperationResultView, OpErrorView<E>>(
                OperationResultView {
                    return_msg: Some(
                        SubscribeMsgView::SeekNode {
                            id,
                            key,
                            target,
                            subscriber: node.own,
                            skip_list: seq![node.own.peer],
                            htl: 0,
                        },
                    ),
                    state: Some(op),
                },
            ),
        }),
{
    reveal_with_fuel(ProgressView::run, 2);
    assert(handled(node, op, SubscribeMsgView::RequestSub { id, key, target }).actions =~= seq![
        ActionView::OwnLocation,
    ]);
}

/// A request for a contract that the peer caches is confirmed if the peer has
/// room for the subscriber, and refused if not. No other peer is involved. A
/// confirmation speaks for the peer that the request was for, a refusal for the
/// peer that refuses, and both go to the subscriber; only an operation that has
/// received a request and nothing more can confirm it, and is completed by it.
pub proof fn cached_contract_is_served_here<E>(node: Node<E>, op: SubscribeOpView, seek: SeekView)
    requires
        (node.cached)(seek.key),
    ensures
        ({
            let run = handled(
                node,
                op,
                SubscribeMsgView::SeekNode {
                    id: seek.id,
                    key: seek.key,
                    target: seek.target,
                    subscriber: seek.subscriber,
                    skip_list: seek.skip_list,
                    htl: seek.htl,
                },
            );
            let confirmed = if op.state == Some(SubscribeStateView::ReceivedRequest) {
                Ok(
                    OperationResultView {
                        return_msg: Some(
                            SubscribeMsgView::ReturnSub {
                                id: seek.id,
                                key: seek.key,
                                sender: seek.target,
                                target: seek.subscriber,
                                subscribed: true,
                            },
                        ),
                        state: Some(
                            SubscribeOpView {
                                id: op.id,
                                state: Some(SubscribeStateView::Completed),
                                ttl: op.ttl,
                            },
                        ),
                    },
                )
            } else {
                Err(OpErrorView::<E>::InvalidStateTransition(op.id))
            };
            let refused = Ok::<OperationResultView, OpErrorView<E>>(
                OperationResultView {
                    return_msg: Some(
                        SubscribeMsgView::ReturnSub {
                            id: seek.id,
                            key: seek.key,
                            sender: node.own,
                            target: seek.subscriber,
                            subscribed: false,
                        },
                    ),
                    state: None,
                },
            );
            &&& run.actions == seq![
                ActionView::OwnLocation,
                ActionView::IsContractCached { key: seek.key },
                ActionView::AddSubscriber { key: seek.key, subscriber: seek.subscriber },
            ]
            &&& run.result == (if (node.takes)(seek.key, seek.subscriber) {
                confirmed
            } else {
                refused
            })
        }),
{
    reveal_with_fuel(ProgressView::run, 4);
    assert(handled(node, op, seek.msg()).actions =~= seq![
        ActionView::OwnLocation,
        ActionView::IsContractCached { key: seek.key },
        ActionView::AddSubscriber { key: seek.key, subscriber: seek.subscriber },
    ]);
}

/// A request for a contract that the peer does not cache looks for the closest
/// other peer that does. With none, it fails; after `MAX_RETRIES` hops, it is
/// refused; else it is passed on, and confirmed once it has been sent. What is
/// passed on names the peer that it goes to as its target, adds the peer that
/// it was for to the peers to skip, and counts one more hop.
pub proof fn missing_contract_is_sought_elsewhere<E>(
    node: Node<E>,
    op: SubscribeOpView,
    seek: SeekView,
)
    requires
        !(node.cached)(seek.key),
    ensures
        ({
            let run = handled(
                node,
                op,
                SubscribeMsgView::SeekNode {
                    id: seek.id,
                    key: seek.key,
                    target: seek.target,
                    subscriber: seek.subscriber,
                    skip_list: seek.skip_list,
                    htl: seek.htl,
                },
            );
            let asked = seq![
                ActionView::OwnLocation,
                ActionView::IsContractCached { key: seek.key },
                ActionView::ClosestCaching { key: seek.key, skip_list: seq![node.own.peer] },
            ];
            let confirmed = if op.state == Some(SubscribeStateView::ReceivedRequest) {
                Ok(
                    OperationResultView {
                        return_msg: Some(
                            SubscribeMsgView::ReturnSub {
                                id: seek.id,
                                key: seek.key,
                                sender: seek.target,
                                target: seek.subscriber,
                                subscribed: true,
                            },
                        ),
                        state: Some(
                            SubscribeOpView {
                                id: op.id,
                                state: Some(SubscribeStateView::Completed),
                                ttl: op.ttl,
                            },
                        ),
                    },
                )
            } else {
                Err(OpErrorView::<E>::InvalidStateTransition(op.id))
            };
            let refused = Ok::<OperationResultView, OpErrorView<E>>(
                OperationResultView {
                    return_msg: Some(
                        SubscribeMsgView::ReturnSub {
                            id: seek.id,
                            key: seek.key,
                            sender: node.own,
                            target: seek.subscriber,
                            subscribed: false,
                        },
                    ),
                    state: None,
                },
            );
            match (node.closest)(seek.key, seq![node.own.peer]) {
                None => {
                    &&& run.actions == asked
                    &&& run.result == Err::<OperationResultView, OpErrorView<E>>(
                        OpErrorView::RingError(RingError::NoCachingPeers(seek.key)),
                    )
                },
                Some(next) => if seek.htl >= MAX_RETRIES {
                    &&& run.actions == asked
                    &&& run.result == refused
                } else {
                    let msg = SubscribeMsgView::SeekNode {
                        id: seek.id,
                        key: seek.key,
                        target: next,
                        subscriber: seek.subscriber,
                        skip_list: seek.skip_list.push(seek.target.peer),
                        htl: seek.htl + 1,
                    };
                    &&& run.actions == asked.push(ActionView::Send { peer: next.peer, msg })
                    &&& run.result == (match (node.sends)(next.peer, msg) {
                        Ok(_) => confirmed,
                        Err(e) => Err(OpErrorView::External(e)),
                    })
                },
            }
        }),
{
    reveal_with_fuel(ProgressView::run, 5);
    let run = handled(node, op, seek.msg());
    let asked = seq![
        ActionView::OwnLocation,
        ActionView::IsContractCached { key: seek.key },
        ActionView::ClosestCaching { key: seek.key, skip_list: seq![node.own.peer] },
    ];
    match (node.closest)(seek.key, seq![node.own.peer]) {
        None => {
            assert(run.actions =~= asked);
        },
        Some(next) => {
            if seek.htl >= MAX_RETRIES {
                assert(run.actions =~= asked);
            } else {
                assert(run.actions =~= asked.push(
                    ActionView::Send { peer: next.peer, msg: seek.passed_on(next).msg() },
                ));
            }
        },
    }
}

/// The message by which `sender` refuses the request `id` of the peer `target`.
pub open spec fn refusal(
    id: Transaction,
    key: ContractKey,
    sender: PeerKeyLocation,
    target: PeerKeyLocation,
) -> SubscribeMsgView {
    SubscribeMsgView::ReturnSub { id, key, sender, target, subscribed: false }
}

/// The message by which `sender` confirms the request `id` of the peer `target`.
pub open spec fn confirmation(
    id: Transaction,
    key: ContractKey,
    sender: PeerKeyLocation,
    target: PeerKeyLocation,
) -> SubscribeMsgView {
    SubscribeMsgView::ReturnSub { id, key, sender, target, subscribed: true }
}

/// A refused request goes to the closest peer that has not refused it, as long
/// as fewer than `MAX_RETRIES` retries were made and there is such a peer.
pub proof fn refused_request_is_retried<E>(
    node: Node<E>,
    op: SubscribeOpView,
    id: Transaction,
    key: ContractKey,
    sender: PeerKeyLocation,
    target: PeerKeyLocation,
    skip_list: Seq<PeerKey>,
    retries: nat,
)
    requires
        op.state == Some(SubscribeStateView::AwaitingResponse { skip_list, retries }),
    ensures
        ({
            let run = handled(
                node,
                op,
                SubscribeMsgView::ReturnSub { id, key, sender, target, subscribed: false },
            );
            let skipped = skip_list.push(sender.peer);
            let asked = ActionView::ClosestCaching { key, skip_list: skipped };
            if retries >= MAX_RETRIES {
                &&& run.actions == Seq::<ActionView>::empty()
                &&& run.result == Err::<OperationResultView, OpErrorView<E>>(
                    OpErrorView::MaxRetriesExceeded(id, "sub"@),
                )
            } else {
                match (node.closest)(key, skipped) {
                    None => {
                        &&& run.actions == seq![asked]
                        &&& run.result == Err::<OperationResultView, OpErrorView<E>>(
                            OpErrorView::RingError(RingError::NoCachingPeers(key)),
                        )
                    },
                    Some(next) => {
                        &&& run.actions == seq![asked, ActionView::OwnLocation]
                        &&& run.result == Ok::<OperationResultView, OpErrorView<E>>(
                            OperationResultView {
                                return_msg: Some(
                                    SubscribeMsgView::SeekNode {
                                        id,
                                        key,
                                        target: next,
                                        subscriber: node.own,
                                        skip_list: seq![next.peer],
                                        htl: 0,
                                    },
                                ),
                                state: Some(
                                    SubscribeOpView {
                                        id: op.id,
                                        state: Some(
                                            SubscribeStateView::AwaitingResponse {
                                                skip_list: skipped,
                                                retries: retries + 1,
                                            },
                                        ),
                                        ttl: op.ttl,
                                    },
                                ),
                            },
                        )
                    },
                }
            }
        }),
{
    reveal_with_fuel(ProgressView::run, 3);
    let run = handled(node, op, refusal(id, key, sender, target));
    let skipped = skip_list.push(sender.peer);
    let asked = ActionView::ClosestCaching { key, skip_list: skipped };
    if retries < MAX_RETRIES {
        match (node.closest)(key, skipped) {
            None => {
                assert(run.actions =~= seq![asked]);
            },
            Some(_) => {
                assert(run.actions =~= seq![asked, ActionView::OwnLocation]);
            },
        }
    }
}

/// A confirmation is noted as a subscription to the contract, whatever the
/// operation's state. It ends an operation that awaits it, and is an error in
/// any other state.
pub proof fn confirmed_request_is_noted<E>(
    node: Node<E>,
    op: SubscribeOpView,
    id: Transaction,
    key: ContractKey,
    sender: PeerKeyLocation,
    target: PeerKeyLocation,
)
    ensures
        handled(
            node,
            op,
            SubscribeMsgView::ReturnSub { id, key, sender, target, subscribed: true },
        ) == (Run {
            actions: seq![ActionView::AddSubscription { key }],
            result: if op.state is Some && op.state->0 is AwaitingResponse {
                Ok(
                    OperationResultView {
                        return_msg: None,
                        state: Some(SubscribeOpView { id: op.id, state: None, ttl: op.ttl }),
                    },
                )
            } else {
                Err(OpErrorView::<E>::InvalidStateTransition(op.id))
            },
        }),
{
    reveal_with_fuel(ProgressView::run, 2);
    assert(handled(node, op, confirmation(id, key, sender, target)).actions =~= seq![
        ActionView::AddSubscription { key },
    ]);
}

/// An operation that awaits no response fails on a refusal, without asking the
/// node for anything.
pub proof fn stray_refusal_is_an_error<E>(
    node: Node<E>,
    op: SubscribeOpView,
    id: Transaction,
    key: ContractKey,
    sender: PeerKeyLocation,
    target: PeerKeyLocation,
)
    requires
        !(op.state is Some && op.state->0 is AwaitingResponse),
    ensures
        handled(
            node,
            op,
            SubscribeMsgView::ReturnSub { id, key, sender, target, subscribed: false },
        ) == (Run {
            actions: Seq::empty(),
            result: Err::<OperationResultView, _>(OpErrorView::<E>::InvalidStateTransition(op.id)),
        }),
{
}

/// A request for routing is none of a subscription's business.
pub proof fn routing_is_not_handled<E>(
    node: Node<E>,
    op: SubscribeOpView,
    id: Transaction,
    target: PeerKeyLocation,
)
    ensures
        handled(node, op, SubscribeMsgView::FetchRouting { id, target }) == (Run {
            actions: Seq::empty(),
            result: Err::<OperationResultView, _>(OpErrorView::<E>::UnexpectedOpState),
        }),
{
}

/// A request is made only by an operation that prepares one, and only for a
/// contract that the node caches. It goes to the closest peer that caches the
/// contract, under the transaction that it was prepared with; the operation
/// then awaits the response, with nobody to skip and no retries made.
pub proof fn request_goes_to_the_closest_peer<E>(
    node: Node<E>,
    op: SubscribeOpView,
    client_id: Option<ClientId>,
)
    ensures
        ({
            let run = requested(node, op, client_id);
            match op.state {
                Some(SubscribeStateView::PrepareRequest { id, key }) => {
                    let cached = ActionView::IsContractCached { key };
                    let closest = ActionView::ClosestCaching { key, skip_list: Seq::empty() };
                    if !(node.cached)(key) {
                        &&& run.actions == seq![cached]
                        &&& run.result == Err::<(), OpErrorView<E>>(
                            OpErrorView::ContractError(ContractError::ContractNotFound(key)),
                        )
                    } else {
                        match (node.closest)(key, Seq::empty()) {
                            None => {
                                &&& run.actions == seq![cached, closest]
                                &&& run.result == Err::<(), OpErrorView<E>>(
                                    OpErrorView::RingError(RingError::EmptyRing),
                                )
                            },
                            Some(target) => {
                                let msg = SubscribeMsgView::RequestSub { id, key, target };
                                let waiting = SubscribeOpView {
                                    id,
                                    state: Some(
                                        SubscribeStateView::AwaitingResponse {
                                            skip_list: Seq::empty(),
                                            retries: 0,
                                        },
                                    ),
                                    ttl: op.ttl,
                                };
                                &&& run.actions == seq![
                                    cached,
                                    closest,
                                    ActionView::NotifyOpChange { msg, op: waiting, client_id },
                                ]
                                &&& run.result == (match (node.notifies)(
                                    msg,
                                    waiting,
                                    client_id,
                                ) {
                                    Ok(_) => Ok::<(), OpErrorView<E>>(()),
                                    Err(e) => Err(OpErrorView::External(e)),
                                })
                            },
                        }
                    }
                },
                _ => {
                    &&& run.actions == Seq::<ActionView>::empty()
                    &&& run.result == Err::<(), OpErrorView<E>>(OpErrorView::UnexpectedOpState)
                },
            }
        }),
{
    reveal_with_fuel(RequestProgressView::run, 4);
    let run = requested(node, op, client_id);
    match op.state {
        Some(SubscribeStateView::PrepareRequest { id, key }) => {
            let cached = ActionView::IsContractCached { key };
            let closest = ActionView::ClosestCaching { key, skip_list: Seq::empty() };
            if !(node.cached)(key) {
                assert(run.actions =~= seq![cached]);
            } else {
                match (node.closest)(key, Seq::empty()) {
                    None => {
                        assert(run.actions =~= seq![cached, closest]);
                    },
                    Some(target) => {
                        let msg = SubscribeMsgView::RequestSub { id, key, target };
                        assert(run.actions =~= seq![
                            cached,
                            closest,
                            ActionView::NotifyOpChange { msg, op: awaiting(id, op.ttl), client_id },
                        ]);
                    },
                }
            }
        },
        _ => {},
    }
}

/// An operation that is asked to go on is given the action that it waits for,
/// so that any answer to that action lets it go on.
pub proof fn action_asked_is_action_awaited<E>(
    op: SubscribeOpView,
    msg: SubscribeMsgView,
    pending: PendingView,
    event: Event<E>,
)
    ensures
        op.handling::<E>(msg) matches ProgressView::Perform { action, pending: next } ==> action
            == next.action(),
        pending.resumed(event) matches ProgressView::Perform { action, pending: next } ==> action
            == next.action(),
{
}

/// The same of a request that is being made.
pub proof fn request_asked_is_request_awaited<E>(
    op: SubscribeOpView,
    client_id: Option<ClientId>,
    pending: RequestPending,
    event: Event<E>,
)
    ensures
        op.requesting::<E>(client_id) matches RequestProgressView::Perform {
            action,
            pending: next,
        } ==> action == next.waits_for(),
        pending.resumed(event) matches RequestProgressView::Perform { action, pending: next }
            ==> action == next.waits_for(),
{
}

/// Whether the hop counter of the request that `progress` is about, if it is
/// about a peer's request, is not used up.
pub open spec fn hops_left<E>(progress: ProgressView<E>) -> bool {
    match progress {
        ProgressView::Perform { pending, .. } => match pending {
            PendingView::SeekOwn { seek, .. } => seek.htl < usize::MAX,
            PendingView::SeekCached { seek, .. } => seek.htl < usize::MAX,
            PendingView::SeekClosest { seek, .. } => seek.htl < usize::MAX,
            _ => true,
        },
        ProgressView::Done(_) => true,
    }
}

/// A request whose hop counter is not used up is handled to the end, whatever
/// the node answers. Every request that a peer makes or passes on is one.
pub proof fn request_with_hops_left_is_handled<E>(
    op: SubscribeOpView,
    msg: SubscribeMsgView,
    pending: PendingView,
    event: Event<E>,
)
    ensures
        (msg matches SubscribeMsgView::SeekNode { htl, .. } ==> htl < usize::MAX) ==> hops_left(
            op.handling::<E>(msg),
        ),
        hops_left(pending.asked::<E>()) ==> pending.hop_fits(event) && hops_left(
            pending.resumed(event),
        ),
        !pending.hop_fits(event) ==> (pending matches PendingView::SeekClosest { seek, .. }
            && seek.htl >= usize::MAX && event is ClosestCaching),
{
}

/// What a node answers to an action is an answer to that action, and says what
/// the node holds.
pub proof fn node_answers_what_is_asked<E>(node: Node<E>, action: ActionView)
    ensures
        answers(node.answer(action), action),
        match action {
            ActionView::OwnLocation => node.answer(action) == Event::<E>::OwnLocation(node.own),
            ActionView::IsContractCached { key } => node.answer(action)
                == Event::<E>::IsContractCached((node.cached)(key)),
            ActionView::ClosestCaching { key, skip_list } => node.answer(action)
                == Event::<E>::ClosestCaching((node.closest)(key, skip_list)),
            ActionView::AddSubscriber { key, subscriber } => node.answer(action)
                == Event::<E>::AddSubscriber((node.takes)(key, subscriber)),
            ActionView::AddSubscription { .. } => node.answer(action)
                == Event::<E>::AddSubscription,
            ActionView::Send { peer, msg } => node.answer(action) == Event::<E>::Send(
                (node.sends)(peer, msg),
            ),
            ActionView::NotifyOpChange { msg, op, client_id } => node.answer(action)
                == Event::<E>::NotifyOpChange((node.notifies)(msg, op, client_id)),
        },
{
}

/// A run performs the action that is asked for, goes on from the node's answer
/// to it, and ends where nothing more is asked for.
pub proof fn run_follows_the_answers<E>(node: Node<E>, op: SubscribeOpView, msg: SubscribeMsgView)
    ensures
        handled(node, op, msg) == op.handling::<E>(msg).run(node),
        forall|progress: ProgressView<E>|
            match progress {
                ProgressView::Perform { action, pending } => {
                    let rest = pending.resumed(node.answer(pending.action())).run(node);
                    &&& (#[trigger] progress.run(node)).actions == seq![action] + rest.actions
                    &&& progress.run(node).result == rest.result
                },
                ProgressView::Done(result) => {
                    &&& progress.run(node).actions == Seq::<ActionView>::empty()
                    &&& progress.run(node).result == result
                },
            },
{
}

/// The same of a request that is being made.
pub proof fn request_follows_the_answers<E>(
    node: Node<E>,
    op: SubscribeOpView,
    client_id: Option<ClientId>,
)
    ensures
        requested(node, op, client_id) == op.requesting::<E>(client_id).run(node),
        forall|progress: RequestProgressView<E>|
            match progress {
                RequestProgressView::Perform { action, pending } => {
                    let rest = pending.resumed(node.answer(pending.waits_for())).run(node);
                    &&& (#[trigger] progress.run(node)).actions == seq![action] + rest.actions
                    &&& progress.run(node).result == rest.result
                },
                RequestProgressView::Done(result) => {
                    &&& progress.run(node).actions == Seq::<ActionView>::empty()
                    &&& progress.run(node).result == result
                },
            },
{
}

/// A run is over after as many actions as are left at most.
pub proof fn run_ends<E>(node: Node<E>, progress: ProgressView<E>)
    ensures
        progress.run(node).actions.len() <= progress.actions_left(),
    decreases progress.actions_left(),
{
    match progress {
        ProgressView::Perform { pending, .. } => {
            run_ends(node, pending.resumed(node.answer(pending.action())));
        },
        ProgressView::Done(_) => {},
    }
}

/// Handling a message takes four actions at most.
pub proof fn handling_is_short<E>(node: Node<E>, op: SubscribeOpView, msg: SubscribeMsgView)
    ensures
        handled(node, op, msg).actions.len() <= 4,
{
    run_ends(node, op.handling::<E>(msg));
}

/// Making a request takes three actions at most.
pub proof fn requesting_is_short<E>(
    node: Node<E>,
    op: SubscribeOpView,
    client_id: Option<ClientId>,
)
    ensures
        requested(node, op, client_id).actions.len() <= 3,
{
    request_goes_to_the_closest_peer(node, op, client_id);
}

/// No action is asked for twice while a message is handled, nor while a
/// request is made.
pub proof fn no_action_is_asked_for_twice<E>(
    node: Node<E>,
    op: SubscribeOpView,
    msg: SubscribeMsgView,
    client_id: Option<ClientId>,
)
    ensures
        handled(node, op, msg).actions.no_duplicates(),
        requested(node, op, client_id).actions.no_duplicates(),
{
    reveal_with_fuel(ProgressView::run, 5);
    request_goes_to_the_closest_peer(node, op, client_id);
}

/// Once a message has been handled, the operation that is stored, if any, has
/// the transaction and the lifetime that it had, and is well-formed if it was.
pub proof fn operation_keeps_its_identity<E>(
    node: Node<E>,
    op: SubscribeOpView,
    msg: SubscribeMsgView,
)
    ensures
        handled(node, op, msg).result matches Ok(res) ==> (res.state matches Some(next) ==> {
            &&& next.id == op.id
            &&& next.ttl == op.ttl
            &&& op.wf() ==> next.wf()
            &&& next.state matches Some(SubscribeStateView::AwaitingResponse { retries, .. })
                ==> (op.state == next.state || retries <= MAX_RETRIES)
        }),
{
    reveal_with_fuel(ProgressView::run, 5);
}

/// Every operation starts well-formed, and so does the one that awaits the
/// response to a request. A prepared request holds its own transaction and the
/// contract, a received one nothing, and one that awaits its first response has
/// nobody to skip and all of its retries.
pub proof fn operations_start_well_formed<E>(
    id: Transaction,
    key: ContractKey,
    ttl: Duration,
    msg: SubscribeMsgView,
)
    ensures
        prepared(id, key, ttl).wf(),
        received(id, ttl).wf(),
        awaiting(id, ttl).wf(),
        loaded::<E>(None, msg, ttl) matches Ok(init) && init.op.wf(),
        prepared(id, key, ttl) == (SubscribeOpView {
            id,
            state: Some(SubscribeStateView::PrepareRequest { id, key }),
            ttl,
        }),
        received(id, ttl) == (SubscribeOpView {
            id,
            state: Some(SubscribeStateView::ReceivedRequest),
            ttl,
        }),
        awaiting(id, ttl) == (SubscribeOpView {
            id,
            state: Some(
                SubscribeStateView::AwaitingResponse { skip_list: Seq::empty(), retries: 0 },
            ),
            ttl,
        }),
{
}

/// No more than ten retries are made, and a request makes no more than ten
/// hops.
pub proof fn limit_is_ten()
    ensures
        MAX_RETRIES == 10,
{
}

/// An operation is final exactly when it is completed: no operation that still
/// prepares, has received or awaits something is, and neither is one without a
/// state.
pub proof fn only_a_completed_operation_is_final(op: SubscribeOpView)
    ensures
        op.finalized() <==> op.state == Some(SubscribeStateView::Completed),
        op.state is None ==> !op.finalized(),
        op.state is Some && !(op.state->0 is Completed) ==> !op.finalized(),
{
}

/// Handling a message makes an operation final exactly by confirming a peer's
/// request; an operation that awaits a response, and one that has been given
/// it, is never final.
pub proof fn only_a_confirmation_finalizes<E>(
    node: Node<E>,
    op: SubscribeOpView,
    msg: SubscribeMsgView,
)
    ensures
        handled(node, op, msg).result matches Ok(res) ==> (res.state matches Some(next)
            ==> (next.finalized() <==> (confirms(handled(node, op, msg).result) || (msg
            is RequestSub && op.state == Some(SubscribeStateView::Completed))))),
        msg is ReturnSub ==> (handled(node, op, msg).result matches Ok(res)
            ==> (res.state matches Some(next) && !next.finalized())),
{
    reveal_with_fuel(ProgressView::run, 5);
}

/// Whatever is sent while a message is handled, to another peer or as the
/// answer, is about the same transaction as the message.
pub proof fn transaction_is_kept<E>(node: Node<E>, op: SubscribeOpView, msg: SubscribeMsgView)
    ensures
        handled(node, op, msg).result matches Ok(res) ==> (res.return_msg matches Some(answer)
            ==> answer.id() == msg.id()),
        forall|i: int|
            0 <= i < handled(node, op, msg).actions.len() ==> ((#[trigger] handled(
                node,
                op,
                msg,
            ).actions[i]) matches ActionView::Send { msg: sent, .. } ==> sent.id() == msg.id()),
{
    only_requests_are_passed_on(node, op, msg);
    reveal_with_fuel(ProgressView::run, 5);
}

/// Only a peer's request for a contract that is missing here is ever sent on,
/// to the closest other peer that caches the contract. The message names that
/// peer as its target, adds the peer that it was for to the peers to skip,
/// counts one more hop, of `MAX_RETRIES` at most, and is otherwise unchanged.
pub proof fn only_requests_are_passed_on<E>(
    node: Node<E>,
    op: SubscribeOpView,
    msg: SubscribeMsgView,
)
    ensures
        forall|i: int|
            0 <= i < handled(node, op, msg).actions.len() ==> ((#[trigger] handled(
                node,
                op,
                msg,
            ).actions[i]) matches ActionView::Send { peer, msg: sent } ==> {
                &&& msg matches SubscribeMsgView::SeekNode {
                    id,
                    key,
                    target,
                    subscriber,
                    skip_list,
                    htl,
                }
                &&& !(node.cached)(key)
                &&& (node.closest)(key, seq![node.own.peer]) matches Some(next)
                &&& peer == next.peer
                &&& sent == SubscribeMsgView::SeekNode {
                    id,
                    key,
                    target: next,
                    subscriber,
                    skip_list: skip_list.push(target.peer),
                    htl: htl + 1,
                }
                &&& sent.target() == Some(next)
                &&& htl + 1 <= MAX_RETRIES
            }),
{
    match msg {
        SubscribeMsgView::FetchRouting { id, target } => {
            routing_is_not_handled(node, op, id, target);
        },
        SubscribeMsgView::RequestSub { id, key, target } => {
            own_request_is_sent_out(node, op, id, key, target);
        },
        SubscribeMsgView::SeekNode { id, key, target, subscriber, skip_list, htl } => {
            let seek = SeekView { id, key, target, subscriber, skip_list, htl };
            if (node.cached)(key) {
                cached_contract_is_served_here(node, op, seek);
            } else {
                missing_contract_is_sought_elsewhere(node, op, seek);
            }
        },
        SubscribeMsgView::ReturnSub { id, key, sender, target, subscribed } => {
            if subscribed {
                confirmed_request_is_noted(node, op, id, key, sender, target);
            } else {
                match op.state {
                    Some(SubscribeStateView::AwaitingResponse { skip_list, retries }) => {
                        refused_request_is_retried(
                            node,
                            op,
                            id,
                            key,
                            sender,
                            target,
                            skip_list,
                            retries,
                        );
                    },
                    _ => {
                        stray_refusal_is_an_error(node, op, id, key, sender, target);
                    },
                }
            }
        },
    }
}

/// Whether `result` answers with a confirmation.
pub open spec fn confirms<E>(result: Result<OperationResultView, OpErrorView<E>>) -> bool {
    match result {
        Ok(OperationResultView {
            return_msg: Some(SubscribeMsgView::ReturnSub { subscribed, .. }),
            ..
        }) => subscribed,
        _ => false,
    }
}

/// A peer confirms a request only while its operation has received one and
/// nothing more. The operation is final from then on, so it confirms once.
pub proof fn request_is_confirmed_once<E>(
    node: Node<E>,
    op: SubscribeOpView,
    msg: SubscribeMsgView,
)
    ensures
        confirms(handled(node, op, msg).result) ==> {
            &&& msg is SeekNode
            &&& op.state == Some(SubscribeStateView::ReceivedRequest)
            &&& handled(node, op, msg).result->Ok_0.state == Some(
                SubscribeOpView {
                    id: op.id,
                    state: Some(SubscribeStateView::Completed),
                    ttl: op.ttl,
                },
            )
        },
        op.finalized() ==> !confirms(handled(node, op, msg).result),
{
    reveal_with_fuel(ProgressView::run, 5);
}

/// The answer to a peer's request, be it a confirmation or a refusal, goes to
/// the peer that wants to subscribe, whoever passed the request on, and names
/// the contract that it asked for. A confirmation comes from the peer that the
/// request was for, a refusal from this peer.
pub proof fn subscriber_is_answered<E>(node: Node<E>, op: SubscribeOpView, seek: SeekView)
    ensures
        ({
            let msg = SubscribeMsgView::SeekNode {
                id: seek.id,
                key: seek.key,
                target: seek.target,
                subscriber: seek.subscriber,
                skip_list: seek.skip_list,
                htl: seek.htl,
            };
            handled(node, op, msg).result matches Ok(res) ==> {
                &&& res.return_msg matches Some(answer)
                &&& answer matches SubscribeMsgView::ReturnSub {
                    id,
                    key,
                    sender,
                    target,
                    subscribed,
                }
                &&& id == seek.id
                &&& key == seek.key
                &&& target == seek.subscriber
                &&& sender == (if subscribed {
                    seek.target
                } else {
                    node.own
                })
                &&& answer.target() == Some(seek.subscriber)
                &&& answer.sender() == Some(sender)
            }
        }),
{
    reveal_with_fuel(ProgressView::run, 5);
}

/// The messages that end an exchange are those that name the peer they are
/// for, and an answer is one of them.
pub proof fn terminal_messages_have_a_target(msg: SubscribeMsgView)
    ensures
        msg.terminal() == (msg.target() is Some),
        msg.sender() is Some ==> msg.terminal(),
{
}

/// A message belongs to the transaction that it carries. A request to a peer
/// is for its target, and so is an answer, whether it confirms or refuses; an
/// answer is from its sender. The other messages are for nobody and from
/// nobody.
pub proof fn message_is_for_its_target(msg: SubscribeMsgView)
    ensures
        match msg {
            SubscribeMsgView::FetchRouting { id, .. } => {
                &&& msg.id() == id
                &&& msg.target() is None
                &&& msg.sender() is None
                &&& !msg.terminal()
            },
            SubscribeMsgView::RequestSub { id, .. } => {
                &&& msg.id() == id
                &&& msg.target() is None
                &&& msg.sender() is None
                &&& !msg.terminal()
            },
            SubscribeMsgView::SeekNode { id, target, .. } => {
                &&& msg.id() == id
                &&& msg.target() == Some(target)
                &&& msg.sender() is None
                &&& msg.terminal()
            },
            SubscribeMsgView::ReturnSub { id, sender, target, .. } => {
                &&& msg.id() == id
                &&& msg.target() == Some(target)
                &&& msg.sender() == Some(sender)
                &&& msg.terminal()
            },
        },
{
}

/// With nothing stored, any message opens an operation of its own transaction
/// and of the given lifetime, which has received a request and done nothing
/// yet, so that a peer with room confirms the request that it was opened for,
/// however far the request has come.
pub proof fn new_request_can_be_confirmed<E>(node: Node<E>, msg: SubscribeMsgView, ttl: Duration)
    ensures
        ({
            &&& loaded::<E>(None, msg, ttl) matches Ok(init)
            &&& init.op.id == msg.id()
            &&& init.op.state == Some(SubscribeStateView::ReceivedRequest)
            &&& init.op.ttl == ttl
            &&& !init.op.finalized()
            &&& init.sender == (match msg {
                SubscribeMsgView::ReturnSub { sender, .. } => Some(sender.peer),
                _ => None,
            })
            &&& msg matches SubscribeMsgView::SeekNode { key, subscriber, .. } ==> ((node.cached)(key)
                && (node.takes)(key, subscriber) ==> confirms(handled(node, init.op, msg).result))
        }),
{
    reveal_with_fuel(ProgressView::run, 5);
}

/// A stored subscribe operation is picked up as it was stored, and one of
/// another kind is an error. The peer that sent the message is known only if
/// the message is an answer.
pub proof fn stored_operation_is_picked_up<E>(
    stored: Option<OpEnum>,
    msg: SubscribeMsgView,
    ttl: Duration,
)
    ensures
        stored matches Some(OpEnum::Subscribe(op)) ==> (loaded::<E>(stored, msg, ttl) matches Ok(
            init,
        ) && init.op == op@),
        stored == Some(OpEnum::Other) ==> loaded::<E>(stored, msg, ttl) == Err::<
            OpInitializationView,
            OpErrorView<E>,
        >(OpErrorView::OpNotPresent(msg.id())),
        loaded::<E>(stored, msg, ttl) matches Ok(init) ==> init.sender == (match msg {
            SubscribeMsgView::ReturnSub { sender, .. } => Some(sender.peer),
            _ => None,
        }),
{
}

} // verus!
