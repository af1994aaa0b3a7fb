//! What holds of exchanges: several messages, between several peers.
use crate::error::{OpErrorView, RingError};
use crate::laws::{
    cached_contract_is_served_here, confirmed_request_is_noted,
    only_requests_are_passed_on, own_request_is_sent_out, refusal, refused_request_is_retried,
    request_goes_to_the_closest_peer,
};
use crate::message::SubscribeMsgView;
use crate::node::{ClientId, PeerKey, PeerKeyLocation, Transaction};
use crate::op::{
    loaded, prepared, received, OpInitializationView, OperationResultView, SubscribeOpView,
    SubscribeStateView, MAX_RETRIES,
};
use crate::process::SeekView;
use crate::request::awaiting;
use crate::run::{handled, requested, Node, Run};
use crate::step::ActionView;
use freenet_stdlib::prelude::ContractKey;
use std::time::Duration;
use vstd::prelude::*;

verus! {

/// The request that `subscriber` sends to `provider` at first.
pub open spec fn first_request(
    id: Transaction,
    key: ContractKey,
    subscriber: PeerKeyLocation,
    provider: PeerKeyLocation,
) -> SeekView {
    SeekView {
        id,
        key,
        target: provider,
        subscriber,
        skip_list: seq![subscriber.peer],
        htl: 0,
    }
}

/// A subscription between two peers succeeds: the subscriber caches the
/// contract and finds the provider, and the provider caches the contract and
/// has room. Then the request reaches the provider, which takes the subscriber
/// and completes its operation, and the confirmation reaches the subscriber,
/// which notes the subscription and has nothing left to do.
pub proof fn subscription_succeeds<E>(
    subscriber: Node<E>,
    provider: Node<E>,
    id: Transaction,
    key: ContractKey,
    client_id: Option<ClientId>,
    ttl: Duration,
    provider_ttl: Duration,
)
    requires
        (subscriber.cached)(key),
        (subscriber.closest)(key, Seq::empty()) == Some(provider.own),
        (subscriber.notifies)(
            SubscribeMsgView::RequestSub { id, key, target: provider.own },
            awaiting(id, ttl),
            client_id,
        ) == Ok::<(), E>(()),
        (provider.cached)(key),
        (provider.takes)(key, subscriber.own),
    ensures
        ({
            let request = SubscribeMsgView::RequestSub { id, key, target: provider.own };
            let waiting = awaiting(id, ttl);
            let seek = SubscribeMsgView::SeekNode {
                id,
                key,
                target: provider.own,
                subscriber: subscriber.own,
                skip_list: seq![subscriber.own.peer],
                htl: 0,
            };
            let confirmed = SubscribeMsgView::ReturnSub {
                id,
                key,
                sender: provider.own,
                target: subscriber.own,
                subscribed: true,
            };
            let made = requested(subscriber, prepared(id, key, ttl), client_id);
            let served = handled(provider, received(id, provider_ttl), seek);
            &&& made.result == Ok::<(), OpErrorView<E>>(())
            &&& made.actions.last() == ActionView::NotifyOpChange {
                msg: request,
                op: waiting,
                client_id,
            }
            &&& handled(subscriber, waiting, request).result == Ok::<
                OperationResultView,
                OpErrorView<E>,
            >(OperationResultView { return_msg: Some(seek), state: Some(waiting) })
            &&& loaded::<E>(None, seek, provider_ttl) == Ok::<
                OpInitializationView,
                OpErrorView<E>,
            >(OpInitializationView { op: received(id, provider_ttl), sender: None })
            &&& served.actions.last() == ActionView::AddSubscriber {
                key,
                subscriber: subscriber.own,
            }
            &&& served.result == Ok::<OperationResultView, OpErrorView<E>>(
                OperationResultView {
                    return_msg: Some(confirmed),
                    state: Some(
                        received(id, provider_ttl).with_state(Some(SubscribeStateView::Completed)),
                    ),
                },
            )
            &&& handled(subscriber, waiting, confirmed) == (Run {
                actions: seq![ActionView::AddSubscription { key }],
                result: Ok::<OperationResultView, OpErrorView<E>>(
                    OperationResultView { return_msg: None, state: Some(waiting.with_state(None)) },
                ),
            })
        }),
{
    let seek = first_request(id, key, subscriber.own, provider.own);
    request_goes_to_the_closest_peer(subscriber, prepared(id, key, ttl), client_id);
    own_request_is_sent_out(subscriber, awaiting(id, ttl), id, key, provider.own);
    cached_contract_is_served_here(provider, received(id, provider_ttl), seek);
    confirmed_request_is_noted(
        subscriber,
        awaiting(id, ttl),
        id,
        key,
        provider.own,
        subscriber.own,
    );
}

/// A provider that caches the contract and has room confirms any request of
/// the subscriber, however many peers were tried or passed it on before. The
/// subscriber then notes the subscription and has nothing left to do.
pub proof fn provider_with_room_is_subscribed_to<E>(
    subscriber: Node<E>,
    provider: Node<E>,
    op: SubscribeOpView,
    provider_op: SubscribeOpView,
    seek: SeekView,
)
    requires
        op.state is Some && op.state->0 is AwaitingResponse,
        provider_op.state == Some(SubscribeStateView::ReceivedRequest),
        seek.subscriber == subscriber.own,
        (provider.cached)(seek.key),
        (provider.takes)(seek.key, subscriber.own),
    ensures
        ({
            let msg = SubscribeMsgView::SeekNode {
                id: seek.id,
                key: seek.key,
                target: seek.target,
                subscriber: seek.subscriber,
                skip_list: seek.skip_list,
                htl: seek.htl,
            };
            let confirmed = SubscribeMsgView::ReturnSub {
                id: seek.id,
                key: seek.key,
                sender: seek.target,
                target: subscriber.own,
                subscribed: true,
            };
            &&& handled(provider, provider_op, msg).result == Ok::<
                OperationResultView,
                OpErrorView<E>,
            >(
                OperationResultView {
                    return_msg: Some(confirmed),
                    state: Some(provider_op.with_state(Some(SubscribeStateView::Completed))),
                },
            )
            &&& handled(subscriber, op, confirmed) == (Run {
                actions: seq![ActionView::AddSubscription { key: seek.key }],
                result: Ok::<OperationResultView, OpErrorView<E>>(
                    OperationResultView { return_msg: None, state: Some(op.with_state(None)) },
                ),
            })
        }),
{
    cached_contract_is_served_here(provider, provider_op, seek);
    confirmed_request_is_noted(subscriber, op, seek.id, seek.key, seek.target, subscriber.own);
}

/// A provider that has no room for the subscriber refuses any request of it,
/// whatever state its operation is in, and keeps no operation. It is skipped
/// when the subscriber looks for another peer to try.
pub proof fn full_provider_is_skipped<E>(
    subscriber: Node<E>,
    provider: Node<E>,
    op: SubscribeOpView,
    provider_op: SubscribeOpView,
    seek: SeekView,
    skip_list: Seq<PeerKey>,
    retries: nat,
)
    requires
        op.state == Some(SubscribeStateView::AwaitingResponse { skip_list, retries }),
        retries < MAX_RETRIES,
        seek.subscriber == subscriber.own,
        (provider.cached)(seek.key),
        !(provider.takes)(seek.key, subscriber.own),
    ensures
        ({
            let msg = SubscribeMsgView::SeekNode {
                id: seek.id,
                key: seek.key,
                target: seek.target,
                subscriber: seek.subscriber,
                skip_list: seek.skip_list,
                htl: seek.htl,
            };
            let refused = SubscribeMsgView::ReturnSub {
                id: seek.id,
                key: seek.key,
                sender: provider.own,
                target: subscriber.own,
                subscribed: false,
            };
            &&& handled(provider, provider_op, msg).result == Ok::<
                OperationResultView,
                OpErrorView<E>,
            >(OperationResultView { return_msg: Some(refused), state: None })
            &&& handled(subscriber, op, refused).actions.first() == ActionView::ClosestCaching {
                key: seek.key,
                skip_list: skip_list.push(provider.own.peer),
            }
        }),
{
    cached_contract_is_served_here(provider, provider_op, seek);
    refused_request_is_retried(
        subscriber,
        op,
        seek.id,
        seek.key,
        provider.own,
        subscriber.own,
        skip_list,
        retries,
    );
}

/// A refusal, and what the refused node answers while it handles it.
pub struct Refusal<E> {
    pub node: Node<E>,
    pub sender: PeerKeyLocation,
    pub target: PeerKeyLocation,
}

/// The operation once it has handled `refusals` of its request `id`, one after
/// the other, or the first error.
pub open spec fn after_refusals<E>(
    op: SubscribeOpView,
    id: Transaction,
    key: ContractKey,
    refusals: Seq<Refusal<E>>,
) -> Result<Option<SubscribeOpView>, OpErrorView<E>>
    decreases refusals.len(),
{
    if refusals.len() == 0 {
        Ok(Some(op))
    } else {
        let last = refusals.last();
        match after_refusals(op, id, key, refusals.drop_last()) {
            Ok(Some(before)) => match handled(
                last.node,
                before,
                refusal(id, key, last.sender, last.target),
            ).result {
                Ok(res) => Ok(res.state),
                Err(e) => Err(e),
            },
            stuck => stuck,
        }
    }
}

/// The peers that refused, in order.
pub open spec fn refusers<E>(refusals: Seq<Refusal<E>>) -> Seq<PeerKey> {
    refusals.map_values(|refused: Refusal<E>| refused.sender.peer)
}

/// Whether, at the refusal with index `i`, there is a peer to try other than
/// those in `skip_list` and those that have refused up to then.
pub open spec fn finds_another<E>(
    key: ContractKey,
    skip_list: Seq<PeerKey>,
    refusals: Seq<Refusal<E>>,
    i: int,
) -> bool {
    (refusals[i].node.closest)(key, skip_list + refusers(refusals.take(i + 1))) is Some
}

/// A request survives refusals until it has made `MAX_RETRIES` retries, if at
/// each of those refusals there is another peer to try. It remembers every
/// peer that refused it, in order, and fails for good with the refusal after
/// that.
pub proof fn retries_are_bounded<E>(
    op: SubscribeOpView,
    id: Transaction,
    key: ContractKey,
    skip_list: Seq<PeerKey>,
    retries: nat,
    refusals: Seq<Refusal<E>>,
)
    requires
        op.state == Some(SubscribeStateView::AwaitingResponse { skip_list, retries }),
        retries <= MAX_RETRIES,
        forall|i: int|
            0 <= i < refusals.len() && retries + i < MAX_RETRIES ==> #[trigger] finds_another(
                key,
                skip_list,
                refusals,
                i,
            ),
    ensures
        retries + refusals.len() <= MAX_RETRIES ==> after_refusals(op, id, key, refusals) == Ok::<
            Option<SubscribeOpView>,
            OpErrorView<E>,
        >(
            Some(
                op.with_state(
                    Some(
                        SubscribeStateView::AwaitingResponse {
                            skip_list: skip_list + refusers(refusals),
                            retries: retries + refusals.len(),
                        },
                    ),
                ),
            ),
        ),
        retries + refusals.len() > MAX_RETRIES ==> after_refusals(op, id, key, refusals) == Err::<
            Option<SubscribeOpView>,
            OpErrorView<E>,
        >(OpErrorView::MaxRetriesExceeded(id, "sub"@)),
    decreases refusals.len(),
{
    if refusals.len() == 0 {
        assert(skip_list + refusers(refusals) =~= skip_list);
    } else {
        let before = refusals.drop_last();
        let last = refusals.last();
        assert forall|i: int|
            0 <= i < before.len() && retries + i < MAX_RETRIES implies #[trigger] finds_another(
            key,
            skip_list,
            before,
            i,
        ) by {
            assert(finds_another(key, skip_list, refusals, i));
            assert(before.take(i + 1) =~= refusals.take(i + 1));
        }
        retries_are_bounded(op, id, key, skip_list, retries, before);
        if retries + before.len() <= MAX_RETRIES {
            let skipped = skip_list + refusers(before);
            let made = (retries + before.len()) as nat;
            let waiting = op.with_state(
                Some(SubscribeStateView::AwaitingResponse { skip_list: skipped, retries: made }),
            );
            assert(skipped.push(last.sender.peer) =~= skip_list + refusers(refusals));
            assert(refusals.take(refusals.len() as int) =~= refusals);
            if made < MAX_RETRIES {
                assert(finds_another(key, skip_list, refusals, refusals.len() - 1));
            }
            refused_request_is_retried(
                last.node,
                waiting,
                id,
                key,
                last.sender,
                last.target,
                skipped,
                made,
            );
        }
    }
}

/// A request fails for good with the first refusal after which there is no
/// other peer to try, if it has retries left until then.
pub proof fn retries_end_with_nobody_left<E>(
    op: SubscribeOpView,
    id: Transaction,
    key: ContractKey,
    skip_list: Seq<PeerKey>,
    retries: nat,
    refusals: Seq<Refusal<E>>,
    n: int,
)
    requires
        op.state == Some(SubscribeStateView::AwaitingResponse { skip_list, retries }),
        0 <= n < refusals.len(),
        retries + n < MAX_RETRIES,
        forall|i: int| 0 <= i < n ==> #[trigger] finds_another(key, skip_list, refusals, i),
        !finds_another(key, skip_list, refusals, n),
    ensures
        after_refusals(op, id, key, refusals) == Err::<Option<SubscribeOpView>, OpErrorView<E>>(
            OpErrorView::RingError(RingError::NoCachingPeers(key)),
        ),
    decreases refusals.len(),
{
    let before = refusals.drop_last();
    let last = refusals.last();
    assert forall|i: int| 0 <= i < before.len() implies #[trigger] finds_another(
        key,
        skip_list,
        before,
        i,
    ) == finds_another(key, skip_list, refusals, i) by {
        assert(before.take(i + 1) =~= refusals.take(i + 1));
    }
    if n < before.len() {
        retries_end_with_nobody_left(op, id, key, skip_list, retries, before, n);
    } else {
        retries_are_bounded(op, id, key, skip_list, retries, before);
        let skipped = skip_list + refusers(before);
        let made = (retries + before.len()) as nat;
        let waiting = op.with_state(
            Some(SubscribeStateView::AwaitingResponse { skip_list: skipped, retries: made }),
        );
        assert(skipped.push(last.sender.peer) =~= skip_list + refusers(refusals));
        assert(refusals.take(n + 1) =~= refusals);
        refused_request_is_retried(
            last.node,
            waiting,
            id,
            key,
            last.sender,
            last.target,
            skipped,
            made,
        );
    }
}

/// A request that has just been made has all of its retries: the operation that
/// it is made with survives `MAX_RETRIES` refusals, as long as there is another
/// peer to try, and fails with the one after that.
pub proof fn new_request_has_all_retries<E>(
    node: Node<E>,
    op: SubscribeOpView,
    client_id: Option<ClientId>,
    id: Transaction,
    key: ContractKey,
    refusals: Seq<Refusal<E>>,
)
    requires
        op.state == Some(SubscribeStateView::PrepareRequest { id, key }),
        (node.cached)(key),
        (node.closest)(key, Seq::empty()) is Some,
        forall|i: int|
            0 <= i < refusals.len() && i < MAX_RETRIES ==> #[trigger] finds_another(
                key,
                Seq::empty(),
                refusals,
                i,
            ),
    ensures
        ({
            &&& requested(node, op, client_id).actions.last() matches ActionView::NotifyOpChange {
                msg,
                op: waiting,
                client_id: client,
            }
            &&& msg == SubscribeMsgView::RequestSub {
                id,
                key,
                target: (node.closest)(key, Seq::empty())->0,
            }
            &&& client == client_id
            &&& waiting.id == id
            &&& waiting.ttl == op.ttl
            &&& waiting.state == Some(
                SubscribeStateView::AwaitingResponse { skip_list: Seq::empty(), retries: 0 },
            )
            &&& refusals.len() <= MAX_RETRIES ==> after_refusals(waiting, id, key, refusals) == Ok::<
                Option<SubscribeOpView>,
                OpErrorView<E>,
            >(
                Some(
                    SubscribeOpView {
                        id,
                        state: Some(
                            SubscribeStateView::AwaitingResponse {
                                skip_list: refusers(refusals),
                                retries: refusals.len(),
                            },
                        ),
                        ttl: op.ttl,
                    },
                ),
            )
            &&& refusals.len() > MAX_RETRIES ==> after_refusals(waiting, id, key, refusals)
                == Err::<Option<SubscribeOpView>, OpErrorView<E>>(
                OpErrorView::MaxRetriesExceeded(id, "sub"@),
            )
        }),
{
    request_goes_to_the_closest_peer(node, op, client_id);
    let waiting = awaiting(id, op.ttl);
    retries_are_bounded(waiting, id, key, Seq::empty(), 0, refusals);
    assert(Seq::<PeerKey>::empty() + refusers(refusals) =~= refusers(refusals));
}

/// One peer on the way of a request: what it answers, its operation, and the
/// request as it got there.
pub struct Hop<E> {
    pub node: Node<E>,
    pub op: SubscribeOpView,
    pub seek: SeekView,
}

/// Whether each of `hops` passed the request on to the next one.
pub open spec fn passed_along<E>(hops: Seq<Hop<E>>) -> bool {
    forall|i: int|
        0 <= i < hops.len() - 1 ==> #[trigger] passes_on(hops[i], hops[i + 1].seek)
}

/// Whether the peer at `hop` sends the request on as `next`, to whatever peer.
pub open spec fn passes_on<E>(hop: Hop<E>, next: SeekView) -> bool {
    exists|peer: PeerKey| #[trigger] sends_to(hop, next, peer)
}

/// Whether the peer at `hop` sends the request on as `next` to `peer`.
pub open spec fn sends_to<E>(hop: Hop<E>, next: SeekView, peer: PeerKey) -> bool {
    handled(
        hop.node,
        hop.op,
        SubscribeMsgView::SeekNode {
            id: hop.seek.id,
            key: hop.seek.key,
            target: hop.seek.target,
            subscriber: hop.seek.subscriber,
            skip_list: hop.seek.skip_list,
            htl: hop.seek.htl,
        },
    ).actions.contains(
        ActionView::Send {
            peer,
            msg: SubscribeMsgView::SeekNode {
                id: next.id,
                key: next.key,
                target: next.target,
                subscriber: next.subscriber,
                skip_list: next.skip_list,
                htl: next.htl,
            },
        },
    )
}

/// A request is passed on to the peer that it then names as its target.
pub proof fn request_goes_to_its_target<E>(hop: Hop<E>, next: SeekView, peer: PeerKey)
    requires
        sends_to(hop, next, peer),
    ensures
        peer == next.target.peer,
        (hop.node.closest)(hop.seek.key, seq![hop.node.own.peer]) == Some(next.target),
        next.id == hop.seek.id,
        next.key == hop.seek.key,
        next.subscriber == hop.seek.subscriber,
        next.skip_list == hop.seek.skip_list.push(hop.seek.target.peer),
        next.htl == hop.seek.htl + 1,
        next.htl <= MAX_RETRIES,
{
    let run = handled(hop.node, hop.op, hop.seek.msg());
    let sent = ActionView::Send { peer, msg: next.msg() };
    let i = choose|i: int| 0 <= i < run.actions.len() && run.actions[i] == sent;
    only_requests_are_passed_on(hop.node, hop.op, hop.seek.msg());
    assert(run.actions[i] is Send);
}

/// The peers that a request was meant for, on its way through `hops`.
pub open spec fn targets<E>(hops: Seq<Hop<E>>) -> Seq<PeerKey> {
    hops.map_values(|hop: Hop<E>| hop.seek.target.peer)
}

/// However far a request is passed along, it stays the same request for the
/// same subscriber. It counts its hops, has every peer that it was for before
/// among the peers to skip, and makes `MAX_RETRIES` hops at most.
pub proof fn hops_are_bounded<E>(hops: Seq<Hop<E>>)
    requires
        hops.len() > 0,
        passed_along(hops),
    ensures
        hops.last().seek.id == hops.first().seek.id,
        hops.last().seek.key == hops.first().seek.key,
        hops.last().seek.subscriber == hops.first().seek.subscriber,
        hops.last().seek.htl == hops.first().seek.htl + hops.len() - 1,
        hops.last().seek.skip_list == hops.first().seek.skip_list + targets(hops.drop_last()),
        hops.len() > 1 ==> hops.last().seek.htl <= MAX_RETRIES,
        hops.len() <= MAX_RETRIES + 1,
    decreases hops.len(),
{
    let before = hops.drop_last();
    if hops.len() == 1 {
        assert(hops.first().seek.skip_list + targets(before) =~= hops.first().seek.skip_list);
    } else {
        assert forall|i: int| 0 <= i < before.len() - 1 implies #[trigger] passes_on(
            before[i],
            before[i + 1].seek,
        ) by {
            assert(passes_on(hops[i], hops[i + 1].seek));
        }
        hops_are_bounded(before);
        let hop = before.last();
        let next = hops.last().seek;
        assert(passes_on(hops[hops.len() - 2], hops[hops.len() - 2 + 1].seek));
        let peer = choose|peer: PeerKey| #[trigger] sends_to(hop, next, peer);
        request_goes_to_its_target(hop, next, peer);
        assert(before.last() == hops[hops.len() - 2]);
        assert(hop.seek.skip_list.push(hop.seek.target.peer) =~= hops.first().seek.skip_list
            + targets(before));
    }
}

} // verus!
