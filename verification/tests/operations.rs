use freenet_stdlib::prelude::{ContractCode, ContractInstanceId, ContractKey, Parameters};
use std::time::Duration;
use subscribe_op::error::{ContractError, OpError, RingError};
use subscribe_op::message::SubscribeMsg;
use subscribe_op::node::{ClientId, Location, PeerKey, PeerKeyLocation, Transaction};
use subscribe_op::op::{
    build_op_result, start_op, OpEnum, OpOutcome, OperationResult, SubscribeOp, SubscribeState,
    MAX_RETRIES,
};
use subscribe_op::process::Progress;
use subscribe_op::request::{request_subscribe, RequestProgress};
use subscribe_op::step::{Action, Event};

type Failure = &'static str;
type Outcome = Result<OperationResult, OpError<Failure>>;

const TTL: Duration = Duration::from_secs(60);

fn key(n: u8) -> ContractKey {
    ContractKey::from(ContractInstanceId::new([n; 32]))
}

fn peer(n: u8) -> PeerKeyLocation {
    PeerKeyLocation {
        peer: PeerKey { bytes: [n; 32] },
        location: Some(Location {
            bits: (n as f64 / 256.0).to_bits(),
        }),
    }
}

fn id(n: u128) -> Transaction {
    Transaction { id: n }
}

/// A node whose answers are fixed, except for the closest peer, which is the
/// first of `caching` that is not skipped.
struct SimNode {
    own: PeerKeyLocation,
    cached: bool,
    caching: Vec<PeerKeyLocation>,
    room: bool,
    delivered: Result<(), Failure>,
    log: Vec<Action>,
}

impl SimNode {
    fn new(own: u8) -> SimNode {
        SimNode {
            own: peer(own),
            cached: true,
            caching: vec![],
            room: true,
            delivered: Ok(()),
            log: vec![],
        }
    }

    fn answer(&mut self, action: Action) -> Event<Failure> {
        let event = match &action {
            Action::OwnLocation => Event::OwnLocation(self.own),
            Action::IsContractCached { .. } => Event::IsContractCached(self.cached),
            Action::ClosestCaching { skip_list, .. } => Event::ClosestCaching(
                self.caching
                    .iter()
                    .copied()
                    .find(|at| !skip_list.contains(&at.peer)),
            ),
            Action::AddSubscriber { .. } => Event::AddSubscriber(self.room),
            Action::AddSubscription { .. } => Event::AddSubscription,
            Action::Send { .. } => Event::Send(self.delivered),
            Action::NotifyOpChange { .. } => Event::NotifyOpChange(self.delivered),
        };
        assert!(event.answers(&action));
        self.log.push(action);
        event
    }

    fn handle(&mut self, op: SubscribeOp, msg: SubscribeMsg) -> Outcome {
        let mut progress = op.process_message(msg, None);
        loop {
            match progress {
                Progress::Perform { action, pending } => {
                    let event = self.answer(action);
                    progress = pending.resume(event);
                }
                Progress::Done(result) => return result,
            }
        }
    }

    fn request(
        &mut self,
        op: SubscribeOp,
        client_id: Option<ClientId>,
    ) -> Result<(), OpError<Failure>> {
        let mut progress = request_subscribe(op, client_id);
        loop {
            match progress {
                RequestProgress::Perform { action, pending } => {
                    let event = self.answer(action);
                    progress = pending.resume(event);
                }
                RequestProgress::Done(result) => return result,
            }
        }
    }
}

fn op_in(state: Option<SubscribeState>) -> SubscribeOp {
    SubscribeOp {
        id: id(7),
        state,
        ttl: TTL,
    }
}

fn received() -> SubscribeOp {
    op_in(Some(SubscribeState::ReceivedRequest))
}

fn awaiting(skip: &[u8], retries: usize) -> SubscribeOp {
    op_in(Some(SubscribeState::AwaitingResponse {
        skip_list: skip.iter().map(|n| peer(*n).peer).collect(),
        retries,
    }))
}

fn seek(skip: &[u8], htl: usize) -> SubscribeMsg {
    SubscribeMsg::SeekNode {
        id: id(7),
        key: key(1),
        target: peer(2),
        subscriber: peer(3),
        skip_list: skip.iter().map(|n| peer(*n).peer).collect(),
        htl,
    }
}

fn answer(sender: u8, subscribed: bool) -> SubscribeMsg {
    SubscribeMsg::ReturnSub {
        id: id(7),
        key: key(1),
        sender: peer(sender),
        target: peer(3),
        subscribed,
    }
}

#[test]
fn started_operation_prepares_a_request() {
    let op = start_op(key(1), id(7), TTL);
    assert_eq!(*op.id(), id(7));
    assert_eq!(op.ttl, TTL);
    assert_eq!(
        op.state,
        Some(SubscribeState::PrepareRequest {
            id: id(7),
            key: key(1)
        })
    );
    assert!(!op.finalized());
}

#[test]
fn only_a_completed_operation_is_finalized() {
    assert!(op_in(Some(SubscribeState::Completed)).finalized());
    assert!(!op_in(None).finalized());
    assert!(!received().finalized());
    assert!(!awaiting(&[], 0).finalized());
}

#[test]
fn outcome_and_transfers_are_irrelevant() {
    let mut op = awaiting(&[4], 1);
    assert_eq!(op.outcome(), OpOutcome::Irrelevant);
    op.record_transfer();
    assert_eq!(op, awaiting(&[4], 1));
}

#[test]
fn stored_operation_is_loaded() {
    let stored = Some(OpEnum::Subscribe(awaiting(&[4], 1)));
    let init =
        SubscribeOp::load_or_init::<Failure>(stored, &answer(5, true), Duration::ZERO).unwrap();
    assert_eq!(init.op, awaiting(&[4], 1));
    assert_eq!(init.sender, Some(peer(5).peer));
}

#[test]
fn operation_of_another_kind_is_not_present() {
    assert_eq!(
        SubscribeOp::load_or_init::<Failure>(Some(OpEnum::Other), &seek(&[], 0), TTL),
        Err(OpError::OpNotPresent(id(7)))
    );
}

#[test]
fn new_request_opens_an_operation() {
    let init = SubscribeOp::load_or_init::<Failure>(None, &seek(&[], 0), TTL).unwrap();
    assert_eq!(init.op, received());
    assert_eq!(init.sender, None);
}

#[test]
fn result_keeps_an_operation_without_state() {
    let res: Outcome = build_op_result(id(7), None, None, TTL);
    assert_eq!(
        res,
        Ok(OperationResult {
            return_msg: None,
            state: Some(op_in(None))
        })
    );
}

#[test]
fn subscription_between_two_nodes_succeeds() {
    let mut subscriber = SimNode::new(3);
    let mut provider = SimNode::new(2);
    subscriber.caching = vec![peer(2)];
    let client = Some(ClientId { id: 11 });

    assert_eq!(
        subscriber.request(start_op(key(1), id(7), TTL), client),
        Ok(())
    );
    let (msg, op) = match subscriber.log.pop() {
        Some(Action::NotifyOpChange { msg, op, client_id }) => {
            assert_eq!(client_id, client);
            (msg, op)
        }
        other => panic!("unexpected action {:?}", other),
    };
    assert_eq!(op, awaiting(&[], 0));

    let sent = subscriber.handle(op, msg).unwrap();
    let msg = sent.return_msg.unwrap();
    assert_eq!(msg, seek(&[3], 0));
    let op = sent.state.unwrap();
    assert_eq!(op, awaiting(&[], 0));

    let init = SubscribeOp::load_or_init::<Failure>(None, &msg, TTL).unwrap();
    let served = provider.handle(init.op, msg).unwrap();
    assert_eq!(
        provider.log,
        vec![
            Action::OwnLocation,
            Action::IsContractCached { key: key(1) },
            Action::AddSubscriber {
                key: key(1),
                subscriber: peer(3)
            },
        ]
    );
    assert!(served.state.unwrap().finalized());
    let msg = served.return_msg.unwrap();
    assert_eq!(msg, answer(2, true));

    subscriber.log.clear();
    let init =
        SubscribeOp::load_or_init::<Failure>(Some(OpEnum::Subscribe(op)), &msg, TTL).unwrap();
    assert_eq!(init.sender, Some(peer(2).peer));
    let done = subscriber.handle(init.op, msg).unwrap();
    assert_eq!(
        done,
        OperationResult {
            return_msg: None,
            state: Some(op_in(None))
        }
    );
    assert_eq!(
        subscriber.log,
        vec![Action::AddSubscription { key: key(1) }]
    );
}

#[test]
fn full_key_is_carried_along() {
    let code = ContractCode::from(vec![1, 2, 3]);
    let parameters = Parameters::from(vec![4, 5]);
    let full = ContractKey::from((&parameters, &code));
    assert!(full.code_hash().is_some());

    let mut node = SimNode::new(3);
    node.caching = vec![peer(2)];
    node.request(start_op(full.clone(), id(7), TTL), None)
        .unwrap();
    assert_eq!(node.log.len(), 3);
    for action in node.log {
        let carried = match action {
            Action::IsContractCached { key } => key,
            Action::ClosestCaching { key, .. } => key,
            Action::NotifyOpChange {
                msg: SubscribeMsg::RequestSub { key, .. },
                ..
            } => key,
            other => panic!("unexpected action {:?}", other),
        };
        assert_eq!(carried.bytes(), full.bytes());
        assert_eq!(carried.code_hash(), full.code_hash());
    }
}

#[test]
fn request_for_an_unknown_contract_fails() {
    let mut node = SimNode::new(3);
    node.cached = false;
    assert_eq!(
        node.request(start_op(key(1), id(7), TTL), None),
        Err(OpError::ContractError(ContractError::ContractNotFound(
            key(1)
        )))
    );
    assert_eq!(node.log, vec![Action::IsContractCached { key: key(1) }]);
}

#[test]
fn request_on_an_empty_ring_fails() {
    let mut node = SimNode::new(3);
    assert_eq!(
        node.request(start_op(key(1), id(7), TTL), None),
        Err(OpError::RingError(RingError::EmptyRing))
    );
    assert_eq!(
        node.log[1],
        Action::ClosestCaching {
            key: key(1),
            skip_list: vec![]
        }
    );
}

#[test]
fn request_fails_with_its_notification() {
    let mut node = SimNode::new(3);
    node.caching = vec![peer(2)];
    node.delivered = Err("channel closed");
    assert_eq!(
        node.request(start_op(key(1), id(7), TTL), None),
        Err(OpError::External("channel closed"))
    );
}

#[test]
fn only_a_prepared_request_is_made() {
    for op in [received(), awaiting(&[], 0), op_in(None)] {
        let mut node = SimNode::new(3);
        assert_eq!(node.request(op, None), Err(OpError::UnexpectedOpState));
        assert_eq!(node.log, vec![]);
    }
}

#[test]
fn full_provider_refuses_and_is_skipped() {
    let mut provider = SimNode::new(2);
    provider.room = false;
    let refused = provider.handle(received(), seek(&[3], 0)).unwrap();
    assert_eq!(
        refused,
        OperationResult {
            return_msg: Some(answer(2, false)),
            state: None
        }
    );

    let mut subscriber = SimNode::new(3);
    subscriber.caching = vec![peer(2), peer(5)];
    let retried = subscriber
        .handle(awaiting(&[4], 1), refused.return_msg.unwrap())
        .unwrap();
    assert_eq!(
        subscriber.log,
        vec![
            Action::ClosestCaching {
                key: key(1),
                skip_list: vec![peer(4).peer, peer(2).peer]
            },
            Action::OwnLocation,
        ]
    );
    assert_eq!(
        retried,
        OperationResult {
            return_msg: Some(SubscribeMsg::SeekNode {
                id: id(7),
                key: key(1),
                target: peer(5),
                subscriber: peer(3),
                skip_list: vec![peer(5).peer],
                htl: 0,
            }),
            state: Some(awaiting(&[4, 2], 2)),
        }
    );
}

#[test]
fn later_request_is_refused_and_served_alike() {
    let mut full = SimNode::new(2);
    full.room = false;
    let res = full
        .handle(op_in(Some(SubscribeState::Completed)), seek(&[2, 8], 6))
        .unwrap();
    assert_eq!(
        res,
        OperationResult {
            return_msg: Some(answer(2, false)),
            state: None
        }
    );

    let mut provider = SimNode::new(2);
    let res = provider.handle(received(), seek(&[2, 8], 6)).unwrap();
    assert_eq!(res.return_msg, Some(answer(2, true)));
    let mut subscriber = SimNode::new(3);
    let done = subscriber
        .handle(awaiting(&[4, 5], 2), res.return_msg.unwrap())
        .unwrap();
    assert_eq!(done.state, Some(op_in(None)));
}

#[test]
fn retries_use_up_a_finite_ring() {
    let mut node = SimNode::new(3);
    node.caching = vec![peer(4), peer(5)];
    let op = node
        .handle(awaiting(&[], 0), answer(4, false))
        .unwrap()
        .state
        .unwrap();
    assert_eq!(op, awaiting(&[4], 1));
    assert_eq!(
        node.handle(op, answer(5, false)),
        Err(OpError::RingError(RingError::NoCachingPeers(key(1))))
    );
}

#[test]
fn no_action_is_asked_for_twice() {
    let mut node = SimNode::new(2);
    node.cached = false;
    node.caching = vec![peer(6)];
    node.handle(received(), seek(&[3], 0)).unwrap();
    assert_eq!(node.log.len(), 4);
    for i in 0..node.log.len() {
        for j in 0..i {
            assert_ne!(node.log[i], node.log[j]);
        }
    }
}

#[test]
fn retries_are_bounded() {
    let mut node = SimNode::new(3);
    node.caching = (100..120).map(peer).collect();
    let mut op = awaiting(&[], 0);
    for n in 0..MAX_RETRIES {
        let res = node.handle(op, answer(20 + n as u8, false)).unwrap();
        op = res.state.unwrap();
    }
    let refusers: Vec<u8> = (20..30).collect();
    assert_eq!(op, awaiting(&refusers, 10));
    node.log.clear();
    assert_eq!(
        node.handle(op, answer(30, false)),
        Err(OpError::MaxRetriesExceeded(id(7), "sub".to_string()))
    );
    assert_eq!(node.log, vec![]);
}

#[test]
fn retry_needs_another_caching_peer() {
    let mut node = SimNode::new(3);
    node.caching = vec![peer(2)];
    assert_eq!(
        node.handle(awaiting(&[], 0), answer(2, false)),
        Err(OpError::RingError(RingError::NoCachingPeers(key(1))))
    );
}

#[test]
fn stray_answers_are_errors() {
    for op in [
        start_op(key(1), id(7), TTL),
        received(),
        op_in(Some(SubscribeState::Completed)),
        op_in(None),
    ] {
        let mut node = SimNode::new(3);
        assert_eq!(
            node.handle(op, answer(2, false)),
            Err(OpError::InvalidStateTransition(id(7)))
        );
        assert_eq!(node.log, vec![]);
    }
    for op in [received(), op_in(None)] {
        let mut node = SimNode::new(3);
        assert_eq!(
            node.handle(op, answer(2, true)),
            Err(OpError::InvalidStateTransition(id(7)))
        );
        // the subscription is noted nevertheless
        assert_eq!(node.log, vec![Action::AddSubscription { key: key(1) }]);
    }
}

#[test]
fn missing_contract_is_passed_on() {
    let mut node = SimNode::new(2);
    node.cached = false;
    node.caching = vec![peer(2), peer(6)];
    let res = node.handle(received(), seek(&[3], 9)).unwrap();
    assert_eq!(
        node.log,
        vec![
            Action::OwnLocation,
            Action::IsContractCached { key: key(1) },
            Action::ClosestCaching {
                key: key(1),
                skip_list: vec![peer(2).peer]
            },
            Action::Send {
                peer: peer(6).peer,
                msg: SubscribeMsg::SeekNode {
                    id: id(7),
                    key: key(1),
                    target: peer(6),
                    subscriber: peer(3),
                    skip_list: vec![peer(3).peer, peer(2).peer],
                    htl: 10,
                },
            },
        ]
    );
    assert_eq!(res.return_msg, Some(answer(2, true)));
    assert!(res.state.unwrap().finalized());
}

#[test]
fn hops_are_bounded() {
    let mut node = SimNode::new(2);
    node.cached = false;
    node.caching = vec![peer(6)];
    let res = node.handle(received(), seek(&[3], MAX_RETRIES)).unwrap();
    assert_eq!(
        res,
        OperationResult {
            return_msg: Some(answer(2, false)),
            state: None
        }
    );
    assert_eq!(node.log.len(), 3);
}

#[test]
fn request_is_passed_along_until_the_limit() {
    let mut msg = seek(&[3], 0);
    let mut hops = 0;
    loop {
        let mut node = SimNode::new(2);
        node.cached = false;
        node.caching = vec![peer(50 + hops as u8)];
        node.handle(received(), msg).unwrap();
        match node.log.pop() {
            Some(Action::Send { msg: sent, .. }) => {
                hops += 1;
                msg = sent;
            }
            _ => break,
        }
        if let SubscribeMsg::SeekNode { htl, skip_list, .. } = &msg {
            assert_eq!(*htl, hops);
            assert_eq!(skip_list.len(), hops + 1);
        }
    }
    assert_eq!(hops, 10);
}

#[test]
fn missing_contract_without_caching_peers_fails() {
    let mut node = SimNode::new(2);
    node.cached = false;
    assert_eq!(
        node.handle(received(), seek(&[3], 0)),
        Err(OpError::RingError(RingError::NoCachingPeers(key(1))))
    );
}

#[test]
fn undelivered_request_fails_with_its_connection() {
    let mut node = SimNode::new(2);
    node.cached = false;
    node.caching = vec![peer(6)];
    node.delivered = Err("connection reset");
    assert_eq!(
        node.handle(received(), seek(&[3], 0)),
        Err(OpError::External("connection reset"))
    );
}

#[test]
fn request_is_confirmed_once() {
    let mut node = SimNode::new(2);
    let first = node.handle(received(), seek(&[3], 0)).unwrap();
    assert_eq!(first.return_msg, Some(answer(2, true)));
    node.log.clear();
    assert_eq!(
        node.handle(first.state.unwrap(), seek(&[3], 0)),
        Err(OpError::InvalidStateTransition(id(7)))
    );
    // the subscriber is taken before the state is looked at
    assert_eq!(node.log.len(), 3);
}

#[test]
fn routing_is_not_handled() {
    let mut node = SimNode::new(2);
    let msg = SubscribeMsg::FetchRouting {
        id: id(7),
        target: peer(2),
    };
    assert_eq!(
        node.handle(received(), msg),
        Err(OpError::UnexpectedOpState)
    );
    assert_eq!(node.log, vec![]);
}

#[test]
fn events_answer_their_own_actions_only() {
    let asked = Action::IsContractCached { key: key(1) };
    assert!(Event::<Failure>::IsContractCached(false).answers(&asked));
    assert!(!Event::<Failure>::AddSubscriber(false).answers(&asked));
    assert!(!Event::<Failure>::OwnLocation(peer(1)).answers(&asked));
}
