use freenet_stdlib::prelude::{ContractInstanceId, ContractKey};
use subscribe_op::message::SubscribeMsg;
use subscribe_op::node::{Location, PeerKey, PeerKeyLocation, Transaction};

fn key(n: u8) -> ContractKey {
    ContractKey::from(ContractInstanceId::new([n; 32]))
}

fn peer(n: u8) -> PeerKeyLocation {
    PeerKeyLocation {
        peer: PeerKey { bytes: [n; 32] },
        location: Some(Location {
            bits: 0.5f64.to_bits(),
        }),
    }
}

fn id(n: u128) -> Transaction {
    Transaction { id: n }
}

fn all_kinds() -> Vec<SubscribeMsg> {
    vec![
        SubscribeMsg::FetchRouting {
            id: id(1),
            target: peer(2),
        },
        SubscribeMsg::RequestSub {
            id: id(1),
            key: key(9),
            target: peer(2),
        },
        SubscribeMsg::SeekNode {
            id: id(1),
            key: key(9),
            target: peer(2),
            subscriber: peer(3),
            skip_list: vec![peer(3).peer],
            htl: 4,
        },
        SubscribeMsg::ReturnSub {
            id: id(1),
            key: key(9),
            sender: peer(2),
            target: peer(3),
            subscribed: true,
        },
    ]
}

#[test]
fn every_message_has_its_transaction() {
    for msg in all_kinds() {
        assert_eq!(*msg.id(), id(1));
    }
}

#[test]
fn only_an_answer_names_its_sender() {
    let senders: Vec<Option<PeerKeyLocation>> =
        all_kinds().iter().map(|m| m.sender().copied()).collect();
    assert_eq!(senders, vec![None, None, None, Some(peer(2))]);
}

#[test]
fn messages_between_peers_name_their_target() {
    let targets: Vec<Option<PeerKeyLocation>> =
        all_kinds().iter().map(|m| m.target().copied()).collect();
    assert_eq!(targets, vec![None, None, Some(peer(2)), Some(peer(3))]);
}

#[test]
fn terminal_messages_are_those_with_a_target() {
    let terminal: Vec<bool> = all_kinds().iter().map(|m| m.terminal()).collect();
    assert_eq!(terminal, vec![false, false, true, true]);
    for msg in all_kinds() {
        assert_eq!(msg.terminal(), msg.target().is_some());
    }
}

#[test]
fn messages_are_shown_by_kind_and_transaction() {
    let shown: Vec<String> = all_kinds().iter().map(|m| m.fmt("tx-1")).collect();
    assert_eq!(
        shown,
        vec![
            "FetchRouting(id: tx-1)",
            "RequestSub(id: tx-1)",
            "SeekNode(id: tx-1)",
            "ReturnSub(id: tx-1)",
        ]
    );
}
