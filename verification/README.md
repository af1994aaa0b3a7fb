# subscribe_op

The subscribe operation of a peer-to-peer contract network, as a state machine
that is verified with Verus.

A peer that wants to follow the changes of a contract asks a peer that caches
the contract to take it as a subscriber. A peer that does not cache the contract
passes the request on, a peer that has no room refuses it, and a refused request
goes to another peer. How often a request is passed on and how often it is
retried are bounded.

- `src/` takes the decisions. An operation asks the node for one action at a
  time (`step::Action`) and goes on with the node's answer (`step::Event`).
  `process` handles incoming messages and `request` makes requests; `laws` and
  `exchange` state what holds of every run and of exchanges between peers.
- `app/` runs operations on a node: it performs the actions on the node's ring,
  connections and storage, and puts messages into the form in which they travel.
- `tests/` runs exchanges between simulated nodes.
