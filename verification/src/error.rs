//! Why an operation fails.
use crate::node::Transaction;
use freenet_stdlib::prelude::ContractKey;
use vstd::prelude::*;

verus! {

#[derive(Debug, PartialEq, Eq)]
pub enum RingError {
    /// The ring knows no peer to turn to.
    EmptyRing,
    /// No peer that caches the contract is left to try.
    NoCachingPeers(ContractKey),
}

#[derive(Debug, PartialEq, Eq)]
pub enum ContractError {
    ContractNotFound(ContractKey),
}

/// `E` is what the node's connections and channels fail with.
#[derive(Debug, PartialEq, Eq)]
pub enum OpError<E> {
    RingError(RingError),
    ContractError(ContractError),
    /// The message or the operation is not one that is handled here.
    UnexpectedOpState,
    /// The operation is in no state to handle the message.
    InvalidStateTransition(Transaction),
    /// The transaction belongs to an operation of another kind.
    OpNotPresent(Transaction),
    /// The transaction, and the short name of its kind of operation.
    MaxRetriesExceeded(Transaction, String),
    /// A message or a notification could not be delivered.
    External(E),
}

/// An error, with its text as a sequence of characters.
#[verifier::ext_equal]
pub enum OpErrorView<E> {
    RingError(RingError),
    ContractError(ContractError),
    UnexpectedOpState,
    InvalidStateTransition(Transaction),
    OpNotPresent(Transaction),
    MaxRetriesExceeded(Transaction, Seq<char>),
    External(E),
}

impl<E> View for OpError<E> {
    type V = OpErrorView<E>;

    open spec fn view(&self) -> OpErrorView<E> {
        match *self {
            OpError::RingError(e) => OpErrorView::RingError(e),
            OpError::ContractError(e) => OpErrorView::ContractError(e),
            OpError::UnexpectedOpState => OpErrorView::UnexpectedOpState,
            OpError::InvalidStateTransition(id) => OpErrorView::InvalidStateTransition(id),
            OpError::OpNotPresent(id) => OpErrorView::OpNotPresent(id),
            OpError::MaxRetriesExceeded(id, op) => OpErrorView::MaxRetriesExceeded(id, op@),
            OpError::External(e) => OpErrorView::External(e),
        }
    }
}

} // verus!
