//! That a value and its view say the same: a view keeps the kind of a value and
//! each of its fields, and takes only lists and texts as sequences.
use crate::error::{OpError, OpErrorView};
use crate::message::{SubscribeMsg, SubscribeMsgView};
use crate::op::{
    result_view, OpInitialization, OpInitializationView, OperationResult, SubscribeOp,
    SubscribeState, SubscribeStateView,
};
use crate::process::{Progress, ProgressView};
use crate::request::{RequestProgress, RequestProgressView};
use crate::step::{Action, ActionView};
use vstd::prelude::*;

verus! {

/// The view of a message says what the message says.
pub proof fn message_and_view_agree(msg: SubscribeMsg)
    ensures
        match msg {
            SubscribeMsg::FetchRouting { id, target } => msg@ == (SubscribeMsgView::FetchRouting {
                id,
                target,
            }),
            SubscribeMsg::RequestSub { id, key, target } => msg@ == (SubscribeMsgView::RequestSub {
                id,
                key,
                target,
            }),
            SubscribeMsg::SeekNode { id, key, target, subscriber, skip_list, htl } => msg@ == (
            SubscribeMsgView::SeekNode {
                id,
                key,
                target,
                subscriber,
                skip_list: skip_list@,
                htl: htl as nat,
            }),
            SubscribeMsg::ReturnSub { id, key, sender, target, subscribed } => msg@ == (
            SubscribeMsgView::ReturnSub { id, key, sender, target, subscribed }),
        },
{
}

/// The view of an operation says what the operation says.
pub proof fn operation_and_view_agree(op: SubscribeOp)
    ensures
        op@.id == op.id,
        op@.ttl == op.ttl,
        match op.state {
            None => op@.state is None,
            Some(SubscribeState::PrepareRequest { id, key }) => op@.state == Some(
                SubscribeStateView::PrepareRequest { id, key },
            ),
            Some(SubscribeState::ReceivedRequest) => op@.state == Some(
                SubscribeStateView::ReceivedRequest,
            ),
            Some(SubscribeState::AwaitingResponse { skip_list, retries }) => op@.state == Some(
                SubscribeStateView::AwaitingResponse {
                    skip_list: skip_list@,
                    retries: retries as nat,
                },
            ),
            Some(SubscribeState::Completed) => op@.state == Some(SubscribeStateView::Completed),
        },
{
}

/// The view of an operation that was picked up says what was picked up.
pub proof fn initialization_and_view_agree(init: OpInitialization)
    ensures
        init@ == (OpInitializationView { op: init.op@, sender: init.sender }),
{
}

/// The view of a result says which message answers and which operation is
/// stored, if any.
pub proof fn result_and_view_agree(res: OperationResult)
    ensures
        match res.return_msg {
            None => res@.return_msg is None,
            Some(msg) => res@.return_msg == Some(msg@),
        },
        match res.state {
            None => res@.state is None,
            Some(op) => res@.state == Some(op@),
        },
{
}

/// The view of an error says what the error says.
pub proof fn error_and_view_agree<E>(error: OpError<E>)
    ensures
        match error {
            OpError::RingError(e) => error@ == OpErrorView::<E>::RingError(e),
            OpError::ContractError(e) => error@ == OpErrorView::<E>::ContractError(e),
            OpError::UnexpectedOpState => error@ == OpErrorView::<E>::UnexpectedOpState,
            OpError::InvalidStateTransition(id) => error@
                == OpErrorView::<E>::InvalidStateTransition(id),
            OpError::OpNotPresent(id) => error@ == OpErrorView::<E>::OpNotPresent(id),
            OpError::MaxRetriesExceeded(id, op) => error@ == OpErrorView::<
                E,
            >::MaxRetriesExceeded(id, op@),
            OpError::External(e) => error@ == OpErrorView::External(e),
        },
{
}

/// The view of an action says what the action says.
pub proof fn action_and_view_agree(action: Action)
    ensures
        match action {
            Action::OwnLocation => action@ == ActionView::OwnLocation,
            Action::IsContractCached { key } => action@ == (ActionView::IsContractCached { key }),
            Action::ClosestCaching { key, skip_list } => action@ == (ActionView::ClosestCaching {
                key,
                skip_list: skip_list@,
            }),
            Action::AddSubscriber { key, subscriber } => action@ == (ActionView::AddSubscriber {
                key,
                subscriber,
            }),
            Action::AddSubscription { key } => action@ == (ActionView::AddSubscription { key }),
            Action::Send { peer, msg } => action@ == (ActionView::Send { peer, msg: msg@ }),
            Action::NotifyOpChange { msg, op, client_id } => action@ == (
            ActionView::NotifyOpChange { msg: msg@, op: op@, client_id }),
        },
{
}

/// The view of the progress of a message says what is to be done next, or what
/// came of the message.
pub proof fn progress_and_view_agree<E>(progress: Progress<E>)
    ensures
        match progress {
            Progress::Perform { action, pending } => progress@ == (ProgressView::<E>::Perform {
                action: action@,
                pending: pending@,
            }),
            Progress::Done(Ok(res)) => progress@ == ProgressView::<E>::Done(Ok(res@)),
            Progress::Done(Err(e)) => progress@ == ProgressView::<E>::Done(Err(e@)),
        },
{
}

/// The view of the progress of a request says what is to be done next, or what
/// came of the request.
pub proof fn request_progress_and_view_agree<E>(progress: RequestProgress<E>)
    ensures
        match progress {
            RequestProgress::Perform { action, pending } => progress@ == (RequestProgressView::<
                E,
            >::Perform { action: action@, pending }),
            RequestProgress::Done(Ok(_)) => progress@ == RequestProgressView::<E>::Done(Ok(())),
            RequestProgress::Done(Err(e)) => progress@ == RequestProgressView::<E>::Done(Err(e@)),
        },
{
}

/// A result is taken by the view of the side that it has.
pub proof fn either_side_and_view_agree<T: View, F: View>(value: T, error: F)
    ensures
        result_view(Ok::<T, F>(value)) == Ok::<T::V, F::V>(value@),
        result_view(Err::<T, F>(error)) == Err::<T::V, F::V>(error@),
{
}

} // verus!
