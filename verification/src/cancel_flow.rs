//! Cancelling a payment at a connector.
use vstd::prelude::*;
use crate::api::connector_step::CallConnectorAction;

verus! {

/// Whether a request has to be built for the connector.
pub fn needs_connector_request(call_connector_action: &CallConnectorAction) -> (res: bool)
    ensures
        res == (*call_connector_action is Trigger),
{
    match call_connector_action {
        CallConnectorAction::Trigger => true,
        _ => false,
    }
}

/// The request for the connector, and whether the payment goes on. `built` is what the
/// connector's code made; it counts where [`needs_connector_request`] holds.
pub fn build_flow_specific_connector_request<R, E>(
    call_connector_action: &CallConnectorAction,
    built: Result<Option<R>, E>,
) -> (res: Result<(Option<R>, bool), E>)
    ensures
        match (*call_connector_action, built) {
            (CallConnectorAction::Trigger, Ok(request)) => res == Ok::<(Option<R>, bool), E>(
                (request, true),
            ),
            (CallConnectorAction::Trigger, Err(error)) => res == Err::<(Option<R>, bool), E>(error),
            _ => res == Ok::<(Option<R>, bool), E>((None, true)),
        },
{
    match call_connector_action {
        CallConnectorAction::Trigger => match built {
            Ok(request) => Ok((request, true)),
            Err(error) => Err(error),
        },
        _ => Ok((None, true)),
    }
}

} // verus!
