//! The reply that an operation hands back to the host.

use cosmwasm_std::{Empty, Response};
use vstd::prelude::*;

verus! {

/// The host's reply type, carried through unread.
#[verifier::external_type_specification]
#[verifier::external_body]
#[verifier::reject_recursive_types(T)]
pub struct ExResponse<T>(Response<T>);

/// The host's placeholder for "no custom message".
#[verifier::external_type_specification]
#[verifier::external_body]
pub struct ExEmpty(Empty);

/// The attributes of a reply, as pairs of key and value in the order in
/// which they were added.
pub uninterp spec fn response_attributes(response: Response) -> Seq<(Seq<char>, Seq<char>)>;

/// The number of messages that a reply asks the host to dispatch.
pub uninterp spec fn response_message_count(response: Response) -> nat;

/// The number of events of their own that a reply raises.
pub uninterp spec fn response_event_count(response: Response) -> nat;

/// The payload of a reply, if it carries one.
pub uninterp spec fn response_data(response: Response) -> Option<Seq<u8>>;

/// Calls `Response::new`, which builds a reply with no attribute, no
/// message, no event and no payload.
#[verifier::external_body]
pub(crate) fn empty_response() -> (response: Response)
    ensures
        response_attributes(response) == Seq::<(Seq<char>, Seq<char>)>::empty(),
        response_message_count(response) == 0,
        response_event_count(response) == 0,
        response_data(response) == None::<Seq<u8>>,
{
    Response::new()
}

/// Calls `Response::add_attribute`, which appends one attribute and leaves
/// the rest of the reply as it is. The host reserves keys that begin with an
/// underscore and panics on them in debug builds, so they are left out.
#[verifier::external_body]
pub(crate) fn with_attribute(response: Response, key: &str, value: &str) -> (extended: Response)
    requires
        key@.len() == 0 || key@[0] != '_',
    ensures
        response_attributes(extended) == response_attributes(response).push((key@, value@)),
        response_message_count(extended) == response_message_count(response),
        response_event_count(extended) == response_event_count(response),
        response_data(extended) == response_data(response),
{
    response.add_attribute(key, value)
}

/// `response` carries exactly `attributes`, and neither a message, nor an
/// event, nor a payload.
pub open spec fn carries_only(response: Response, attributes: Seq<(Seq<char>, Seq<char>)>) -> bool {
    &&& response_attributes(response) == attributes
    &&& response_message_count(response) == 0
    &&& response_event_count(response) == 0
    &&& response_data(response) == None::<Seq<u8>>
}

/// `response` is the reply of an operation that reports `value` under the
/// key `"action"`, and nothing else.
pub open spec fn is_action_response(response: Response, value: Seq<char>) -> bool {
    carries_only(response, seq![("action"@, value)])
}

/// Builds the reply that reports `value` under the key `"action"`.
pub fn action_response(value: &str) -> (response: Response)
    ensures
        is_action_response(response, value@),
{
    proof {
        reveal_strlit("action");
    }
    let response = with_attribute(empty_response(), "action", value);
    response
}

} // verus!
