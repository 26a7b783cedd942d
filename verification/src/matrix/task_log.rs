//! What the log says of tasks that end early.

use super::identifiers::{normalize_room_alias, room_alias_of};
use super::protocol::StopReason;
use super::tasks::{Task, TaskView};
use crate::text::joined;
use vstd::prelude::*;

verus! {

/// What the user was doing with a verification.
pub open spec fn doing(confirm: bool) -> Seq<char> {
    if confirm {
        "confirming"@
    } else {
        "rejecting"@
    }
}

/// What the log says of a task that found no client.
pub open spec fn no_client_text(task: TaskView) -> Option<Seq<char>> {
    match task {
        TaskView::History { .. } | TaskView::Leave { .. } => None,
        TaskView::Respond { confirm, .. } => Some(
            "Client not initialized while "@ + doing(confirm) + " verification challenge"@,
        ),
        TaskView::VerifySession => Some("Client not initialized while verifying session"@),
        _ => Some("Client not initialized"@),
    }
}

/// What the log says of `task`, which ends for `reason`, if anything.
pub open spec fn explained(task: TaskView, reason: StopReason) -> Option<Seq<char>> {
    match reason {
        StopReason::NoClient => no_client_text(task),
        StopReason::InvalidUserId => match task {
            TaskView::DirectChat { user_id } => Some("Invalid User ID: "@ + user_id),
            TaskView::Respond { user_id, confirm, .. } => Some(
                "Invalid user ID while "@ + doing(confirm) + " verification challenge: "@ + user_id,
            ),
            _ => None,
        },
        StopReason::EmptyRoomAlias => Some("Invalid Room ID or Alias: empty input"@),
        StopReason::InvalidRoomAlias => match task {
            TaskView::Join { input } => Some("Invalid Room ID or Alias: "@ + room_alias_of(input)),
            _ => None,
        },
        StopReason::InvalidRoomId => match task {
            TaskView::SendText { room_id, .. } => Some("Invalid Room ID: "@ + room_id),
            TaskView::SendFile { room_id, .. } => Some("Invalid Room ID: "@ + room_id),
            _ => None,
        },
        StopReason::RoomNotFound => match task {
            TaskView::SendText { room_id, .. } => Some("Room not found for send: "@ + room_id),
            TaskView::SendFile { room_id, .. } => Some(
                "Room not found for attachment send: "@ + room_id,
            ),
            _ => None,
        },
        StopReason::FlowNotFound => match task {
            TaskView::Respond { flow_id, confirm, .. } => Some(
                "Verification flow not found while "@ + doing(confirm) + " challenge: "@ + flow_id,
            ),
            _ => None,
        },
        StopReason::NotLoggedIn => Some("Cannot verify device: Matrix client is not logged in"@),
        StopReason::NoUserId => Some(
            "Cannot verify session: the Matrix user ID is not available."@,
        ),
        StopReason::NoDeviceId => Some(
            "Cannot verify session: the Matrix device ID is not available."@,
        ),
        StopReason::NoOtherDevice => Some(
            "No other Matrix device is available for verification. Open an existing trusted client/session and complete the verification there; Avernus will not send self-verification requests."@,
        ),
        _ => None,
    }
}

fn doing_text(confirm: bool) -> (r: &'static str)
    ensures
        r@ == doing(confirm),
{
    if confirm {
        "confirming"
    } else {
        "rejecting"
    }
}

fn while_doing(head: &str, confirm: bool, tail: &str) -> (r: String)
    ensures
        r@ == head@ + doing(confirm) + tail@,
{
    joined(joined(head, doing_text(confirm)).as_str(), tail)
}

fn explain_no_client(task: &Task) -> (r: Option<String>)
    ensures
        r.deep_view() == no_client_text(task@),
{
    match task {
        Task::History { .. } => None,
        Task::Leave { .. } => None,
        Task::Respond { confirm, .. } => Some(
            while_doing("Client not initialized while ", *confirm, " verification challenge"),
        ),
        Task::VerifySession => Some("Client not initialized while verifying session".to_owned()),
        _ => Some("Client not initialized".to_owned()),
    }
}

/// What the log says of `task`, which ends for `reason`, if anything.
pub fn explanation(task: &Task, reason: StopReason) -> (r: Option<String>)
    ensures
        r.deep_view() == explained(task@, reason),
{
    match reason {
        StopReason::NoClient => explain_no_client(task),
        StopReason::InvalidUserId => match task {
            Task::DirectChat { user_id } => Some(joined("Invalid User ID: ", user_id.as_str())),
            Task::Respond { user_id, confirm, .. } => {
                let head = while_doing(
                    "Invalid user ID while ",
                    *confirm,
                    " verification challenge: ",
                );
                Some(joined(head.as_str(), user_id.as_str()))
            },
            _ => None,
        },
        StopReason::EmptyRoomAlias => Some("Invalid Room ID or Alias: empty input".to_owned()),
        StopReason::InvalidRoomAlias => match task {
            Task::Join { input } => {
                let alias = normalize_room_alias(input.as_str());
                Some(joined("Invalid Room ID or Alias: ", alias.as_str()))
            },
            _ => None,
        },
        StopReason::InvalidRoomId => match task {
            Task::SendText { room_id, .. } => Some(joined("Invalid Room ID: ", room_id.as_str())),
            Task::SendFile { room_id, .. } => Some(joined("Invalid Room ID: ", room_id.as_str())),
            _ => None,
        },
        StopReason::RoomNotFound => match task {
            Task::SendText { room_id, .. } => Some(
                joined("Room not found for send: ", room_id.as_str()),
            ),
            Task::SendFile { room_id, .. } => Some(
                joined("Room not found for attachment send: ", room_id.as_str()),
            ),
            _ => None,
        },
        StopReason::FlowNotFound => match task {
            Task::Respond { flow_id, confirm, .. } => {
                let head = while_doing(
                    "Verification flow not found while ",
                    *confirm,
                    " challenge: ",
                );
                Some(joined(head.as_str(), flow_id.as_str()))
            },
            _ => None,
        },
        StopReason::NotLoggedIn => Some(
            "Cannot verify device: Matrix client is not logged in".to_owned(),
        ),
        StopReason::NoUserId => Some(
            "Cannot verify session: the Matrix user ID is not available.".to_owned(),
        ),
        StopReason::NoDeviceId => Some(
            "Cannot verify session: the Matrix device ID is not available.".to_owned(),
        ),
        StopReason::NoOtherDevice => Some(
            "No other Matrix device is available for verification. Open an existing trusted client/session and complete the verification there; Avernus will not send self-verification requests.".to_owned(),
        ),
        _ => None,
    }
}

} // verus!
