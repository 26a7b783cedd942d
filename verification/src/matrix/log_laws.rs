//! What the log says of tasks, and of which it says nothing.

use super::identifiers::room_alias_of;
use super::protocol::StopReason;
use super::task_log::explanation;
use super::tasks::Task;
use vstd::prelude::*;

verus! {

/// The log is silent about tasks that did their work or were overtaken, and about histories and
/// leaves that found no client or no room.
pub proof fn lemma_log_is_silent(task: Task, reason: StopReason, r: Option<String>)
    requires
        call_ensures(explanation, (&task, reason), r),
    ensures
        reason is Finished || reason is Superseded || reason is NothingToAnswer || reason is
            Unexpected ==> r is None,
        (task is History || task is Leave) && (reason is NoClient || reason is InvalidRoomId
            || reason is RoomNotFound) ==> r is None,
{
}

/// Where something that was typed or clicked is wrong or not there, the log says what it was.
pub proof fn lemma_log_names_what_is_wrong(task: Task, reason: StopReason, r: Option<String>)
    requires
        call_ensures(explanation, (&task, reason), r),
    ensures
        reason is InvalidUserId ==> (task matches Task::DirectChat { user_id } ==> (r matches Some(
            text,
        ) && text@ == "Invalid User ID: "@ + user_id@)),
        reason is InvalidRoomAlias ==> (task matches Task::Join { input } ==> (r matches Some(text)
            && text@ == "Invalid Room ID or Alias: "@ + room_alias_of(input@))),
        reason is EmptyRoomAlias ==> (r matches Some(text) && text@
            == "Invalid Room ID or Alias: empty input"@),
        reason is InvalidRoomId ==> (task matches Task::SendText { room_id, .. } ==> (
        r matches Some(text) && text@ == "Invalid Room ID: "@ + room_id@)),
        reason is InvalidRoomId ==> (task matches Task::SendFile { room_id, .. } ==> (
        r matches Some(text) && text@ == "Invalid Room ID: "@ + room_id@)),
        reason is RoomNotFound ==> (task matches Task::SendText { room_id, .. } ==> (
        r matches Some(text) && text@ == "Room not found for send: "@ + room_id@)),
        reason is RoomNotFound ==> (task matches Task::SendFile { room_id, .. } ==> (
        r matches Some(text) && text@ == "Room not found for attachment send: "@ + room_id@)),
{
}

/// What is said of a verification says whether the user confirmed or rejected it, and which it was.
pub proof fn lemma_log_of_verifications(task: Task, reason: StopReason, r: Option<String>)
    requires
        call_ensures(explanation, (&task, reason), r),
    ensures
        task matches Task::Respond { user_id, flow_id, confirm } ==> {
            let doing = if confirm {
                "confirming"@
            } else {
                "rejecting"@
            };
            &&& reason is NoClient ==> (r matches Some(text) && text@
                == "Client not initialized while "@ + doing + " verification challenge"@)
            &&& reason is InvalidUserId ==> (r matches Some(text) && text@
                == "Invalid user ID while "@ + doing + " verification challenge: "@ + user_id@)
            &&& reason is FlowNotFound ==> (r matches Some(text) && text@
                == "Verification flow not found while "@ + doing + " challenge: "@ + flow_id@)
        },
        task is VerifySession && reason is NoClient ==> (r matches Some(text) && text@
            == "Client not initialized while verifying session"@),
        (task is SendText || task is SendFile || task is NewRoom || task is DirectChat || task is
            Search || task is Join) && reason is NoClient ==> (r matches Some(text) && text@
            == "Client not initialized"@),
        reason is NotLoggedIn ==> (r matches Some(text) && text@
            == "Cannot verify device: Matrix client is not logged in"@),
        reason is NoUserId ==> (r matches Some(text) && text@
            == "Cannot verify session: the Matrix user ID is not available."@),
        reason is NoDeviceId ==> (r matches Some(text) && text@
            == "Cannot verify session: the Matrix device ID is not available."@),
        reason is NoOtherDevice ==> (r matches Some(text) && text@
            == "No other Matrix device is available for verification. Open an existing trusted client/session and complete the verification there; Avernus will not send self-verification requests."@),
{
}

} // verus!
