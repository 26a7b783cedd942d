//! What holds of every task, whatever it is answered.

use super::identifiers::{room_id_fault, room_or_alias_fault, user_id_fault};
use super::login_laws::events_of;
use super::protocol::{emits, fits, lemma_emitted, CommandView, ReplyView, StopReason};
use super::tasks::{
    first_other, task_after, task_begun, task_start, task_turn, SEARCH_LIMIT, TaskFlowView,
    TaskPhaseView, TaskView,
};
use super::types::MatrixBridgeEventView;
use crate::text::trimmed;
use vstd::prelude::*;

verus! {

/// A task keeps its generation, and every event that it reports is of that generation.
pub proof fn lemma_task_reports_its_generation(flow: TaskFlowView, reply: ReplyView)
    ensures
        task_after(flow, reply).generation == flow.generation,
        events_of(task_turn(flow, reply).steps, flow.generation),
{
}

/// Rooms of the directory are reported only right after the generation was read and was still that
/// of the task, and never more than the limit. A blank query finds none.
pub proof fn lemma_discoveries_are_current(flow: TaskFlowView, reply: ReplyView)
    requires
        task_wf(flow),
    ensures
        forall|event: MatrixBridgeEventView| #[trigger]
            emits(task_turn(flow, reply).steps, event) ==> (event matches
            MatrixBridgeEventView::PublicRoomsDiscovered { rooms, .. } ==> {
            ||| reply == (ReplyView::Generation { current: flow.generation }) && rooms.len()
                <= SEARCH_LIMIT
            ||| rooms.len() == 0 && (flow.task matches TaskView::Search { query } && trimmed(
                query,
            ).len() == 0)
        }),
{
    assert forall|event: MatrixBridgeEventView| #[trigger]
        emits(task_turn(flow, reply).steps, event) implies (event matches
        MatrixBridgeEventView::PublicRoomsDiscovered { rooms, .. } ==> {
        ||| reply == (ReplyView::Generation { current: flow.generation }) && rooms.len()
            <= SEARCH_LIMIT
        ||| rooms.len() == 0 && (flow.task matches TaskView::Search { query } && trimmed(
            query,
        ).len() == 0)
    }) by {
        lemma_emitted(task_turn(flow, reply).steps, event);
    }
}

/// Whether `phase` has what `task` needs there.
pub open spec fn task_wf(flow: TaskFlowView) -> bool {
    match flow.phase {
        TaskPhaseView::TakingClient => flow.task !is AnswerRequest,
        TaskPhaseView::Creating => flow.task is DirectChat || flow.task is NewRoom,
        TaskPhaseView::Joining => flow.task is Join,
        TaskPhaseView::Refreshing => flow.task is DirectChat || flow.task is NewRoom
            || flow.task is Join,
        TaskPhaseView::Searching => flow.task is Search,
        TaskPhaseView::SearchGate { rooms } => flow.task is Search && rooms.len() <= SEARCH_LIMIT,
        TaskPhaseView::FindingRoom => flow.task is History || flow.task is SendText
            || flow.task is SendFile || flow.task is Leave,
        TaskPhaseView::LoadingMessages => flow.task is History,
        TaskPhaseView::ReadingFile => flow.task is SendFile,
        TaskPhaseView::Identifying => flow.task is SendText || flow.task is SendFile,
        TaskPhaseView::FindingVerification => flow.task is Respond,
        TaskPhaseView::CheckingLogin
        | TaskPhaseView::NamingUser
        | TaskPhaseView::NamingDevice
        | TaskPhaseView::ListingDevices { .. }
        | TaskPhaseView::Requesting => flow.task is VerifySession,
        TaskPhaseView::FindingRequest | TaskPhaseView::Accepting => flow.task is AnswerRequest,
        TaskPhaseView::StartingSas { .. } => flow.task is VerifySession
            || flow.task is AnswerRequest,
        TaskPhaseView::Stopped => true,
    }
}

/// Whether a task in `phase` waits for an answer like `reply`.
pub open spec fn task_awaits(phase: TaskPhaseView, reply: ReplyView) -> bool {
    match phase {
        TaskPhaseView::TakingClient
        | TaskPhaseView::Creating
        | TaskPhaseView::Joining
        | TaskPhaseView::FindingRoom
        | TaskPhaseView::ReadingFile
        | TaskPhaseView::FindingVerification
        | TaskPhaseView::CheckingLogin
        | TaskPhaseView::Accepting
        | TaskPhaseView::StartingSas { .. } => reply is Flag,
        TaskPhaseView::Refreshing => reply is Rooms,
        TaskPhaseView::Searching => reply is Found,
        TaskPhaseView::SearchGate { .. } => reply is Generation,
        TaskPhaseView::LoadingMessages => reply is Timeline,
        TaskPhaseView::Identifying => reply is Identity,
        TaskPhaseView::NamingUser | TaskPhaseView::NamingDevice => reply is Text,
        TaskPhaseView::ListingDevices { .. } => reply is Devices,
        TaskPhaseView::Requesting => reply is Requested || reply == (ReplyView::Flag {
            yes: false,
        }),
        TaskPhaseView::FindingRequest => reply is RequestState || reply == (ReplyView::Flag {
            yes: false,
        }),
        TaskPhaseView::Stopped => false,
    }
}

/// Every task begins well and waits for the answer to its last step.
pub proof fn lemma_task_starts_well(generation: u64, task: TaskView, answer: ReplyView)
    ensures
        task_wf(task_begun(generation, task)),
        fits(task_start(task).last(), answer) == task_awaits(
            task_begun(generation, task).phase,
            answer,
        ),
{
}

/// A task that is answered as it asked never stumbles over the answer, and then waits for the
/// answer to its last step.
pub proof fn lemma_task_answered_as_asked(flow: TaskFlowView, reply: ReplyView, answer: ReplyView)
    requires
        task_wf(flow),
        task_awaits(flow.phase, reply),
    ensures
        task_wf(task_after(flow, reply)),
        !task_turn(flow, reply).steps.contains(
            CommandView::Stop { reason: StopReason::Unexpected },
        ),
        fits(task_turn(flow, reply).steps.last(), answer) == task_awaits(
            task_after(flow, reply).phase,
            answer,
        ),
{
}

/// How many answers a task may still wait for.
pub open spec fn answers_left(phase: TaskPhaseView) -> nat {
    match phase {
        TaskPhaseView::Stopped => 0,
        TaskPhaseView::Refreshing
        | TaskPhaseView::SearchGate { .. }
        | TaskPhaseView::LoadingMessages
        | TaskPhaseView::Identifying
        | TaskPhaseView::FindingVerification
        | TaskPhaseView::StartingSas { .. } => 1,
        TaskPhaseView::Creating
        | TaskPhaseView::Joining
        | TaskPhaseView::Searching
        | TaskPhaseView::ReadingFile
        | TaskPhaseView::Requesting
        | TaskPhaseView::Accepting => 2,
        TaskPhaseView::FindingRoom
        | TaskPhaseView::FindingRequest
        | TaskPhaseView::ListingDevices { .. } => 3,
        TaskPhaseView::NamingDevice => 4,
        TaskPhaseView::NamingUser => 5,
        TaskPhaseView::CheckingLogin => 6,
        TaskPhaseView::TakingClient => 7,
    }
}

/// Every task ends: each answer brings it closer to its end, and its last turn ends it.
pub proof fn lemma_task_ends(flow: TaskFlowView, reply: ReplyView)
    ensures
        flow.phase !is Stopped ==> answers_left(task_after(flow, reply).phase) < answers_left(
            flow.phase,
        ),
        flow.phase is Stopped ==> task_after(flow, reply).phase is Stopped,
        task_after(flow, reply).phase is Stopped <==> task_turn(flow, reply).steps.last() is Stop,
{
}

/// Whether the identifiers that `step` hands to the server are valid.
pub open spec fn asks_validly(step: CommandView) -> bool {
    match step {
        CommandView::CreateRoom { invite, .. } => match invite {
            Some(user_id) => user_id_fault(user_id) is None,
            None => true,
        },
        CommandView::JoinRoom { room } => room_or_alias_fault(room) is None,
        CommandView::FindRoom { room_id } => room_id_fault(room_id) is None,
        CommandView::FindVerification { user_id, .. } => user_id_fault(user_id) is None,
        _ => true,
    }
}

/// A task hands the server only valid identifiers.
pub proof fn lemma_task_asks_validly(flow: TaskFlowView, reply: ReplyView, i: int)
    requires
        0 <= i < task_turn(flow, reply).steps.len(),
    ensures
        asks_validly(task_turn(flow, reply).steps[i]),
{
}

/// What is sent is shown first: a text with its own words, a file with the words that stand for it.
/// What is shown has no event id and the time of the sending.
pub proof fn lemma_sent_is_shown_first(flow: TaskFlowView, reply: ReplyView, i: int)
    requires
        0 <= i < task_turn(flow, reply).steps.len(),
        task_turn(flow, reply).steps[i] is SendText || task_turn(flow, reply).steps[i] is SendFile,
    ensures
        i > 0,
        ({
            let shown = task_turn(flow, reply).steps[0];
            &&& shown matches CommandView::Emit { event }
            &&& event matches MatrixBridgeEventView::NewMessage { generation, message }
            &&& generation == flow.generation
            &&& message.event_id is None
            &&& reply matches ReplyView::Identity { now, .. }
            &&& message.timestamp == now
            &&& task_turn(flow, reply).steps[i] matches CommandView::SendText { body }
                ==> message.body == body
        }),
{
}

/// The device that is asked to verify this one is the first in the list that is another one, and
/// none is asked only where the list holds no other.
pub proof fn lemma_own_device_is_never_asked(ids: Seq<Seq<char>>, own: Seq<char>)
    requires
        ids.len() <= usize::MAX,
    ensures
        match first_other(ids, own) {
            Some(device) => device < ids.len() && ids[device as int] != own && forall|j: int|
                0 <= j < device ==> #[trigger] ids[j] == own,
            None => forall|j: int| 0 <= j < ids.len() ==> #[trigger] ids[j] == own,
        },
    decreases ids.len(),
{
    if ids.len() > 0 {
        let front = ids.drop_last();
        lemma_own_device_is_never_asked(front, own);
        assert forall|j: int| 0 <= j < front.len() implies front[j] == #[trigger] ids[j] by {}
    }
}

} // verus!
