//! What the steps of a task are for.

use super::client::MatrixBackend;
use super::identifiers::{room_alias_of, room_id_fault, room_or_alias_fault, user_id_fault};
use super::protocol::{Command, CommandView, Reply, ReplyView, StopReason};
use super::room_laws::describes;
use super::rooms::JoinedRoomView;
use super::task_laws::lemma_own_device_is_never_asked;
use super::tasks::{
    first_other, task_after, task_begun, task_start, task_turn, Task, TaskFlow, TaskFlowView,
    TaskPhase, TaskPhaseView, TaskView,
};
use super::timeline::{event_of_json, messages_of};
use super::types::{
    MatrixBridgeEvent, MatrixBridgeEventView, MatrixMessage, MatrixMessageView,
    PublicRoomSearchResultView,
};
use crate::text::trimmed;
use vstd::prelude::*;

verus! {

proof fn lemma_step_at(flow: &mut TaskFlow, reply: Reply, r: Vec<Command>, i: int)
    requires
        call_ensures(TaskFlow::step, (flow, reply), r),
        0 <= i < r.len(),
    ensures
        r@.len() == task_turn(old(flow)@, reply@).steps.len(),
        r@[i]@ == task_turn(old(flow)@, reply@).steps[i],
{
    assert(r.deep_view().len() == r@.len());
    assert(r.deep_view()[i] == r@[i]@);
}

/// What a task shows as sent it shows in the room that it sends to, under the name of the user and
/// the time of the sending, with no event id: a text with its own words, a file by its name and its
/// caption.
pub proof fn lemma_what_is_sent_is_shown_in_its_room(
    flow: &mut TaskFlow,
    reply: Reply,
    r: Vec<Command>,
    i: int,
    generation: u64,
    message: MatrixMessage,
)
    requires
        call_ensures(TaskFlow::step, (flow, reply), r),
        0 <= i < r.len(),
        r@[i] == (Command::Emit {
            event: MatrixBridgeEvent::NewMessage { generation, message },
        }),
    ensures
        generation == old(flow).generation,
        message.event_id is None,
        reply matches Reply::Identity { user_id, now } && message.timestamp == now && (user_id
            matches Some(user) ==> message.sender@ == user@) && (user_id is None
            ==> message.sender@ == "you"@),
        old(flow).task is SendText || old(flow).task is SendFile,
        old(flow).task matches Task::SendText { room_id, text } ==> message.room_id@ == room_id@
            && message.body@ == text@,
        old(flow).task matches Task::SendFile { room_id, name, caption, .. } ==> message.room_id@
            == room_id@ && (caption is Some && trimmed(caption->0@).len() > 0 ==> message.body@
            == "Attachment: "@ + name@ + " ("@ + caption->0@ + ")"@) && (caption is None || trimmed(
            caption->0@,
        ).len() == 0 ==> message.body@ == "Attachment: "@ + name@),
{
    lemma_step_at(flow, reply, r, i);
    assert(r@[i]@ == (CommandView::Emit {
        event: MatrixBridgeEventView::NewMessage { generation, message: message@ },
    }));
}

/// What a task sends is what it was given to send, in the room it was given: a text goes out word
/// for word, a file under its name and media type, with its caption unless that is blank. A task
/// that sends nothing else sends nothing.
pub proof fn lemma_what_is_given_is_sent(flow: &mut TaskFlow, reply: Reply, r: Vec<Command>, i: int)
    requires
        call_ensures(TaskFlow::step, (flow, reply), r),
        0 <= i < r.len(),
    ensures
        r@[i] matches Command::SendText { body } ==> (old(flow).task matches Task::SendText {
            text,
            ..
        } && body@ == text@),
        r@[i] matches Command::SendFile { name, content_type, caption } ==> (old(flow).task matches
            Task::SendFile { name: n, content_type: t, caption: c, .. } && name@ == n@
            && content_type@ == t@ && (caption is Some <==> c is Some && trimmed(c->0@).len() > 0)
            && (caption is Some ==> caption->0@ == c->0@)),
        r@[i] matches Command::FindRoom { room_id } ==> {
            ||| old(flow).task matches Task::History { room_id: id } && room_id@ == id@
            ||| old(flow).task matches Task::SendText { room_id: id, .. } && room_id@ == id@
            ||| old(flow).task matches Task::SendFile { room_id: id, .. } && room_id@ == id@
            ||| old(flow).task matches Task::Leave { room_id: id } && room_id@ == id@
        },
        r@[i] is LeaveRoom ==> old(flow).task is Leave,
        r@[i] is ReadAttachment ==> old(flow).task is SendFile,
        r@[i] matches Command::LoadMessages { limit } ==> old(flow).task is History && limit == 200,
{
    lemma_step_at(flow, reply, r, i);
}

/// A direct chat is a room that is marked so and to which just the wanted user is invited; a new
/// room is a room under the wanted name, not marked so, to which nobody is invited. A room is
/// joined, and the directory searched, only for a task that wants that.
pub proof fn lemma_what_is_wanted_is_asked_for(
    flow: &mut TaskFlow,
    reply: Reply,
    r: Vec<Command>,
    i: int,
)
    requires
        call_ensures(TaskFlow::step, (flow, reply), r),
        0 <= i < r.len(),
    ensures
        r@[i] matches Command::CreateRoom { name, is_direct, invite } ==> {
            ||| old(flow).task matches Task::DirectChat { user_id } && is_direct && name is None
                && (invite matches Some(user) && user@ == user_id@)
            ||| old(flow).task matches Task::NewRoom { name: wanted } && !is_direct
                && invite is None && (name matches Some(given) && given@ == wanted@)
        },
        r@[i] matches Command::JoinRoom { room } ==> (old(flow).task matches Task::Join { input }
            && room@ == room_alias_of(input@) && room@.len() > 0),
        r@[i] matches Command::SearchDirectory { query, .. } ==> (old(flow).task matches
            Task::Search { query: wanted } && query@ == trimmed(wanted@) && query@.len() > 0),
{
    lemma_step_at(flow, reply, r, i);
}

/// The emoji of a verification are confirmed only for a user who says that they match, and reported
/// as different only for one who says that they do not; it is the verification that the user was
/// asked about.
pub proof fn lemma_the_users_verdict_is_passed_on(
    flow: &mut TaskFlow,
    reply: Reply,
    r: Vec<Command>,
    i: int,
)
    requires
        call_ensures(TaskFlow::step, (flow, reply), r),
        0 <= i < r.len(),
    ensures
        r@[i] is ConfirmVerification ==> (old(flow).task matches Task::Respond { confirm, .. }
            && confirm),
        r@[i] is RejectVerification ==> (old(flow).task matches Task::Respond { confirm, .. }
            && !confirm),
        r@[i] matches Command::FindVerification { user_id, flow_id } ==> (old(flow).task matches
            Task::Respond { user_id: u, flow_id: f, .. } && user_id@ == u@ && flow_id@ == f@),
{
    lemma_step_at(flow, reply, r, i);
}

/// A verification goes out to a device of the list that is not the device of the session, and a
/// request is accepted only where it came from another device and is still open. What is watched is
/// the verification that was requested, or that which was answered.
pub proof fn lemma_verification_is_with_another_device(
    flow: &mut TaskFlow,
    reply: Reply,
    r: Vec<Command>,
    i: int,
)
    requires
        call_ensures(TaskFlow::step, (flow, reply), r),
        0 <= i < r.len(),
    ensures
        r@[i] matches Command::RequestVerification { device } ==> (reply matches Reply::Devices {
            ids: Some(ids),
        } && device < ids.len() && (old(flow).phase matches TaskPhase::ListingDevices { own }
            && ids@[device as int]@ != own@ && forall|j: int|
            0 <= j < device ==> (#[trigger] ids@[j])@ == own@)),
        r@[i] is AcceptVerification ==> old(flow).phase is FindingRequest && reply
            == (Reply::RequestState { done: false, cancelled: false, we_started: false }),
        r@[i] is StartSas ==> (final(flow).phase matches TaskPhase::StartingSas {
            user_id,
            flow_id,
        } && {
            ||| reply matches Reply::Requested { user_id: u, flow_id: f } && user_id@ == u@
                && flow_id@ == f@
            ||| old(flow).task matches Task::AnswerRequest { user_id: u, flow_id: f } && user_id@
                == u@ && flow_id@ == f@
        }),
        r@[i] matches Command::WatchSas { user_id, flow_id } ==> (old(flow).phase matches
            TaskPhase::StartingSas { user_id: u, flow_id: f } && user_id@ == u@ && flow_id@ == f@
            && reply == (Reply::Flag { yes: true })),
{
    lemma_step_at(flow, reply, r, i);
    if let Command::RequestVerification { device } = r@[i] {
        assert(old(flow)@.phase is ListingDevices);
        if let Reply::Devices { ids: Some(ids) } = reply {
            if let TaskPhase::ListingDevices { own } = old(flow).phase {
                assert(ids.deep_view().len() == ids@.len());
                assert(ids@.len() == ids.len());
                lemma_own_device_is_never_asked(ids.deep_view(), own@);
                assert(ids.deep_view()[device as int] == ids@[device as int]@);
                assert forall|j: int| 0 <= j < device implies (#[trigger] ids@[j])@ == own@ by {
                    assert(ids.deep_view()[j] == own@);
                }
            }
        }
    }
}

/// The answer no ends a task on the spot: nothing is sent, reported or asked for after it, and the
/// end is not that of a task that did its work.
pub proof fn lemma_no_ends_the_task(flow: TaskFlowView)
    ensures
        ({
            let turn = task_turn(flow, ReplyView::Flag { yes: false });
            &&& turn.phase is Stopped
            &&& turn.steps.len() == 1
            &&& turn.steps[0] matches CommandView::Stop { reason }
            &&& reason != StopReason::Finished
        }),
{
}

/// The course of a task whose room is there: what follows the client and the room.
pub open spec fn with_room(generation: u64, task: TaskView) -> TaskFlowView {
    task_after(
        task_after(task_begun(generation, task), ReplyView::Flag { yes: true }),
        ReplyView::Flag { yes: true },
    )
}

/// A text for a room that is there is shown in the room and then goes out.
pub proof fn lemma_text_goes_out(
    generation: u64,
    room_id: Seq<char>,
    text: Seq<char>,
    user_id: Seq<char>,
    now: u64,
)
    requires
        room_id_fault(room_id) is None,
    ensures
        ({
            let flow = with_room(generation, TaskView::SendText { room_id, text });
            let steps = task_turn(
                flow,
                ReplyView::Identity { user_id: Some(user_id), now },
            ).steps;
            &&& steps.len() == 3
            &&& steps[0] == (CommandView::Emit {
                event: MatrixBridgeEventView::NewMessage {
                    generation,
                    message: MatrixMessageView {
                        room_id,
                        sender: user_id,
                        body: text,
                        timestamp: now,
                        event_id: None,
                    },
                },
            })
            &&& steps[1] == (CommandView::SendText { body: text })
            &&& steps[2] == (CommandView::Stop { reason: StopReason::Finished })
        }),
{
}

/// A file that can be read, for a room that is there, is shown in the room and then goes out.
pub proof fn lemma_file_goes_out(
    generation: u64,
    room_id: Seq<char>,
    name: Seq<char>,
    content_type: Seq<char>,
    caption: Option<Seq<char>>,
    user_id: Seq<char>,
    now: u64,
)
    requires
        room_id_fault(room_id) is None,
    ensures
        ({
            let task = TaskView::SendFile { room_id, name, content_type, caption };
            let found = with_room(generation, task);
            let flow = task_after(found, ReplyView::Flag { yes: true });
            let steps = task_turn(
                flow,
                ReplyView::Identity { user_id: Some(user_id), now },
            ).steps;
            &&& task_turn(found, ReplyView::Flag { yes: true }).steps == seq![CommandView::AskSelf]
            &&& steps.len() == 3
            &&& steps[0] matches CommandView::Emit { event }
            &&& event matches MatrixBridgeEventView::NewMessage { message, .. }
            &&& message.room_id == room_id
            &&& message.sender == user_id
            &&& steps[1] matches CommandView::SendFile { name: n, content_type: t, caption: c }
            &&& n == name
            &&& t == content_type
            &&& c is Some ==> c == caption
            &&& caption is Some && trimmed(caption->0).len() > 0 ==> c == caption
            &&& steps[2] == (CommandView::Stop { reason: StopReason::Finished })
        }),
{
}

/// The history of a room that is there is loaded, up to two hundred messages, and reported as that
/// room's: the texts of its timeline in their order.
pub proof fn lemma_history_is_loaded(generation: u64, room_id: Seq<char>, texts: Seq<Seq<char>>)
    requires
        room_id_fault(room_id) is None,
    ensures
        ({
            let task = TaskView::History { room_id };
            let found = task_after(task_begun(generation, task), ReplyView::Flag { yes: true });
            let flow = with_room(generation, task);
            let steps = task_turn(flow, ReplyView::Timeline { events: Some(texts) }).steps;
            &&& task_turn(found, ReplyView::Flag { yes: true }).steps == seq![
                CommandView::LoadMessages { limit: 200 },
            ]
            &&& steps.len() == 2
            &&& steps[0] matches CommandView::Emit { event }
            &&& event matches MatrixBridgeEventView::RoomHistory {
                generation: g,
                room_id: id,
                messages,
            }
            &&& g == generation
            &&& id == room_id
            &&& messages == messages_of(
                room_id,
                Seq::new(texts.len(), |k: int| event_of_json(texts[k])),
            )
            &&& steps[1] == (CommandView::Stop { reason: StopReason::Finished })
        }),
{
    let steps = task_turn(
        with_room(generation, TaskView::History { room_id }),
        ReplyView::Timeline { events: Some(texts) },
    ).steps;
    assert(Seq::new(texts.len(), |k: int| event_of_json(texts[k]))
        =~= super::timeline::events_of_json(texts));
}

/// A room that is there is left at the server.
pub proof fn lemma_room_is_left(generation: u64, room_id: Seq<char>)
    requires
        room_id_fault(room_id) is None,
    ensures
        ({
            let task = TaskView::Leave { room_id };
            let found = task_after(task_begun(generation, task), ReplyView::Flag { yes: true });
            &&& task_turn(
                task_begun(generation, task),
                ReplyView::Flag { yes: true },
            ).steps == seq![CommandView::FindRoom { room_id }]
            &&& task_turn(found, ReplyView::Flag { yes: true }).steps == seq![
                CommandView::LeaveRoom,
                CommandView::Stop { reason: StopReason::Finished },
            ]
        }),
{
}

/// A room with a faulty id is neither looked for nor written to.
pub proof fn lemma_faulty_room_is_refused(generation: u64, task: TaskView, room_id: Seq<char>)
    requires
        room_id_fault(room_id) is Some,
        ({
            ||| task matches TaskView::History { room_id: id } && id == room_id
            ||| task matches TaskView::SendText { room_id: id, .. } && id == room_id
            ||| task matches TaskView::SendFile { room_id: id, .. } && id == room_id
            ||| task matches TaskView::Leave { room_id: id } && id == room_id
        }),
    ensures
        task_turn(task_begun(generation, task), ReplyView::Flag { yes: true }).steps == seq![
            CommandView::Stop { reason: StopReason::InvalidRoomId },
        ],
{
}

/// A chat with a user whose id is valid is made, a new room is made, and a room that the user names
/// is joined, each at once; what was typed in vain ends the task.
pub proof fn lemma_rooms_are_made_and_joined(
    generation: u64,
    user_id: Seq<char>,
    name: Seq<char>,
    input: Seq<char>,
)
    ensures
        ({
            let yes = ReplyView::Flag { yes: true };
            let chat = task_turn(
                task_begun(generation, TaskView::DirectChat { user_id }),
                yes,
            ).steps;
            let room = task_turn(task_begun(generation, TaskView::NewRoom { name }), yes).steps;
            let join = task_turn(task_begun(generation, TaskView::Join { input }), yes).steps;
            &&& user_id_fault(user_id) is None ==> chat == seq![
                CommandView::CreateRoom { name: None, is_direct: true, invite: Some(user_id) },
            ]
            &&& user_id_fault(user_id) is Some ==> chat == seq![
                CommandView::Stop { reason: StopReason::InvalidUserId },
            ]
            &&& room == seq![
                CommandView::CreateRoom { name: Some(name), is_direct: false, invite: None },
            ]
            &&& room_alias_of(input).len() > 0 && room_or_alias_fault(room_alias_of(input)) is None
                ==> join == seq![CommandView::JoinRoom { room: room_alias_of(input) }]
            &&& room_alias_of(input).len() == 0 ==> join == seq![
                CommandView::Stop { reason: StopReason::EmptyRoomAlias },
            ]
            &&& room_alias_of(input).len() > 0 && room_or_alias_fault(room_alias_of(input)) is Some
                ==> join == seq![CommandView::Stop { reason: StopReason::InvalidRoomAlias }]
        }),
{
}

/// Once a room was made or joined the rooms are collected anew, and every joined room is reported
/// as it is.
pub proof fn lemma_rooms_are_refreshed(flow: TaskFlowView, joined: Seq<JoinedRoomView>)
    requires
        flow.phase is Creating || flow.phase is Joining,
    ensures
        ({
            let yes = ReplyView::Flag { yes: true };
            let steps = task_turn(
                task_after(flow, yes),
                ReplyView::Rooms { rooms: joined },
            ).steps;
            &&& task_turn(flow, yes).steps == seq![CommandView::CollectRooms]
            &&& steps.len() == 2
            &&& steps[0] matches CommandView::Emit { event }
            &&& event matches MatrixBridgeEventView::SyncRooms { generation, rooms }
            &&& generation == flow.generation
            &&& rooms.len() == joined.len()
            &&& forall|i: int| 0 <= i < rooms.len() ==> describes(#[trigger] rooms[i], joined[i])
            &&& steps[1] == (CommandView::Stop { reason: StopReason::Finished })
        }),
{
}

/// A search asks the directory for what was typed without surrounding white space, and finds
/// nothing for what is blank.
pub proof fn lemma_search_is_asked(generation: u64, query: Seq<char>)
    ensures
        ({
            let turn = task_turn(
                task_begun(generation, TaskView::Search { query }),
                ReplyView::Flag { yes: true },
            );
            &&& trimmed(query).len() > 0 ==> turn.steps == seq![
                CommandView::SearchDirectory { query: trimmed(query), batch: 10 },
            ] && turn.phase is Searching
            &&& trimmed(query).len() == 0 ==> turn.steps == seq![
                CommandView::Emit {
                    event: MatrixBridgeEventView::PublicRoomsDiscovered {
                        generation,
                        rooms: Seq::<PublicRoomSearchResultView>::empty(),
                    },
                },
                CommandView::Stop { reason: StopReason::Finished },
            ]
        }),
{
}

/// What the user says of the emoji of a verification that is there reaches it: yes confirms it, no
/// rejects it.
pub proof fn lemma_verdict_reaches_the_verification(
    generation: u64,
    user_id: Seq<char>,
    flow_id: Seq<char>,
    confirm: bool,
)
    requires
        user_id_fault(user_id) is None,
    ensures
        ({
            let begun = task_begun(generation, TaskView::Respond { user_id, flow_id, confirm });
            let yes = ReplyView::Flag { yes: true };
            let steps = task_turn(task_after(begun, yes), yes).steps;
            &&& task_turn(begun, yes).steps == seq![
                CommandView::FindVerification { user_id, flow_id },
            ]
            &&& confirm ==> steps == seq![
                CommandView::ConfirmVerification,
                CommandView::Stop { reason: StopReason::Finished },
            ]
            &&& !confirm ==> steps == seq![
                CommandView::RejectVerification,
                CommandView::Stop { reason: StopReason::Finished },
            ]
        }),
{
}

/// This device is verified with the first other one of the user: it is asked for, and the
/// comparison of emoji that it agrees to is begun and watched.
pub proof fn lemma_session_is_verified(
    generation: u64,
    user: Seq<char>,
    own: Seq<char>,
    ids: Seq<Seq<char>>,
    device: usize,
    user_id: Seq<char>,
    flow_id: Seq<char>,
)
    requires
        device < ids.len() <= usize::MAX,
        ids[device as int] != own,
        forall|j: int| 0 <= j < device ==> #[trigger] ids[j] == own,
    ensures
        ({
            let yes = ReplyView::Flag { yes: true };
            let f0 = task_begun(generation, TaskView::VerifySession);
            let f1 = task_after(f0, yes);
            let f2 = task_after(f1, yes);
            let f3 = task_after(f2, ReplyView::Text { text: Some(user) });
            let f4 = task_after(f3, ReplyView::Text { text: Some(own) });
            let f5 = task_after(f4, ReplyView::Devices { ids: Some(ids) });
            let f6 = task_after(f5, ReplyView::Requested { user_id, flow_id });
            &&& task_turn(f0, yes).steps == seq![CommandView::AskLoggedIn]
            &&& task_turn(f1, yes).steps == seq![CommandView::AskUserId]
            &&& task_turn(f2, ReplyView::Text { text: Some(user) }).steps == seq![
                CommandView::AskDeviceId,
            ]
            &&& task_turn(f3, ReplyView::Text { text: Some(own) }).steps == seq![
                CommandView::ListDevices,
            ]
            &&& task_turn(f4, ReplyView::Devices { ids: Some(ids) }).steps == seq![
                CommandView::RequestVerification { device },
            ]
            &&& task_turn(f5, ReplyView::Requested { user_id, flow_id }).steps == seq![
                CommandView::StartSas,
            ]
            &&& task_turn(f6, yes).steps == seq![
                CommandView::WatchSas { user_id, flow_id },
                CommandView::Stop { reason: StopReason::Finished },
            ]
        }),
{
    lemma_own_device_is_never_asked(ids, own);
    match first_other(ids, own) {
        Some(found) => {
            if found < device {
                assert(ids[found as int] == own);
            }
            if device < found {
                assert(ids[device as int] == own);
            }
        },
        None => {
            assert(ids[device as int] == own);
        },
    }
}

/// A request of another device is found by its own ids, accepted while it is open, and the
/// comparison of emoji is begun and watched under the same ids. One that is over, given up or the
/// session's own is left alone.
pub proof fn lemma_request_is_answered(
    generation: u64,
    user_id: Seq<char>,
    flow_id: Seq<char>,
    done: bool,
    cancelled: bool,
    we_started: bool,
)
    ensures
        ({
            let task = TaskView::AnswerRequest { user_id, flow_id };
            let yes = ReplyView::Flag { yes: true };
            let open = ReplyView::RequestState {
                done: false,
                cancelled: false,
                we_started: false,
            };
            let state = ReplyView::RequestState { done, cancelled, we_started };
            let f0 = task_begun(generation, task);
            let f1 = task_after(f0, open);
            let f2 = task_after(f1, yes);
            &&& task_start(task) == seq![
                CommandView::FindVerificationRequest { user_id, flow_id },
            ]
            &&& task_turn(f0, open).steps == seq![CommandView::AcceptVerification]
            &&& task_turn(f1, yes).steps == seq![CommandView::StartSas]
            &&& task_turn(f2, yes).steps == seq![
                CommandView::WatchSas { user_id, flow_id },
                CommandView::Stop { reason: StopReason::Finished },
            ]
            &&& done || cancelled || we_started ==> task_turn(f0, state).steps == seq![
                CommandView::Stop { reason: StopReason::NothingToAnswer },
            ]
        }),
{
}

/// Every task but an answer to a request begins with the client of the session.
pub proof fn lemma_task_begins_with_the_client(
    generation: u64,
    task: Task,
    r: (TaskFlow, Vec<Command>),
)
    requires
        call_ensures(TaskFlow::begin, (generation, task), r),
    ensures
        r.0.generation == generation,
        r.0@.task == task@,
        r.1.len() == 1,
        task !is AnswerRequest ==> r.1@[0] is TakeClient && r.0.phase is TakingClient,
        task matches Task::AnswerRequest { user_id, flow_id } ==> (r.1@[0] matches
            Command::FindVerificationRequest { user_id: u, flow_id: f } && u@ == user_id@ && f@
            == flow_id@) && r.0.phase is FindingRequest,
{
    assert(r.1.deep_view().len() == r.1@.len());
    assert(r.1.deep_view()[0] == r.1@[0]@);
}

/// Each request of the user becomes the task that it is for, with what it was given, under the
/// current generation.
pub proof fn lemma_requests_become_tasks(
    backend: MatrixBackend,
    a: String,
    b: String,
    chat: (TaskFlow, Vec<Command>),
    room: (TaskFlow, Vec<Command>),
    join: (TaskFlow, Vec<Command>),
    history: (TaskFlow, Vec<Command>),
    text: (TaskFlow, Vec<Command>),
    verify: (TaskFlow, Vec<Command>),
)
    requires
        call_ensures(MatrixBackend::create_direct_chat, (&backend, a), chat),
        call_ensures(MatrixBackend::create_room, (&backend, a), room),
        call_ensures(MatrixBackend::join_room_by_id_or_alias, (&backend, a), join),
        call_ensures(MatrixBackend::load_room_history, (&backend, a), history),
        call_ensures(MatrixBackend::send_message, (&backend, a, b), text),
        call_ensures(MatrixBackend::verify_current_session, (&backend,), verify),
    ensures
        chat.0.task matches Task::DirectChat { user_id } && user_id@ == a@,
        room.0.task matches Task::NewRoom { name } && name@ == a@,
        join.0.task matches Task::Join { input } && input@ == a@,
        history.0.task matches Task::History { room_id } && room_id@ == a@,
        text.0.task matches Task::SendText { room_id, text: t } && room_id@ == a@ && t@ == b@,
        verify.0.task is VerifySession,
        chat.0.generation == backend.sync_generation,
        room.0.generation == backend.sync_generation,
        join.0.generation == backend.sync_generation,
        history.0.generation == backend.sync_generation,
        text.0.generation == backend.sync_generation,
        verify.0.generation == backend.sync_generation,
{
}

/// A search is under the next generation, so that what was under way no longer counts; so is a
/// leave, which forgets the room at once.
pub proof fn lemma_search_and_leave_begin_a_generation(
    searcher: &mut MatrixBackend,
    leaver: &mut MatrixBackend,
    a: String,
    search: (TaskFlow, Vec<Command>),
    leave: (TaskFlow, Vec<Command>),
)
    requires
        call_ensures(MatrixBackend::search_public_rooms, (searcher, a), search),
        call_ensures(MatrixBackend::leave_room, (leaver, a), leave),
    ensures
        search.0.task matches Task::Search { query } && query@ == a@,
        search.0.generation == final(searcher).sync_generation,
        final(searcher).sync_generation != old(searcher).sync_generation,
        final(searcher).rooms.deep_view() == old(searcher).rooms.deep_view(),
        final(searcher).messages@ == old(searcher).messages@,
        leave.0.task matches Task::Leave { room_id } && room_id@ == a@,
        leave.0.generation == final(leaver).sync_generation,
        final(leaver).sync_generation != old(leaver).sync_generation,
        !final(leaver).messages@.contains_key(a@),
        final(leaver).public_rooms.deep_view() == old(leaver).public_rooms.deep_view(),
        final(leaver).connection_status@ == old(leaver).connection_status@,
{
}

/// A task that ends early says what was missing: the client, the room, the file, the verification,
/// the login, or else that the server did not do what was asked.
pub proof fn lemma_early_end_says_why(flow: TaskFlowView)
    ensures
        ({
            let steps = task_turn(flow, ReplyView::Flag { yes: false }).steps;
            let phase = flow.phase;
            &&& phase is TakingClient ==> steps[0] == (CommandView::Stop {
                reason: StopReason::NoClient,
            })
            &&& phase is FindingRoom ==> steps[0] == (CommandView::Stop {
                reason: StopReason::RoomNotFound,
            })
            &&& phase is ReadingFile ==> steps[0] == (CommandView::Stop {
                reason: StopReason::FileUnreadable,
            })
            &&& phase is FindingVerification || phase is FindingRequest ==> steps[0]
                == (CommandView::Stop { reason: StopReason::FlowNotFound })
            &&& phase is CheckingLogin ==> steps[0] == (CommandView::Stop {
                reason: StopReason::NotLoggedIn,
            })
            &&& phase is Creating || phase is Joining || phase is Requesting || phase is Accepting
                || phase is StartingSas ==> steps[0] == (CommandView::Stop {
                reason: StopReason::RequestFailed,
            })
        }),
        flow.phase is NamingUser ==> task_turn(flow, ReplyView::Text { text: None }).steps == seq![
            CommandView::Stop { reason: StopReason::NoUserId },
        ],
        flow.phase is NamingDevice ==> task_turn(flow, ReplyView::Text { text: None }).steps
            == seq![CommandView::Stop { reason: StopReason::NoDeviceId }],
        flow.phase is ListingDevices ==> task_turn(flow, ReplyView::Devices { ids: None }).steps
            == seq![CommandView::Stop { reason: StopReason::RequestFailed }],
        flow.phase is LoadingMessages && flow.task is History ==> task_turn(
            flow,
            ReplyView::Timeline { events: None },
        ).steps == seq![CommandView::Stop { reason: StopReason::RequestFailed }],
{
}

/// Where the user has no other device none is asked.
pub proof fn lemma_lone_device_asks_none(flow: TaskFlowView, own: Seq<char>, ids: Seq<Seq<char>>)
    requires
        flow.phase == (TaskPhaseView::ListingDevices { own }),
        ids.len() <= usize::MAX,
        forall|j: int| 0 <= j < ids.len() ==> #[trigger] ids[j] == own,
    ensures
        task_turn(flow, ReplyView::Devices { ids: Some(ids) }).steps == seq![
            CommandView::Stop { reason: StopReason::NoOtherDevice },
        ],
{
    lemma_own_device_is_never_asked(ids, own);
}

} // verus!
