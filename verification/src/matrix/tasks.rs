//! What the user asks of a session: rooms, messages, attachments and verification.

use super::attachment::{attachment_body, attachment_text, caption_sent, caption_to_send};
use super::client::MatrixBackend;
use super::identifiers::{
    is_room_id, is_room_or_alias_id, is_user_id, normalize_room_alias, room_alias_of,
    room_id_fault, room_or_alias_fault, user_id_fault,
};
use super::login::listed_rooms;
use super::protocol::{found_rooms, Command, CommandView, Reply, ReplyView, StopReason};
use super::rooms::JoinedRoom;
use super::timeline::{events_of_json, history_from_json, messages_of};
use super::types::{
    MatrixBridgeEvent, MatrixBridgeEventView, MatrixMessage, MatrixMessageView,
    PublicRoomSearchResult, PublicRoomSearchResultView,
};
use crate::text::{same_text, trim, trimmed};
use vstd::prelude::*;

verus! {

/// What is asked of a session.
pub enum Task {
    /// A direct chat with a user.
    DirectChat { user_id: String },
    /// A new room.
    NewRoom { name: String },
    /// A search of the public room directory.
    Search { query: String },
    /// To join the room that the user means by `input`.
    Join { input: String },
    /// The last messages of a room.
    History { room_id: String },
    /// To send a text.
    SendText { room_id: String, text: String },
    /// To send a file.
    SendFile { room_id: String, name: String, content_type: String, caption: Option<String> },
    /// To leave a room.
    Leave { room_id: String },
    /// To confirm or reject the emoji of a verification.
    Respond { user_id: String, flow_id: String, confirm: bool },
    /// To verify this device with another one of the user.
    VerifySession,
    /// To answer the verification request of another device.
    AnswerRequest { user_id: String, flow_id: String },
}

/// The contents of a [`Task`].
#[verifier::ext_equal]
pub enum TaskView {
    DirectChat { user_id: Seq<char> },
    NewRoom { name: Seq<char> },
    Search { query: Seq<char> },
    Join { input: Seq<char> },
    History { room_id: Seq<char> },
    SendText { room_id: Seq<char>, text: Seq<char> },
    SendFile {
        room_id: Seq<char>,
        name: Seq<char>,
        content_type: Seq<char>,
        caption: Option<Seq<char>>,
    },
    Leave { room_id: Seq<char> },
    Respond { user_id: Seq<char>, flow_id: Seq<char>, confirm: bool },
    VerifySession,
    AnswerRequest { user_id: Seq<char>, flow_id: Seq<char> },
}

impl View for Task {
    type V = TaskView;

    open spec fn view(&self) -> TaskView {
        match *self {
            Task::DirectChat { user_id } => TaskView::DirectChat { user_id: user_id@ },
            Task::NewRoom { name } => TaskView::NewRoom { name: name@ },
            Task::Search { query } => TaskView::Search { query: query@ },
            Task::Join { input } => TaskView::Join { input: input@ },
            Task::History { room_id } => TaskView::History { room_id: room_id@ },
            Task::SendText { room_id, text } => TaskView::SendText {
                room_id: room_id@,
                text: text@,
            },
            Task::SendFile { room_id, name, content_type, caption } => TaskView::SendFile {
                room_id: room_id@,
                name: name@,
                content_type: content_type@,
                caption: caption.deep_view(),
            },
            Task::Leave { room_id } => TaskView::Leave { room_id: room_id@ },
            Task::Respond { user_id, flow_id, confirm } => TaskView::Respond {
                user_id: user_id@,
                flow_id: flow_id@,
                confirm,
            },
            Task::VerifySession => TaskView::VerifySession,
            Task::AnswerRequest { user_id, flow_id } => TaskView::AnswerRequest {
                user_id: user_id@,
                flow_id: flow_id@,
            },
        }
    }
}

impl DeepView for Task {
    type V = TaskView;

    open spec fn deep_view(&self) -> TaskView {
        self@
    }
}

/// What a task waits for.
pub enum TaskPhase {
    /// The client of the session.
    TakingClient,
    /// A new room.
    Creating,
    /// To have joined a room.
    Joining,
    /// The joined rooms.
    Refreshing,
    /// The rooms of the directory.
    Searching,
    /// The generation, before the rooms found are reported.
    SearchGate { rooms: Vec<PublicRoomSearchResult> },
    /// A room of the client.
    FindingRoom,
    /// The messages of the room.
    LoadingMessages,
    /// The file to send.
    ReadingFile,
    /// Who sends, and when.
    Identifying,
    /// A running verification.
    FindingVerification,
    /// Whether the client is logged in.
    CheckingLogin,
    /// The user id of the session.
    NamingUser,
    /// The device id of the session.
    NamingDevice,
    /// The devices of the user; `own` is that of the session.
    ListingDevices { own: String },
    /// A verification request to go out.
    Requesting,
    /// A verification request that came in.
    FindingRequest,
    /// To have accepted the request.
    Accepting,
    /// The comparison of emoji to begin.
    StartingSas { user_id: String, flow_id: String },
    /// Nothing more.
    Stopped,
}

/// The contents of a [`TaskPhase`].
#[verifier::ext_equal]
pub enum TaskPhaseView {
    TakingClient,
    Creating,
    Joining,
    Refreshing,
    Searching,
    SearchGate { rooms: Seq<PublicRoomSearchResultView> },
    FindingRoom,
    LoadingMessages,
    ReadingFile,
    Identifying,
    FindingVerification,
    CheckingLogin,
    NamingUser,
    NamingDevice,
    ListingDevices { own: Seq<char> },
    Requesting,
    FindingRequest,
    Accepting,
    StartingSas { user_id: Seq<char>, flow_id: Seq<char> },
    Stopped,
}

impl View for TaskPhase {
    type V = TaskPhaseView;

    open spec fn view(&self) -> TaskPhaseView {
        match *self {
            TaskPhase::TakingClient => TaskPhaseView::TakingClient,
            TaskPhase::Creating => TaskPhaseView::Creating,
            TaskPhase::Joining => TaskPhaseView::Joining,
            TaskPhase::Refreshing => TaskPhaseView::Refreshing,
            TaskPhase::Searching => TaskPhaseView::Searching,
            TaskPhase::SearchGate { rooms } => TaskPhaseView::SearchGate {
                rooms: rooms.deep_view(),
            },
            TaskPhase::FindingRoom => TaskPhaseView::FindingRoom,
            TaskPhase::LoadingMessages => TaskPhaseView::LoadingMessages,
            TaskPhase::ReadingFile => TaskPhaseView::ReadingFile,
            TaskPhase::Identifying => TaskPhaseView::Identifying,
            TaskPhase::FindingVerification => TaskPhaseView::FindingVerification,
            TaskPhase::CheckingLogin => TaskPhaseView::CheckingLogin,
            TaskPhase::NamingUser => TaskPhaseView::NamingUser,
            TaskPhase::NamingDevice => TaskPhaseView::NamingDevice,
            TaskPhase::ListingDevices { own } => TaskPhaseView::ListingDevices { own: own@ },
            TaskPhase::Requesting => TaskPhaseView::Requesting,
            TaskPhase::FindingRequest => TaskPhaseView::FindingRequest,
            TaskPhase::Accepting => TaskPhaseView::Accepting,
            TaskPhase::StartingSas { user_id, flow_id } => TaskPhaseView::StartingSas {
                user_id: user_id@,
                flow_id: flow_id@,
            },
            TaskPhase::Stopped => TaskPhaseView::Stopped,
        }
    }
}

impl DeepView for TaskPhase {
    type V = TaskPhaseView;

    open spec fn deep_view(&self) -> TaskPhaseView {
        self@
    }
}

/// A task on its way.
pub struct TaskFlow {
    /// The sync generation that the task was given under.
    pub generation: u64,
    /// What is asked.
    pub task: Task,
    /// What the task waits for.
    pub phase: TaskPhase,
}

/// The contents of a [`TaskFlow`].
#[verifier::ext_equal]
pub struct TaskFlowView {
    pub generation: u64,
    pub task: TaskView,
    pub phase: TaskPhaseView,
}

impl View for TaskFlow {
    type V = TaskFlowView;

    open spec fn view(&self) -> TaskFlowView {
        TaskFlowView {
            generation: self.generation,
            task: self.task@,
            phase: self.phase@,
        }
    }
}

impl DeepView for TaskFlow {
    type V = TaskFlowView;

    open spec fn deep_view(&self) -> TaskFlowView {
        self@
    }
}

/// How many rooms a search of the directory asks for at a time.
pub const SEARCH_BATCH: u32 = 10;

/// How many rooms of a search are reported.
pub const SEARCH_LIMIT: usize = 12;

/// How many messages a room's history is loaded with.
pub const HISTORY_LIMIT: u32 = 200;

/// What a task waits for next and the steps to take until then.
#[verifier::ext_equal]
pub struct TaskTurn {
    pub phase: TaskPhaseView,
    pub steps: Seq<CommandView>,
}

/// The end of a task.
pub open spec fn ending(reason: StopReason) -> TaskTurn {
    TaskTurn { phase: TaskPhaseView::Stopped, steps: seq![CommandView::Stop { reason }] }
}

/// The end of a task with a last step.
pub open spec fn ending_with(step: CommandView, reason: StopReason) -> TaskTurn {
    TaskTurn { phase: TaskPhaseView::Stopped, steps: seq![step, CommandView::Stop { reason }] }
}

/// The end of a task with a report.
pub open spec fn ending_in(event: MatrixBridgeEventView) -> TaskTurn {
    ending_with(CommandView::Emit { event }, StopReason::Finished)
}

/// A turn that asks one question.
pub open spec fn wondering(phase: TaskPhaseView, step: CommandView) -> TaskTurn {
    TaskTurn { phase, steps: seq![step] }
}

/// What follows once the client is there.
pub open spec fn client_turn(generation: u64, task: TaskView) -> TaskTurn {
    match task {
        TaskView::DirectChat { user_id } => if user_id_fault(user_id) is None {
            wondering(
                TaskPhaseView::Creating,
                CommandView::CreateRoom { name: None, is_direct: true, invite: Some(user_id) },
            )
        } else {
            ending(StopReason::InvalidUserId)
        },
        TaskView::NewRoom { name } => wondering(
            TaskPhaseView::Creating,
            CommandView::CreateRoom { name: Some(name), is_direct: false, invite: None },
        ),
        TaskView::Search { query } => if trimmed(query).len() == 0 {
            ending_in(
                MatrixBridgeEventView::PublicRoomsDiscovered { generation, rooms: Seq::empty() },
            )
        } else {
            wondering(
                TaskPhaseView::Searching,
                CommandView::SearchDirectory { query: trimmed(query), batch: SEARCH_BATCH },
            )
        },
        TaskView::Join { input } => if room_alias_of(input).len() == 0 {
            ending(StopReason::EmptyRoomAlias)
        } else if room_or_alias_fault(room_alias_of(input)) is None {
            wondering(
                TaskPhaseView::Joining,
                CommandView::JoinRoom { room: room_alias_of(input) },
            )
        } else {
            ending(StopReason::InvalidRoomAlias)
        },
        TaskView::History { room_id }
        | TaskView::SendText { room_id, .. }
        | TaskView::SendFile { room_id, .. }
        | TaskView::Leave { room_id } => if room_id_fault(room_id) is None {
            wondering(TaskPhaseView::FindingRoom, CommandView::FindRoom { room_id })
        } else {
            ending(StopReason::InvalidRoomId)
        },
        TaskView::Respond { user_id, flow_id, .. } => if user_id_fault(user_id) is None {
            wondering(
                TaskPhaseView::FindingVerification,
                CommandView::FindVerification { user_id, flow_id },
            )
        } else {
            ending(StopReason::InvalidUserId)
        },
        TaskView::VerifySession => wondering(
            TaskPhaseView::CheckingLogin,
            CommandView::AskLoggedIn,
        ),
        TaskView::AnswerRequest { .. } => ending(StopReason::Unexpected),
    }
}

/// What follows once the room is found.
pub open spec fn room_turn(task: TaskView) -> TaskTurn {
    match task {
        TaskView::History { .. } => wondering(
            TaskPhaseView::LoadingMessages,
            CommandView::LoadMessages { limit: HISTORY_LIMIT },
        ),
        TaskView::SendText { .. } => wondering(TaskPhaseView::Identifying, CommandView::AskSelf),
        TaskView::SendFile { .. } => wondering(
            TaskPhaseView::ReadingFile,
            CommandView::ReadAttachment,
        ),
        TaskView::Leave { .. } => ending_with(CommandView::LeaveRoom, StopReason::Finished),
        _ => ending(StopReason::Unexpected),
    }
}

/// The message that shows what was sent until the server returns it: it has no event id yet.
pub open spec fn local_echo(
    room_id: Seq<char>,
    user_id: Option<Seq<char>>,
    body: Seq<char>,
    now: u64,
) -> MatrixMessageView {
    MatrixMessageView {
        room_id,
        sender: match user_id {
            Some(user_id) => user_id,
            None => "you"@,
        },
        body,
        timestamp: now,
        event_id: None,
    }
}

/// What follows once it is known who sends, and when: the message is shown, then sent.
pub open spec fn send_turn(
    generation: u64,
    task: TaskView,
    user_id: Option<Seq<char>>,
    now: u64,
) -> TaskTurn {
    match task {
        TaskView::SendText { room_id, text } => TaskTurn {
            phase: TaskPhaseView::Stopped,
            steps: seq![
                CommandView::Emit {
                    event: MatrixBridgeEventView::NewMessage {
                        generation,
                        message: local_echo(room_id, user_id, text, now),
                    },
                },
                CommandView::SendText { body: text },
                CommandView::Stop { reason: StopReason::Finished },
            ],
        },
        TaskView::SendFile { room_id, name, content_type, caption } => TaskTurn {
            phase: TaskPhaseView::Stopped,
            steps: seq![
                CommandView::Emit {
                    event: MatrixBridgeEventView::NewMessage {
                        generation,
                        message: local_echo(
                            room_id,
                            user_id,
                            attachment_text(name, caption),
                            now,
                        ),
                    },
                },
                CommandView::SendFile { name, content_type, caption: caption_sent(caption) },
                CommandView::Stop { reason: StopReason::Finished },
            ],
        },
        _ => ending(StopReason::Unexpected),
    }
}

/// The first place in `ids` that does not hold `own`.
pub open spec fn first_other(ids: Seq<Seq<char>>, own: Seq<char>) -> Option<usize>
    decreases ids.len(),
{
    if ids.len() == 0 {
        None
    } else {
        match first_other(ids.drop_last(), own) {
            Some(i) => Some(i),
            None => if ids.last() != own {
                Some((ids.len() - 1) as usize)
            } else {
                None
            },
        }
    }
}

/// What follows once the devices of the user are known.
pub open spec fn devices_turn(ids: Option<Seq<Seq<char>>>, own: Seq<char>) -> TaskTurn {
    match ids {
        None => ending(StopReason::RequestFailed),
        Some(ids) => match first_other(ids, own) {
            Some(device) => wondering(
                TaskPhaseView::Requesting,
                CommandView::RequestVerification { device },
            ),
            None => ending(StopReason::NoOtherDevice),
        },
    }
}

/// What follows the rooms that a search found.
pub open spec fn found_turn(
    generation: u64,
    result: Result<Seq<PublicRoomSearchResultView>, Seq<char>>,
) -> TaskTurn {
    match result {
        Ok(rooms) => wondering(
            TaskPhaseView::SearchGate {
                rooms: if rooms.len() > SEARCH_LIMIT {
                    rooms.take(SEARCH_LIMIT as int)
                } else {
                    rooms
                },
            },
            CommandView::ReadGeneration,
        ),
        Err(error) => ending_with(
            CommandView::Emit {
                event: MatrixBridgeEventView::ConnectionFailed { generation, error },
            },
            StopReason::RequestFailed,
        ),
    }
}

/// What follows the answer yes or no.
pub open spec fn flag_turn(flow: TaskFlowView, yes: bool) -> TaskTurn {
    match flow.phase {
        TaskPhaseView::TakingClient => if yes {
            client_turn(flow.generation, flow.task)
        } else {
            ending(StopReason::NoClient)
        },
        TaskPhaseView::Creating | TaskPhaseView::Joining => if yes {
            wondering(TaskPhaseView::Refreshing, CommandView::CollectRooms)
        } else {
            ending(StopReason::RequestFailed)
        },
        TaskPhaseView::FindingRoom => if yes {
            room_turn(flow.task)
        } else {
            ending(StopReason::RoomNotFound)
        },
        TaskPhaseView::ReadingFile => if yes {
            wondering(TaskPhaseView::Identifying, CommandView::AskSelf)
        } else {
            ending(StopReason::FileUnreadable)
        },
        TaskPhaseView::FindingVerification => if yes {
            match flow.task {
                TaskView::Respond { confirm, .. } => ending_with(
                    if confirm {
                        CommandView::ConfirmVerification
                    } else {
                        CommandView::RejectVerification
                    },
                    StopReason::Finished,
                ),
                _ => ending(StopReason::Unexpected),
            }
        } else {
            ending(StopReason::FlowNotFound)
        },
        TaskPhaseView::CheckingLogin => if yes {
            wondering(TaskPhaseView::NamingUser, CommandView::AskUserId)
        } else {
            ending(StopReason::NotLoggedIn)
        },
        TaskPhaseView::Requesting => if yes {
            ending(StopReason::Unexpected)
        } else {
            ending(StopReason::RequestFailed)
        },
        TaskPhaseView::FindingRequest => if yes {
            ending(StopReason::Unexpected)
        } else {
            ending(StopReason::FlowNotFound)
        },
        TaskPhaseView::Accepting => if yes {
            match flow.task {
                TaskView::AnswerRequest { user_id, flow_id } => wondering(
                    TaskPhaseView::StartingSas { user_id, flow_id },
                    CommandView::StartSas,
                ),
                _ => ending(StopReason::Unexpected),
            }
        } else {
            ending(StopReason::RequestFailed)
        },
        TaskPhaseView::StartingSas { user_id, flow_id } => if yes {
            ending_with(CommandView::WatchSas { user_id, flow_id }, StopReason::Finished)
        } else {
            ending(StopReason::RequestFailed)
        },
        _ => ending(StopReason::Unexpected),
    }
}

/// What follows the answer `reply`.
pub open spec fn task_turn(flow: TaskFlowView, reply: ReplyView) -> TaskTurn {
    let generation = flow.generation;
    match (flow.phase, reply) {
        (_, ReplyView::Flag { yes }) => flag_turn(flow, yes),
        (TaskPhaseView::Refreshing, ReplyView::Rooms { rooms }) => ending_in(
            MatrixBridgeEventView::SyncRooms { generation, rooms: listed_rooms(rooms) },
        ),
        (TaskPhaseView::Searching, ReplyView::Found { result }) => found_turn(generation, result),
        (TaskPhaseView::SearchGate { rooms }, ReplyView::Generation { current }) => {
            if current == generation {
                ending_in(MatrixBridgeEventView::PublicRoomsDiscovered { generation, rooms })
            } else {
                ending(StopReason::Superseded)
            }
        },
        (TaskPhaseView::LoadingMessages, ReplyView::Timeline { events }) => {
            match (flow.task, events) {
                (TaskView::History { room_id }, Some(texts)) => ending_in(
                    MatrixBridgeEventView::RoomHistory {
                        generation,
                        room_id,
                        messages: messages_of(room_id, events_of_json(texts)),
                    },
                ),
                (TaskView::History { .. }, None) => ending(StopReason::RequestFailed),
                _ => ending(StopReason::Unexpected),
            }
        },
        (TaskPhaseView::Identifying, ReplyView::Identity { user_id, now }) => send_turn(
            generation,
            flow.task,
            user_id,
            now,
        ),
        (TaskPhaseView::NamingUser, ReplyView::Text { text }) => if text is Some {
            wondering(TaskPhaseView::NamingDevice, CommandView::AskDeviceId)
        } else {
            ending(StopReason::NoUserId)
        },
        (TaskPhaseView::NamingDevice, ReplyView::Text { text }) => match text {
            Some(own) => wondering(
                TaskPhaseView::ListingDevices { own },
                CommandView::ListDevices,
            ),
            None => ending(StopReason::NoDeviceId),
        },
        (TaskPhaseView::ListingDevices { own }, ReplyView::Devices { ids }) => devices_turn(
            ids,
            own,
        ),
        (TaskPhaseView::Requesting, ReplyView::Requested { user_id, flow_id }) => wondering(
            TaskPhaseView::StartingSas { user_id, flow_id },
            CommandView::StartSas,
        ),
        (
            TaskPhaseView::FindingRequest,
            ReplyView::RequestState { done, cancelled, we_started },
        ) => if done || cancelled || we_started {
            ending(StopReason::NothingToAnswer)
        } else {
            wondering(TaskPhaseView::Accepting, CommandView::AcceptVerification)
        },
        _ => ending(StopReason::Unexpected),
    }
}

/// The task after the answer `reply`.
pub open spec fn task_after(flow: TaskFlowView, reply: ReplyView) -> TaskFlowView {
    TaskFlowView { phase: task_turn(flow, reply).phase, ..flow }
}

/// The beginning of a task.
pub open spec fn task_begun(generation: u64, task: TaskView) -> TaskFlowView {
    TaskFlowView {
        generation,
        task,
        phase: if task is AnswerRequest {
            TaskPhaseView::FindingRequest
        } else {
            TaskPhaseView::TakingClient
        },
    }
}

/// The first steps of a task.
pub open spec fn task_start(task: TaskView) -> Seq<CommandView> {
    match task {
        TaskView::AnswerRequest { user_id, flow_id } => seq![
            CommandView::FindVerificationRequest { user_id, flow_id },
        ],
        _ => seq![CommandView::TakeClient],
    }
}

/// What a task waits for next and the steps to take until then.
struct Turn {
    phase: TaskPhase,
    steps: Vec<Command>,
}

impl View for Turn {
    type V = TaskTurn;

    closed spec fn view(&self) -> TaskTurn {
        TaskTurn { phase: self.phase@, steps: self.steps.deep_view() }
    }
}

fn end(reason: StopReason) -> (r: Turn)
    ensures
        r@ == ending(reason),
{
    let r = Turn { phase: TaskPhase::Stopped, steps: vec![Command::Stop { reason }] };
    assert(r@.steps =~= ending(reason).steps);
    r
}

fn end_with(step: Command, reason: StopReason) -> (r: Turn)
    ensures
        r@ == ending_with(step@, reason),
{
    let r = Turn { phase: TaskPhase::Stopped, steps: vec![step, Command::Stop { reason }] };
    assert(r@.steps =~= ending_with(step@, reason).steps);
    r
}

fn end_in(event: MatrixBridgeEvent) -> (r: Turn)
    ensures
        r@ == ending_in(event@),
{
    end_with(Command::Emit { event }, StopReason::Finished)
}

fn wonder(phase: TaskPhase, step: Command) -> (r: Turn)
    ensures
        r@ == wondering(phase@, step@),
{
    let r = Turn { phase, steps: vec![step] };
    assert(r@.steps =~= wondering(phase@, step@).steps);
    r
}

fn take_client(generation: u64, task: &Task) -> (r: Turn)
    ensures
        r@ == client_turn(generation, task@),
{
    match task {
        Task::DirectChat { user_id } => if is_user_id(user_id.as_str()) {
            wonder(
                TaskPhase::Creating,
                Command::CreateRoom { name: None, is_direct: true, invite: Some(user_id.clone()) },
            )
        } else {
            end(StopReason::InvalidUserId)
        },
        Task::NewRoom { name } => wonder(
            TaskPhase::Creating,
            Command::CreateRoom { name: Some(name.clone()), is_direct: false, invite: None },
        ),
        Task::Search { query } => {
            let wanted = trim(query.as_str());
            if wanted.unicode_len() == 0 {
                let rooms: Vec<PublicRoomSearchResult> = Vec::new();
                assert(rooms.deep_view() =~= Seq::<PublicRoomSearchResultView>::empty());
                end_in(MatrixBridgeEvent::PublicRoomsDiscovered { generation, rooms })
            } else {
                wonder(
                    TaskPhase::Searching,
                    Command::SearchDirectory { query: wanted.to_owned(), batch: SEARCH_BATCH },
                )
            }
        },
        Task::Join { input } => {
            let room = normalize_room_alias(input.as_str());
            if room.as_str().unicode_len() == 0 {
                end(StopReason::EmptyRoomAlias)
            } else if is_room_or_alias_id(room.as_str()) {
                wonder(TaskPhase::Joining, Command::JoinRoom { room })
            } else {
                end(StopReason::InvalidRoomAlias)
            }
        },
        Task::History { room_id } => find_room(room_id),
        Task::SendText { room_id, .. } => find_room(room_id),
        Task::SendFile { room_id, .. } => find_room(room_id),
        Task::Leave { room_id } => find_room(room_id),
        Task::Respond { user_id, flow_id, .. } => if is_user_id(user_id.as_str()) {
            wonder(
                TaskPhase::FindingVerification,
                Command::FindVerification { user_id: user_id.clone(), flow_id: flow_id.clone() },
            )
        } else {
            end(StopReason::InvalidUserId)
        },
        Task::VerifySession => wonder(TaskPhase::CheckingLogin, Command::AskLoggedIn),
        Task::AnswerRequest { .. } => end(StopReason::Unexpected),
    }
}

fn find_room(room_id: &String) -> (r: Turn)
    ensures
        r@ == (if room_id_fault(room_id@) is None {
            wondering(TaskPhaseView::FindingRoom, CommandView::FindRoom { room_id: room_id@ })
        } else {
            ending(StopReason::InvalidRoomId)
        }),
{
    if is_room_id(room_id.as_str()) {
        wonder(TaskPhase::FindingRoom, Command::FindRoom { room_id: room_id.clone() })
    } else {
        end(StopReason::InvalidRoomId)
    }
}

fn room_found(task: &Task) -> (r: Turn)
    ensures
        r@ == room_turn(task@),
{
    match task {
        Task::History { .. } => wonder(
            TaskPhase::LoadingMessages,
            Command::LoadMessages { limit: HISTORY_LIMIT },
        ),
        Task::SendText { .. } => wonder(TaskPhase::Identifying, Command::AskSelf),
        Task::SendFile { .. } => wonder(TaskPhase::ReadingFile, Command::ReadAttachment),
        Task::Leave { .. } => end_with(Command::LeaveRoom, StopReason::Finished),
        _ => end(StopReason::Unexpected),
    }
}

/// The message that shows what was sent until the server returns it.
pub fn echo_message(room_id: &str, user_id: Option<String>, body: String, now: u64) -> (r:
    MatrixMessage)
    ensures
        r@ == local_echo(room_id@, user_id.deep_view(), body@, now),
{
    let sender = match user_id {
        Some(user_id) => user_id,
        None => "you".to_owned(),
    };
    MatrixMessage { room_id: room_id.to_owned(), sender, body, timestamp: now, event_id: None }
}

fn send(generation: u64, task: &Task, user_id: Option<String>, now: u64) -> (r: Turn)
    ensures
        r@ == send_turn(generation, task@, user_id.deep_view(), now),
{
    let ghost turn = send_turn(generation, task@, user_id.deep_view(), now);
    match task {
        Task::SendText { room_id, text } => {
            let message = echo_message(room_id.as_str(), user_id, text.clone(), now);
            let r = Turn {
                phase: TaskPhase::Stopped,
                steps: vec![
                    Command::Emit { event: MatrixBridgeEvent::NewMessage { generation, message } },
                    Command::SendText { body: text.clone() },
                    Command::Stop { reason: StopReason::Finished },
                ],
            };
            assert(r@.steps =~= turn.steps);
            r
        },
        Task::SendFile { room_id, name, content_type, caption } => {
            let body = attachment_body(name.as_str(), caption);
            let message = echo_message(room_id.as_str(), user_id, body, now);
            let r = Turn {
                phase: TaskPhase::Stopped,
                steps: vec![
                    Command::Emit { event: MatrixBridgeEvent::NewMessage { generation, message } },
                    Command::SendFile {
                        name: name.clone(),
                        content_type: content_type.clone(),
                        caption: caption_to_send(caption.clone()),
                    },
                    Command::Stop { reason: StopReason::Finished },
                ],
            };
            assert(r@.steps =~= turn.steps);
            r
        },
        _ => end(StopReason::Unexpected),
    }
}

/// The first place in `ids` that does not hold `own`.
pub fn first_other_device(ids: &Vec<String>, own: &str) -> (r: Option<usize>)
    ensures
        r == first_other(ids.deep_view(), own@),
{
    let ghost all = ids.deep_view();
    let mut i: usize = 0;
    while i < ids.len()
        invariant
            i <= ids.len(),
            all == ids.deep_view(),
            first_other(all.take(i as int), own@) is None,
        decreases ids.len() - i,
    {
        assert(all.take(i + 1).drop_last() =~= all.take(i as int));
        assert(all.take(i + 1).last() == ids[i as int]@);
        if !same_text(ids[i].as_str(), own) {
            proof {
                lemma_first_other_prefix(all, own@, i + 1);
            }
            return Some(i);
        }
        i = i + 1;
    }
    assert(all.take(all.len() as int) =~= all);
    None
}

proof fn lemma_first_other_prefix(ids: Seq<Seq<char>>, own: Seq<char>, n: int)
    requires
        0 <= n <= ids.len(),
        first_other(ids.take(n), own) is Some,
    ensures
        first_other(ids, own) == first_other(ids.take(n), own),
    decreases ids.len() - n,
{
    if n < ids.len() {
        assert(ids.take(n + 1).drop_last() =~= ids.take(n));
        lemma_first_other_prefix(ids, own, n + 1);
    } else {
        assert(ids.take(n) =~= ids);
    }
}

fn devices_listed(ids: Option<Vec<String>>, own: &str) -> (r: Turn)
    ensures
        r@ == devices_turn(ids.deep_view(), own@),
{
    match ids {
        None => end(StopReason::RequestFailed),
        Some(ids) => match first_other_device(&ids, own) {
            Some(device) => wonder(TaskPhase::Requesting, Command::RequestVerification { device }),
            None => end(StopReason::NoOtherDevice),
        },
    }
}

fn rooms_found(generation: u64, result: Result<Vec<PublicRoomSearchResult>, String>) -> (r: Turn)
    ensures
        r@ == found_turn(generation, found_rooms(result)),
{
    match result {
        Ok(rooms) => {
            let ghost all = rooms.deep_view();
            let mut rooms = rooms;
            if rooms.len() > SEARCH_LIMIT {
                rooms.truncate(SEARCH_LIMIT);
                assert(rooms.deep_view() =~= all.take(SEARCH_LIMIT as int));
            }
            wonder(TaskPhase::SearchGate { rooms }, Command::ReadGeneration)
        },
        Err(error) => end_with(
            Command::Emit { event: MatrixBridgeEvent::ConnectionFailed { generation, error } },
            StopReason::RequestFailed,
        ),
    }
}

fn flag_given(generation: u64, task: &Task, phase: TaskPhase, yes: bool) -> (r: Turn)
    ensures
        r@ == flag_turn(TaskFlowView { generation, task: task@, phase: phase@ }, yes),
{
    match phase {
        TaskPhase::TakingClient => if yes {
            take_client(generation, task)
        } else {
            end(StopReason::NoClient)
        },
        TaskPhase::Creating => if yes {
            wonder(TaskPhase::Refreshing, Command::CollectRooms)
        } else {
            end(StopReason::RequestFailed)
        },
        TaskPhase::Joining => if yes {
            wonder(TaskPhase::Refreshing, Command::CollectRooms)
        } else {
            end(StopReason::RequestFailed)
        },
        TaskPhase::FindingRoom => if yes {
            room_found(task)
        } else {
            end(StopReason::RoomNotFound)
        },
        TaskPhase::ReadingFile => if yes {
            wonder(TaskPhase::Identifying, Command::AskSelf)
        } else {
            end(StopReason::FileUnreadable)
        },
        TaskPhase::FindingVerification => if yes {
            match task {
                Task::Respond { confirm, .. } => if *confirm {
                    end_with(Command::ConfirmVerification, StopReason::Finished)
                } else {
                    end_with(Command::RejectVerification, StopReason::Finished)
                },
                _ => end(StopReason::Unexpected),
            }
        } else {
            end(StopReason::FlowNotFound)
        },
        TaskPhase::CheckingLogin => if yes {
            wonder(TaskPhase::NamingUser, Command::AskUserId)
        } else {
            end(StopReason::NotLoggedIn)
        },
        TaskPhase::Requesting => if yes {
            end(StopReason::Unexpected)
        } else {
            end(StopReason::RequestFailed)
        },
        TaskPhase::FindingRequest => if yes {
            end(StopReason::Unexpected)
        } else {
            end(StopReason::FlowNotFound)
        },
        TaskPhase::Accepting => if yes {
            match task {
                Task::AnswerRequest { user_id, flow_id } => wonder(
                    TaskPhase::StartingSas { user_id: user_id.clone(), flow_id: flow_id.clone() },
                    Command::StartSas,
                ),
                _ => end(StopReason::Unexpected),
            }
        } else {
            end(StopReason::RequestFailed)
        },
        TaskPhase::StartingSas { user_id, flow_id } => if yes {
            end_with(Command::WatchSas { user_id, flow_id }, StopReason::Finished)
        } else {
            end(StopReason::RequestFailed)
        },
        _ => end(StopReason::Unexpected),
    }
}

impl TaskFlow {
    /// A task, and its first steps.
    pub fn begin(generation: u64, task: Task) -> (r: (TaskFlow, Vec<Command>))
        ensures
            r.0@ == task_begun(generation, task@),
            r.1.deep_view() == task_start(task@),
    {
        let (phase, steps) = match &task {
            Task::AnswerRequest { user_id, flow_id } => (
                TaskPhase::FindingRequest,
                vec![
                    Command::FindVerificationRequest {
                        user_id: user_id.clone(),
                        flow_id: flow_id.clone(),
                    },
                ],
            ),
            _ => (TaskPhase::TakingClient, vec![Command::TakeClient]),
        };
        assert(steps.deep_view() =~= task_start(task@));
        (TaskFlow { generation, task, phase }, steps)
    }

    /// Takes the answer to the last step and gives the next steps.
    pub fn step(&mut self, reply: Reply) -> (r: Vec<Command>)
        ensures
            final(self)@ == task_after(old(self)@, reply@),
            r.deep_view() == task_turn(old(self)@, reply@).steps,
    {
        let generation: u64 = self.generation;
        let mut phase = TaskPhase::Stopped;
        std::mem::swap(&mut phase, &mut self.phase);
        let turn = match (phase, reply) {
            (phase, Reply::Flag { yes }) => flag_given(generation, &self.task, phase, yes),
            (TaskPhase::Refreshing, Reply::Rooms { rooms }) => end_in(
                MatrixBackend::refresh_joined_rooms(generation, rooms),
            ),
            (TaskPhase::Searching, Reply::Found { result }) => rooms_found(generation, result),
            (TaskPhase::SearchGate { rooms }, Reply::Generation { current }) => {
                if current == generation {
                    end_in(MatrixBridgeEvent::PublicRoomsDiscovered { generation, rooms })
                } else {
                    end(StopReason::Superseded)
                }
            },
            (TaskPhase::LoadingMessages, Reply::Timeline { events }) => match (&self.task, events) {
                (Task::History { room_id }, Some(texts)) => {
                    let messages = history_from_json(room_id.as_str(), texts);
                    end_in(
                        MatrixBridgeEvent::RoomHistory {
                            generation,
                            room_id: room_id.clone(),
                            messages,
                        },
                    )
                },
                (Task::History { .. }, None) => end(StopReason::RequestFailed),
                _ => end(StopReason::Unexpected),
            },
            (TaskPhase::Identifying, Reply::Identity { user_id, now }) => send(
                generation,
                &self.task,
                user_id,
                now,
            ),
            (TaskPhase::NamingUser, Reply::Text { text }) => if text.is_some() {
                wonder(TaskPhase::NamingDevice, Command::AskDeviceId)
            } else {
                end(StopReason::NoUserId)
            },
            (TaskPhase::NamingDevice, Reply::Text { text }) => match text {
                Some(own) => wonder(TaskPhase::ListingDevices { own }, Command::ListDevices),
                None => end(StopReason::NoDeviceId),
            },
            (TaskPhase::ListingDevices { own }, Reply::Devices { ids }) => devices_listed(
                ids,
                own.as_str(),
            ),
            (TaskPhase::Requesting, Reply::Requested { user_id, flow_id }) => wonder(
                TaskPhase::StartingSas { user_id, flow_id },
                Command::StartSas,
            ),
            (
                TaskPhase::FindingRequest,
                Reply::RequestState { done, cancelled, we_started },
            ) => if done || cancelled || we_started {
                end(StopReason::NothingToAnswer)
            } else {
                wonder(TaskPhase::Accepting, Command::AcceptVerification)
            },
            _ => end(StopReason::Unexpected),
        };
        self.phase = turn.phase;
        turn.steps
    }
}

impl MatrixBackend {
    /// The event that reports the joined rooms.
    pub fn refresh_joined_rooms(generation: u64, joined: Vec<JoinedRoom>) -> (r: MatrixBridgeEvent)
        ensures
            r@ == (MatrixBridgeEventView::SyncRooms {
                generation,
                rooms: listed_rooms(joined.deep_view()),
            }),
    {
        MatrixBridgeEvent::SyncRooms { generation, rooms: Self::collect_joined_rooms(joined) }
    }
}

} // verus!

