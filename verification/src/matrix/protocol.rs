//! What background tasks ask for and what they are answered.

use super::rooms::{JoinedRoom, JoinedRoomView};
use super::session::{SavedSession, SavedSessionView};
use super::types::{
    outcome, MatrixBridgeEvent, MatrixBridgeEventView, PublicRoomSearchResult,
    PublicRoomSearchResultView,
};
use vstd::prelude::*;

verus! {

/// Why a task ended.
#[derive(Clone, Copy, Debug, PartialEq, Eq, Structural)]
pub enum StopReason {
    /// All is done.
    Finished,
    /// There is no client.
    NoClient,
    /// There is no saved session.
    NoSession,
    /// A failure was reported.
    ConnectionFailed,
    /// A later sync generation has begun.
    Superseded,
    /// A user id is invalid.
    InvalidUserId,
    /// A room id is invalid.
    InvalidRoomId,
    /// A room id or alias is empty.
    EmptyRoomAlias,
    /// A room id or alias is invalid.
    InvalidRoomAlias,
    /// The room is not there.
    RoomNotFound,
    /// The file cannot be read.
    FileUnreadable,
    /// The server refused, or could not be reached.
    RequestFailed,
    /// The client is not logged in.
    NotLoggedIn,
    /// The user id of the session is not known.
    NoUserId,
    /// The device id of the session is not known.
    NoDeviceId,
    /// The user has no other device.
    NoOtherDevice,
    /// The verification is not there.
    FlowNotFound,
    /// The verification request needs no answer.
    NothingToAnswer,
    /// The answer was to another question.
    Unexpected,
}

/// The contents of what a search found, or of the message why it failed.
pub open spec fn found_rooms(r: Result<Vec<PublicRoomSearchResult>, String>) -> Result<
    Seq<PublicRoomSearchResultView>,
    Seq<char>,
> {
    match r {
        Ok(rooms) => Ok(rooms.deep_view()),
        Err(error) => Err(error@),
    }
}

/// A step of a background task. Tasks run their steps in order; the answer to the last one decides
/// how they go on.
#[allow(inconsistent_fields)]
pub enum Command {
    /// Takes the client of the session. Answered by a flag: whether there is one.
    TakeClient,
    /// Reads the session file. Answered by its text, if it can be read.
    ReadSessionFile,
    /// Builds a client over the store. Answered by the outcome.
    BuildClient { server_name: String },
    /// Makes the store ready for another account.
    ResetStore,
    /// Forgets the saved session.
    ClearSession,
    /// Lets the client load and save its session in the session file.
    SetSessionCallbacks,
    /// Restores a session. Answered by the outcome.
    RestoreSession { session: SavedSession },
    /// Asks whether the client is logged in. Answered by a flag.
    AskLoggedIn,
    /// Logs in with a password. Answered by the outcome.
    LogIn { localpart: String, password: String, device_name: String },
    /// Logs in through the browser. Answered by the outcome.
    LogInWithBrowser { device_name: String },
    /// Asks whether cross-signing is set up completely. Answered by a flag.
    AskCrossSigning,
    /// Sets up cross-signing. Answered by a flag: whether it worked.
    BootstrapCrossSigning,
    /// Logs the client out.
    LogOut,
    /// Handles the verification requests of other devices from now on.
    HandleVerificationRequests,
    /// Saves the session in the session file.
    PersistSession,
    /// Makes this client the client of the session.
    KeepClient,
    /// Reports arriving messages from now on, with their time in seconds or in milliseconds.
    ListenForMessages { in_seconds: bool },
    /// Reads the current sync generation. Answered by it.
    ReadGeneration,
    /// Collects the joined rooms. Answered by them.
    CollectRooms,
    /// Reports an event.
    Emit { event: MatrixBridgeEvent },
    /// Syncs once, from where the last sync ended. Answered by a flag: whether it worked.
    SyncOnce,
    /// Waits.
    Sleep { seconds: u64 },
    /// Creates a room. Answered by a flag: whether it worked.
    CreateRoom { name: Option<String>, is_direct: bool, invite: Option<String> },
    /// Joins a room. Answered by a flag: whether it worked.
    JoinRoom { room: String },
    /// Searches the public room directory. Answered by what was found.
    SearchDirectory { query: String, batch: u32 },
    /// Finds a room of the client. Answered by a flag: whether there is one.
    FindRoom { room_id: String },
    /// Loads the last messages of the room found. Answered by the timeline.
    LoadMessages { limit: u32 },
    /// Reads the file to send. Answered by a flag: whether it can be read.
    ReadAttachment,
    /// Asks who sends, and when. Answered by the user id and the time in milliseconds.
    AskSelf,
    /// Sends a text to the room found.
    SendText { body: String },
    /// Sends the file read to the room found.
    SendFile { name: String, content_type: String, caption: Option<String> },
    /// Leaves the room found.
    LeaveRoom,
    /// Finds a running emoji verification. Answered by a flag: whether there is one.
    FindVerification { user_id: String, flow_id: String },
    /// Confirms that the emoji of the verification found match.
    ConfirmVerification,
    /// Reports that the emoji of the verification found do not match.
    RejectVerification,
    /// Asks for the user id of the session. Answered by a text.
    AskUserId,
    /// Asks for the device id of the session. Answered by a text.
    AskDeviceId,
    /// Lists the devices of the user. Answered by their ids, if they can be had.
    ListDevices,
    /// Asks a device of the list to verify this one. Answered by the request, or the flag no.
    RequestVerification { device: usize },
    /// Finds a verification request. Answered by its state, or the flag no.
    FindVerificationRequest { user_id: String, flow_id: String },
    /// Accepts the verification request. Answered by a flag: whether it worked.
    AcceptVerification,
    /// Starts the comparison of emoji. Answered by a flag: whether it worked.
    StartSas,
    /// Watches the comparison of emoji until they are known.
    WatchSas { user_id: String, flow_id: String },
    /// Ends the task.
    Stop { reason: StopReason },
}

/// The contents of a [`Command`].
#[allow(inconsistent_fields)]
#[verifier::ext_equal]
pub enum CommandView {
    TakeClient,
    ReadSessionFile,
    BuildClient { server_name: Seq<char> },
    ResetStore,
    ClearSession,
    SetSessionCallbacks,
    RestoreSession { session: SavedSessionView },
    AskLoggedIn,
    LogIn { localpart: Seq<char>, password: Seq<char>, device_name: Seq<char> },
    LogInWithBrowser { device_name: Seq<char> },
    AskCrossSigning,
    BootstrapCrossSigning,
    LogOut,
    HandleVerificationRequests,
    PersistSession,
    KeepClient,
    ListenForMessages { in_seconds: bool },
    ReadGeneration,
    CollectRooms,
    Emit { event: MatrixBridgeEventView },
    SyncOnce,
    Sleep { seconds: u64 },
    CreateRoom { name: Option<Seq<char>>, is_direct: bool, invite: Option<Seq<char>> },
    JoinRoom { room: Seq<char> },
    SearchDirectory { query: Seq<char>, batch: u32 },
    FindRoom { room_id: Seq<char> },
    LoadMessages { limit: u32 },
    ReadAttachment,
    AskSelf,
    SendText { body: Seq<char> },
    SendFile { name: Seq<char>, content_type: Seq<char>, caption: Option<Seq<char>> },
    LeaveRoom,
    FindVerification { user_id: Seq<char>, flow_id: Seq<char> },
    ConfirmVerification,
    RejectVerification,
    AskUserId,
    AskDeviceId,
    ListDevices,
    RequestVerification { device: usize },
    FindVerificationRequest { user_id: Seq<char>, flow_id: Seq<char> },
    AcceptVerification,
    StartSas,
    WatchSas { user_id: Seq<char>, flow_id: Seq<char> },
    Stop { reason: StopReason },
}

impl View for Command {
    type V = CommandView;

    open spec fn view(&self) -> CommandView {
        match *self {
            Command::TakeClient => CommandView::TakeClient,
            Command::ReadSessionFile => CommandView::ReadSessionFile,
            Command::BuildClient { server_name } => CommandView::BuildClient {
                server_name: server_name@,
            },
            Command::ResetStore => CommandView::ResetStore,
            Command::ClearSession => CommandView::ClearSession,
            Command::SetSessionCallbacks => CommandView::SetSessionCallbacks,
            Command::RestoreSession { session } => CommandView::RestoreSession {
                session: session@,
            },
            Command::AskLoggedIn => CommandView::AskLoggedIn,
            Command::LogIn { localpart, password, device_name } => CommandView::LogIn {
                localpart: localpart@,
                password: password@,
                device_name: device_name@,
            },
            Command::LogInWithBrowser { device_name } => CommandView::LogInWithBrowser {
                device_name: device_name@,
            },
            Command::AskCrossSigning => CommandView::AskCrossSigning,
            Command::BootstrapCrossSigning => CommandView::BootstrapCrossSigning,
            Command::LogOut => CommandView::LogOut,
            Command::HandleVerificationRequests => CommandView::HandleVerificationRequests,
            Command::PersistSession => CommandView::PersistSession,
            Command::KeepClient => CommandView::KeepClient,
            Command::ListenForMessages { in_seconds } => {
                CommandView::ListenForMessages { in_seconds }
            },
            Command::ReadGeneration => CommandView::ReadGeneration,
            Command::CollectRooms => CommandView::CollectRooms,
            Command::Emit { event } => CommandView::Emit { event: event@ },
            Command::SyncOnce => CommandView::SyncOnce,
            Command::Sleep { seconds } => CommandView::Sleep { seconds },
            Command::CreateRoom { name, is_direct, invite } => CommandView::CreateRoom {
                name: name.deep_view(),
                is_direct,
                invite: invite.deep_view(),
            },
            Command::JoinRoom { room } => CommandView::JoinRoom { room: room@ },
            Command::SearchDirectory { query, batch } => CommandView::SearchDirectory {
                query: query@,
                batch,
            },
            Command::FindRoom { room_id } => CommandView::FindRoom { room_id: room_id@ },
            Command::LoadMessages { limit } => CommandView::LoadMessages { limit },
            Command::ReadAttachment => CommandView::ReadAttachment,
            Command::AskSelf => CommandView::AskSelf,
            Command::SendText { body } => CommandView::SendText { body: body@ },
            Command::SendFile { name, content_type, caption } => CommandView::SendFile {
                name: name@,
                content_type: content_type@,
                caption: caption.deep_view(),
            },
            Command::LeaveRoom => CommandView::LeaveRoom,
            Command::FindVerification { user_id, flow_id } => CommandView::FindVerification {
                user_id: user_id@,
                flow_id: flow_id@,
            },
            Command::ConfirmVerification => CommandView::ConfirmVerification,
            Command::RejectVerification => CommandView::RejectVerification,
            Command::AskUserId => CommandView::AskUserId,
            Command::AskDeviceId => CommandView::AskDeviceId,
            Command::ListDevices => CommandView::ListDevices,
            Command::RequestVerification { device } => CommandView::RequestVerification { device },
            Command::FindVerificationRequest { user_id, flow_id } => {
                CommandView::FindVerificationRequest { user_id: user_id@, flow_id: flow_id@ }
            },
            Command::AcceptVerification => CommandView::AcceptVerification,
            Command::StartSas => CommandView::StartSas,
            Command::WatchSas { user_id, flow_id } => CommandView::WatchSas {
                user_id: user_id@,
                flow_id: flow_id@,
            },
            Command::Stop { reason } => CommandView::Stop { reason },
        }
    }
}

impl DeepView for Command {
    type V = CommandView;

    open spec fn deep_view(&self) -> CommandView {
        self@
    }
}

/// The answer to a [`Command`].
#[allow(inconsistent_fields)]
pub enum Reply {
    /// Yes or no.
    Flag { yes: bool },
    /// A text, if there is one.
    Text { text: Option<String> },
    /// Done, or the message why not.
    Outcome { result: Result<(), String> },
    /// The current sync generation.
    Generation { current: u64 },
    /// The joined rooms.
    Rooms { rooms: Vec<JoinedRoom> },
    /// What a search found, or the message why it failed.
    Found { result: Result<Vec<PublicRoomSearchResult>, String> },
    /// The JSON texts of the events of a timeline, if they can be had.
    Timeline { events: Option<Vec<String>> },
    /// Who sends, and when.
    Identity { user_id: Option<String>, now: u64 },
    /// The ids of devices, if they can be had.
    Devices { ids: Option<Vec<String>> },
    /// A verification request that went out.
    Requested { user_id: String, flow_id: String },
    /// How a verification request stands.
    RequestState { done: bool, cancelled: bool, we_started: bool },
}

/// The contents of a [`Reply`].
#[allow(inconsistent_fields)]
#[verifier::ext_equal]
pub enum ReplyView {
    Flag { yes: bool },
    Text { text: Option<Seq<char>> },
    Outcome { result: Result<(), Seq<char>> },
    Generation { current: u64 },
    Rooms { rooms: Seq<JoinedRoomView> },
    Found { result: Result<Seq<PublicRoomSearchResultView>, Seq<char>> },
    Timeline { events: Option<Seq<Seq<char>>> },
    Identity { user_id: Option<Seq<char>>, now: u64 },
    Devices { ids: Option<Seq<Seq<char>>> },
    Requested { user_id: Seq<char>, flow_id: Seq<char> },
    RequestState { done: bool, cancelled: bool, we_started: bool },
}

impl View for Reply {
    type V = ReplyView;

    open spec fn view(&self) -> ReplyView {
        match *self {
            Reply::Flag { yes } => ReplyView::Flag { yes },
            Reply::Text { text } => ReplyView::Text { text: text.deep_view() },
            Reply::Outcome { result } => ReplyView::Outcome { result: outcome(result) },
            Reply::Generation { current } => ReplyView::Generation { current },
            Reply::Rooms { rooms } => ReplyView::Rooms { rooms: rooms.deep_view() },
            Reply::Found { result } => ReplyView::Found { result: found_rooms(result) },
            Reply::Timeline { events } => ReplyView::Timeline { events: events.deep_view() },
            Reply::Identity { user_id, now } => ReplyView::Identity {
                user_id: user_id.deep_view(),
                now,
            },
            Reply::Devices { ids } => ReplyView::Devices { ids: ids.deep_view() },
            Reply::Requested { user_id, flow_id } => ReplyView::Requested {
                user_id: user_id@,
                flow_id: flow_id@,
            },
            Reply::RequestState { done, cancelled, we_started } => ReplyView::RequestState {
                done,
                cancelled,
                we_started,
            },
        }
    }
}

impl DeepView for Reply {
    type V = ReplyView;

    open spec fn deep_view(&self) -> ReplyView {
        self@
    }
}

/// Whether `reply` is an answer of the kind that `step` asks for.
pub open spec fn fits(step: CommandView, reply: ReplyView) -> bool {
    match step {
        CommandView::TakeClient
        | CommandView::AskLoggedIn
        | CommandView::AskCrossSigning
        | CommandView::BootstrapCrossSigning
        | CommandView::SyncOnce
        | CommandView::CreateRoom { .. }
        | CommandView::JoinRoom { .. }
        | CommandView::FindRoom { .. }
        | CommandView::ReadAttachment
        | CommandView::FindVerification { .. }
        | CommandView::AcceptVerification
        | CommandView::StartSas => reply is Flag,
        CommandView::ReadSessionFile
        | CommandView::AskUserId
        | CommandView::AskDeviceId => reply is Text,
        CommandView::BuildClient { .. }
        | CommandView::RestoreSession { .. }
        | CommandView::LogIn { .. }
        | CommandView::LogInWithBrowser { .. } => reply is Outcome,
        CommandView::ReadGeneration => reply is Generation,
        CommandView::CollectRooms => reply is Rooms,
        CommandView::SearchDirectory { .. } => reply is Found,
        CommandView::LoadMessages { .. } => reply is Timeline,
        CommandView::AskSelf => reply is Identity,
        CommandView::ListDevices => reply is Devices,
        CommandView::RequestVerification { .. } => reply is Requested
            || reply == (ReplyView::Flag { yes: false }),
        CommandView::FindVerificationRequest { .. } => reply is RequestState
            || reply == (ReplyView::Flag { yes: false }),
        _ => false,
    }
}

/// Whether `steps` reports the event `event`.
pub open spec fn emits(steps: Seq<CommandView>, event: MatrixBridgeEventView) -> bool {
    steps.contains(CommandView::Emit { event })
}

/// What is reported stands at some place of the steps.
pub proof fn lemma_emitted(steps: Seq<CommandView>, event: MatrixBridgeEventView) -> (i: int)
    requires
        emits(steps, event),
    ensures
        0 <= i < steps.len(),
        steps[i] == (CommandView::Emit { event }),
{
    choose|i: int| 0 <= i < steps.len() && steps[i] == (CommandView::Emit { event })
}

} // verus!
