//! The state of the client and all that changes it.

use super::attachment::{display_name_of, names_file, shown_name, types_file};
use super::history::{merged, with_message};
use super::login::{
    browser_start, password_start, restore_start, LoginFlow,
};
use super::protocol::Command;
use super::rooms::{remove_room, room_ids, rooms_without, unique_rooms};
use super::session::{end_steps, EndStep};
use super::store::{history_of, MessageStore};
use super::tasks::{task_begun, task_start, Task, TaskFlow, TaskView};
use super::types::{
    MatrixBridgeEvent, MatrixBridgeEventView, MatrixMessageView, PendingVerificationChallenge,
    PendingVerificationChallengeView, PublicRoomSearchResult, PublicRoomSearchResultView,
    RoomInfo, RoomInfoView,
};
use crate::text::joined;
use vstd::prelude::*;

verus! {

/// What the client knows. Everything that runs in the background belongs to a sync generation; a
/// later generation outdates it.
pub struct MatrixBackend {
    /// The joined rooms.
    pub rooms: Vec<RoomInfo>,
    /// The messages of the rooms.
    pub messages: MessageStore,
    /// What the last search of the public room directory found.
    pub public_rooms: Vec<PublicRoomSearchResult>,
    /// The verification that waits for the user to compare emoji.
    pub pending_verification: Option<PendingVerificationChallenge>,
    /// How the connection stands, in words.
    pub connection_status: String,
    /// The current sync generation.
    pub sync_generation: u64,
}

/// The contents of a [`MatrixBackend`].
#[verifier::ext_equal]
pub struct BackendView {
    pub rooms: Seq<RoomInfoView>,
    pub messages: Map<Seq<char>, Seq<MatrixMessageView>>,
    pub public_rooms: Seq<PublicRoomSearchResultView>,
    pub pending_verification: Option<PendingVerificationChallengeView>,
    pub connection_status: Seq<char>,
    pub sync_generation: u64,
}

impl View for MatrixBackend {
    type V = BackendView;

    open spec fn view(&self) -> BackendView {
        BackendView {
            rooms: self.rooms.deep_view(),
            messages: self.messages@,
            public_rooms: self.public_rooms.deep_view(),
            pending_verification: self.pending_verification.deep_view(),
            connection_status: self.connection_status@,
            sync_generation: self.sync_generation,
        }
    }
}

/// A client that knows nothing yet.
pub open spec fn offline() -> BackendView {
    BackendView {
        rooms: Seq::empty(),
        messages: Map::empty(),
        public_rooms: Seq::empty(),
        pending_verification: None,
        connection_status: "Offline"@,
        sync_generation: 0,
    }
}

/// The generation that follows `generation`.
pub open spec fn next_generation(generation: u64) -> u64 {
    if generation == u64::MAX {
        0
    } else {
        (generation + 1) as u64
    }
}

/// The client under the next generation.
pub open spec fn outdated(b: BackendView) -> BackendView {
    BackendView { sync_generation: next_generation(b.sync_generation), ..b }
}

/// Whether `event` is of the current generation.
pub open spec fn is_current(b: BackendView, event: MatrixBridgeEventView) -> bool {
    event.generation() == b.sync_generation
}

/// The client after `event`. An event of another generation changes nothing.
pub open spec fn applied(b: BackendView, event: MatrixBridgeEventView) -> BackendView {
    if !is_current(b, event) {
        b
    } else {
        match event {
            MatrixBridgeEventView::Connected { .. } => BackendView {
                connection_status: "Connected"@,
                ..b
            },
            MatrixBridgeEventView::SyncRooms { rooms, .. } => BackendView {
                rooms: unique_rooms(rooms),
                messages: b.messages.restrict(room_ids(unique_rooms(rooms))),
                ..b
            },
            MatrixBridgeEventView::PublicRoomsDiscovered { rooms, .. } => BackendView {
                public_rooms: rooms,
                ..b
            },
            MatrixBridgeEventView::RoomHistory { room_id, messages, .. } => BackendView {
                messages: b.messages.insert(
                    room_id,
                    merged(history_of(b.messages, room_id), messages),
                ),
                ..b
            },
            MatrixBridgeEventView::NewMessage { message, .. } => BackendView {
                messages: b.messages.insert(
                    message.room_id,
                    with_message(history_of(b.messages, message.room_id), message),
                ),
                ..b
            },
            MatrixBridgeEventView::VerificationChallenge { user_id, flow_id, emojis, .. } => {
                BackendView {
                    pending_verification: Some(
                        PendingVerificationChallengeView { user_id, flow_id, emojis },
                    ),
                    ..b
                }
            },
            MatrixBridgeEventView::ConnectionFailed { error, .. } => BackendView {
                pending_verification: None,
                connection_status: "Error: "@ + error,
                ..b
            },
        }
    }
}

/// The client after it left the room `id`.
pub open spec fn left(b: BackendView, id: Seq<char>) -> BackendView {
    BackendView {
        rooms: rooms_without(b.rooms, id),
        messages: b.messages.remove(id),
        ..outdated(b)
    }
}

/// The client after its session ended.
pub open spec fn signed_out(b: BackendView) -> BackendView {
    BackendView {
        rooms: Seq::empty(),
        messages: Map::empty(),
        pending_verification: None,
        connection_status: "Offline"@,
        ..outdated(b)
    }
}

impl MatrixBackend {
    /// A client that knows nothing yet.
    pub fn new() -> (r: MatrixBackend)
        ensures
            r@ == offline(),
    {
        let r = MatrixBackend {
            rooms: Vec::new(),
            messages: MessageStore::new(),
            public_rooms: Vec::new(),
            pending_verification: None,
            connection_status: "Offline".to_owned(),
            sync_generation: 0,
        };
        assert(r@ =~= offline());
        r
    }

    /// Begins the next generation and gives it.
    fn begin_generation(&mut self) -> (r: u64)
        ensures
            final(self)@ == outdated(old(self)@),
            r == final(self)@.sync_generation,
    {
        let next: u64 = if self.sync_generation == u64::MAX {
            0
        } else {
            self.sync_generation + 1
        };
        self.sync_generation = next;
        next
    }

    /// Takes in `event`, and says whether it is to be passed on: one of another generation is not.
    pub fn apply_event(&mut self, event: MatrixBridgeEvent) -> (r: bool)
        ensures
            final(self)@ == applied(old(self)@, event@),
            r == is_current(old(self)@, event@),
    {
        let ghost after = applied(self@, event@);
        let current: u64 = self.sync_generation;
        match event {
            MatrixBridgeEvent::Connected { generation } => {
                if generation != current {
                    return false;
                }
                self.connection_status = "Connected".to_owned();
            },
            MatrixBridgeEvent::SyncRooms { generation, rooms } => {
                if generation != current {
                    return false;
                }
                self.rooms = Self::dedupe_rooms(rooms);
                self.messages.retain_rooms(&self.rooms);
            },
            MatrixBridgeEvent::PublicRoomsDiscovered { generation, rooms } => {
                if generation != current {
                    return false;
                }
                self.public_rooms = rooms;
            },
            MatrixBridgeEvent::RoomHistory { generation, room_id, messages } => {
                if generation != current {
                    return false;
                }
                self.messages.merge(room_id, messages);
            },
            MatrixBridgeEvent::NewMessage { generation, message } => {
                if generation != current {
                    return false;
                }
                self.messages.add(message);
            },
            MatrixBridgeEvent::VerificationChallenge { generation, user_id, flow_id, emojis } => {
                if generation != current {
                    return false;
                }
                self.pending_verification = Some(
                    PendingVerificationChallenge { user_id, flow_id, emojis },
                );
            },
            MatrixBridgeEvent::ConnectionFailed { generation, error } => {
                if generation != current {
                    return false;
                }
                self.pending_verification = None;
                self.connection_status = joined("Error: ", error.as_str());
            },
        }
        assert(self@ =~= after);
        true
    }

    /// Begins a session from the saved one.
    pub fn restore_saved_session(&mut self) -> (r: (LoginFlow, Vec<Command>))
        ensures
            final(self)@ == outdated(old(self)@),
            r.0@ == restore_start(final(self)@.sync_generation).flow,
            r.1.deep_view() == restore_start(final(self)@.sync_generation).steps,
    {
        let generation: u64 = self.begin_generation();
        LoginFlow::restore(generation)
    }

    /// Begins a session with a password.
    pub fn start_sync(&mut self, username_input: String, password: String) -> (r: (
        LoginFlow,
        Vec<Command>,
    ))
        ensures
            final(self)@ == outdated(old(self)@),
            r.0@ == password_start(
                final(self)@.sync_generation,
                username_input@,
                password@,
            ).flow,
            r.1.deep_view() == password_start(
                final(self)@.sync_generation,
                username_input@,
                password@,
            ).steps,
    {
        let generation: u64 = self.begin_generation();
        LoginFlow::with_password(generation, username_input.as_str(), password)
    }

    /// Begins a session through the browser.
    pub fn start_sso_login(&mut self, homeserver: String) -> (r: (LoginFlow, Vec<Command>))
        ensures
            final(self)@ == outdated(old(self)@),
            r.0@ == browser_start(final(self)@.sync_generation, homeserver@).flow,
            r.1.deep_view() == browser_start(final(self)@.sync_generation, homeserver@).steps,
    {
        let generation: u64 = self.begin_generation();
        LoginFlow::with_browser(generation, homeserver.as_str())
    }

    /// Begins a direct chat with a user.
    pub fn create_direct_chat(&self, user_id: String) -> (r: (TaskFlow, Vec<Command>))
        ensures
            r.0@ == task_begun(self@.sync_generation, TaskView::DirectChat { user_id: user_id@ }),
            r.1.deep_view() == task_start(TaskView::DirectChat { user_id: user_id@ }),
    {
        TaskFlow::begin(self.sync_generation, Task::DirectChat { user_id })
    }

    /// Makes a new room.
    pub fn create_room(&self, name: String) -> (r: (TaskFlow, Vec<Command>))
        ensures
            r.0@ == task_begun(self@.sync_generation, TaskView::NewRoom { name: name@ }),
            r.1.deep_view() == task_start(TaskView::NewRoom { name: name@ }),
    {
        TaskFlow::begin(self.sync_generation, Task::NewRoom { name })
    }

    /// Searches the public room directory, under the next generation.
    pub fn search_public_rooms(&mut self, query: String) -> (r: (TaskFlow, Vec<Command>))
        ensures
            final(self)@ == outdated(old(self)@),
            r.0@ == task_begun(final(self)@.sync_generation, TaskView::Search { query: query@ }),
            r.1.deep_view() == task_start(TaskView::Search { query: query@ }),
    {
        let generation: u64 = self.begin_generation();
        TaskFlow::begin(generation, Task::Search { query })
    }

    /// Joins the room that the user means by `input`.
    pub fn join_room_by_id_or_alias(&self, input: String) -> (r: (TaskFlow, Vec<Command>))
        ensures
            r.0@ == task_begun(self@.sync_generation, TaskView::Join { input: input@ }),
            r.1.deep_view() == task_start(TaskView::Join { input: input@ }),
    {
        TaskFlow::begin(self.sync_generation, Task::Join { input })
    }

    /// Loads the last messages of a room.
    pub fn load_room_history(&self, room_id: String) -> (r: (TaskFlow, Vec<Command>))
        ensures
            r.0@ == task_begun(self@.sync_generation, TaskView::History { room_id: room_id@ }),
            r.1.deep_view() == task_start(TaskView::History { room_id: room_id@ }),
    {
        TaskFlow::begin(self.sync_generation, Task::History { room_id })
    }

    /// Sends a text.
    pub fn send_message(&self, room_id: String, text: String) -> (r: (TaskFlow, Vec<Command>))
        ensures
            r.0@ == task_begun(
                self@.sync_generation,
                TaskView::SendText { room_id: room_id@, text: text@ },
            ),
            r.1.deep_view() == task_start(TaskView::SendText { room_id: room_id@, text: text@ }),
    {
        TaskFlow::begin(self.sync_generation, Task::SendText { room_id, text })
    }

    /// Sends the file at `path`. A path that is not portable can have one name on Unix and another
    /// on Windows, and with them two media types.
    pub fn send_attachment(&self, room_id: String, path: &str, caption: Option<String>) -> (r: (
        TaskFlow,
        Vec<Command>,
    ))
        ensures
            r.0@.task matches TaskView::SendFile { room_id: id, name, content_type, caption: c }
                && id == room_id@ && c == caption.deep_view() && names_file(name, path@)
                && types_file(content_type, path@),
            r.0@ == task_begun(self@.sync_generation, r.0@.task),
            r.1.deep_view() == task_start(r.0@.task),
    {
        let name = Self::attachment_display_name(path);
        self.send_named(room_id, Some(name), path, caption)
    }

    /// Sends the file at `path`, where `name` is the last part of its path, if that is text.
    pub fn send_named(
        &self,
        room_id: String,
        name: Option<String>,
        path: &str,
        caption: Option<String>,
    ) -> (r: (TaskFlow, Vec<Command>))
        ensures
            r.0@.task matches TaskView::SendFile { room_id: id, name: n, content_type, caption: c }
                && id == room_id@ && c == caption.deep_view() && n == shown_name(name.deep_view())
                && types_file(content_type, path@),
            r.0@ == task_begun(self@.sync_generation, r.0@.task),
            r.1.deep_view() == task_start(r.0@.task),
    {
        let name = display_name_of(name);
        let content_type = Self::attachment_content_type(path);
        TaskFlow::begin(
            self.sync_generation,
            Task::SendFile { room_id, name, content_type, caption },
        )
    }

    /// Leaves a room: it is forgotten at once, and the next generation begins.
    pub fn leave_room(&mut self, room_id: String) -> (r: (TaskFlow, Vec<Command>))
        ensures
            final(self)@ == left(old(self)@, room_id@),
            r.0@ == task_begun(
                final(self)@.sync_generation,
                TaskView::Leave { room_id: room_id@ },
            ),
            r.1.deep_view() == task_start(TaskView::Leave { room_id: room_id@ }),
    {
        remove_room(&mut self.rooms, room_id.as_str());
        self.messages.remove(room_id.as_str());
        let generation: u64 = self.begin_generation();
        TaskFlow::begin(generation, Task::Leave { room_id })
    }

    /// Confirms that the emoji of a verification match.
    pub fn confirm_verification_challenge(&mut self, user_id: String, flow_id: String) -> (r: (
        TaskFlow,
        Vec<Command>,
    ))
        ensures
            final(self)@ == (BackendView { pending_verification: None, ..old(self)@ }),
            r.0@ == task_begun(
                old(self)@.sync_generation,
                TaskView::Respond { user_id: user_id@, flow_id: flow_id@, confirm: true },
            ),
            r.1.deep_view() == task_start(
                TaskView::Respond { user_id: user_id@, flow_id: flow_id@, confirm: true },
            ),
    {
        self.pending_verification = None;
        TaskFlow::begin(self.sync_generation, Task::Respond { user_id, flow_id, confirm: true })
    }

    /// Reports that the emoji of a verification do not match.
    pub fn mismatch_verification_challenge(&mut self, user_id: String, flow_id: String) -> (r: (
        TaskFlow,
        Vec<Command>,
    ))
        ensures
            final(self)@ == (BackendView { pending_verification: None, ..old(self)@ }),
            r.0@ == task_begun(
                old(self)@.sync_generation,
                TaskView::Respond { user_id: user_id@, flow_id: flow_id@, confirm: false },
            ),
            r.1.deep_view() == task_start(
                TaskView::Respond { user_id: user_id@, flow_id: flow_id@, confirm: false },
            ),
    {
        self.pending_verification = None;
        TaskFlow::begin(self.sync_generation, Task::Respond { user_id, flow_id, confirm: false })
    }

    /// Forgets the verification that waits for the user.
    pub fn dismiss_verification(&mut self)
        ensures
            final(self)@ == (BackendView { pending_verification: None, ..old(self)@ }),
    {
        self.pending_verification = None;
    }

    /// Verifies this device with another one of the user.
    pub fn verify_current_session(&self) -> (r: (TaskFlow, Vec<Command>))
        ensures
            r.0@ == task_begun(self@.sync_generation, TaskView::VerifySession),
            r.1.deep_view() == task_start(TaskView::VerifySession),
    {
        TaskFlow::begin(self.sync_generation, Task::VerifySession)
    }

    /// Answers a verification request that came in under `generation`.
    pub fn answer_verification_request(generation: u64, user_id: String, flow_id: String) -> (r: (
        TaskFlow,
        Vec<Command>,
    ))
        ensures
            r.0@ == task_begun(
                generation,
                TaskView::AnswerRequest { user_id: user_id@, flow_id: flow_id@ },
            ),
            r.1.deep_view() == task_start(
                TaskView::AnswerRequest { user_id: user_id@, flow_id: flow_id@ },
            ),
    {
        TaskFlow::begin(generation, Task::AnswerRequest { user_id, flow_id })
    }

    /// Ends the session and gives the steps that end it outside: the saved session is forgotten
    /// and the client is let go of. `exists` says whether the store is there.
    pub fn logout(&mut self, exists: bool) -> (r: Vec<EndStep>)
        ensures
            final(self)@ == signed_out(old(self)@),
            r.deep_view() == end_steps(exists),
    {
        let _ = self.begin_generation();
        self.rooms = Vec::new();
        self.messages = MessageStore::new();
        self.pending_verification = None;
        self.connection_status = "Offline".to_owned();
        assert(self@ =~= signed_out(old(self)@));
        Self::end_session_state(exists)
    }

    /// Ends a session whose encryption went stale, as a logout does.
    pub fn reset_stale_encryption_session(&mut self, exists: bool) -> (r: Vec<EndStep>)
        ensures
            final(self)@ == signed_out(old(self)@),
            r.deep_view() == end_steps(exists),
    {
        self.logout(exists)
    }
}

} // verus!
