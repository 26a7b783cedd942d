//! The data that the client keeps and the events that change it.

use vstd::prelude::*;

verus! {

/// What an attempt came to: done, or the message why not.
pub open spec fn outcome(r: Result<(), String>) -> Result<(), Seq<char>> {
    match r {
        Ok(_) => Ok(()),
        Err(error) => Err(error@),
    }
}

/// The contents of a text or of the message why there is none.
pub open spec fn text_view(r: Result<String, String>) -> Result<Seq<char>, Seq<char>> {
    match r {
        Ok(text) => Ok(text@),
        Err(error) => Err(error@),
    }
}

/// A joined room as the sidebar lists it.
#[derive(Debug)]
pub struct RoomInfo {
    pub id: String,
    pub display_name: String,
    pub is_direct: bool,
}

/// The contents of a [`RoomInfo`].
#[verifier::ext_equal]
pub struct RoomInfoView {
    pub id: Seq<char>,
    pub display_name: Seq<char>,
    pub is_direct: bool,
}

impl View for RoomInfo {
    type V = RoomInfoView;

    open spec fn view(&self) -> RoomInfoView {
        RoomInfoView {
            id: self.id@,
            display_name: self.display_name@,
            is_direct: self.is_direct,
        }
    }
}

impl DeepView for RoomInfo {
    type V = RoomInfoView;

    open spec fn deep_view(&self) -> RoomInfoView {
        self@
    }
}

impl Clone for RoomInfo {
    fn clone(&self) -> (r: Self)
        ensures
            r@ == self@,
    {
        RoomInfo {
            id: self.id.clone(),
            display_name: self.display_name.clone(),
            is_direct: self.is_direct,
        }
    }
}

/// A text message of a room. `event_id` is absent from a local echo.
#[derive(Debug)]
pub struct MatrixMessage {
    pub room_id: String,
    pub sender: String,
    pub body: String,
    pub timestamp: u64,
    pub event_id: Option<String>,
}

/// The contents of a [`MatrixMessage`].
#[verifier::ext_equal]
pub struct MatrixMessageView {
    pub room_id: Seq<char>,
    pub sender: Seq<char>,
    pub body: Seq<char>,
    pub timestamp: u64,
    pub event_id: Option<Seq<char>>,
}

impl View for MatrixMessage {
    type V = MatrixMessageView;

    open spec fn view(&self) -> MatrixMessageView {
        MatrixMessageView {
            room_id: self.room_id@,
            sender: self.sender@,
            body: self.body@,
            timestamp: self.timestamp,
            event_id: self.event_id.deep_view(),
        }
    }
}

impl DeepView for MatrixMessage {
    type V = MatrixMessageView;

    open spec fn deep_view(&self) -> MatrixMessageView {
        self@
    }
}

impl Clone for MatrixMessage {
    fn clone(&self) -> (r: Self)
        ensures
            r@ == self@,
    {
        MatrixMessage {
            room_id: self.room_id.clone(),
            sender: self.sender.clone(),
            body: self.body.clone(),
            timestamp: self.timestamp,
            event_id: self.event_id.clone(),
        }
    }
}

/// A room that the public room directory listed.
#[derive(Debug)]
pub struct PublicRoomSearchResult {
    pub room_id: String,
    pub name: Option<String>,
    pub topic: Option<String>,
    pub alias: Option<String>,
}

/// The contents of a [`PublicRoomSearchResult`].
#[verifier::ext_equal]
pub struct PublicRoomSearchResultView {
    pub room_id: Seq<char>,
    pub name: Option<Seq<char>>,
    pub topic: Option<Seq<char>>,
    pub alias: Option<Seq<char>>,
}

impl View for PublicRoomSearchResult {
    type V = PublicRoomSearchResultView;

    open spec fn view(&self) -> PublicRoomSearchResultView {
        PublicRoomSearchResultView {
            room_id: self.room_id@,
            name: self.name.deep_view(),
            topic: self.topic.deep_view(),
            alias: self.alias.deep_view(),
        }
    }
}

impl DeepView for PublicRoomSearchResult {
    type V = PublicRoomSearchResultView;

    open spec fn deep_view(&self) -> PublicRoomSearchResultView {
        self@
    }
}

impl Clone for PublicRoomSearchResult {
    fn clone(&self) -> (r: Self)
        ensures
            r@ == self@,
    {
        PublicRoomSearchResult {
            room_id: self.room_id.clone(),
            name: self.name.clone(),
            topic: self.topic.clone(),
            alias: self.alias.clone(),
        }
    }
}

/// One emoji of a short authentication string.
#[derive(Debug, PartialEq, Eq)]
pub struct VerificationEmoji {
    pub symbol: String,
    pub description: String,
}

/// The contents of a [`VerificationEmoji`].
#[verifier::ext_equal]
pub struct VerificationEmojiView {
    pub symbol: Seq<char>,
    pub description: Seq<char>,
}

impl View for VerificationEmoji {
    type V = VerificationEmojiView;

    open spec fn view(&self) -> VerificationEmojiView {
        VerificationEmojiView {
            symbol: self.symbol@,
            description: self.description@,
        }
    }
}

impl DeepView for VerificationEmoji {
    type V = VerificationEmojiView;

    open spec fn deep_view(&self) -> VerificationEmojiView {
        self@
    }
}

impl Clone for VerificationEmoji {
    fn clone(&self) -> (r: Self)
        ensures
            r@ == self@,
    {
        VerificationEmoji {
            symbol: self.symbol.clone(),
            description: self.description.clone(),
        }
    }
}

/// A device verification that waits for the user to compare emoji.
#[derive(Debug, PartialEq, Eq)]
pub struct PendingVerificationChallenge {
    pub user_id: String,
    pub flow_id: String,
    pub emojis: Vec<VerificationEmoji>,
}

/// The contents of a [`PendingVerificationChallenge`].
#[verifier::ext_equal]
pub struct PendingVerificationChallengeView {
    pub user_id: Seq<char>,
    pub flow_id: Seq<char>,
    pub emojis: Seq<VerificationEmojiView>,
}

impl View for PendingVerificationChallenge {
    type V = PendingVerificationChallengeView;

    open spec fn view(&self) -> PendingVerificationChallengeView {
        PendingVerificationChallengeView {
            user_id: self.user_id@,
            flow_id: self.flow_id@,
            emojis: self.emojis.deep_view(),
        }
    }
}

impl DeepView for PendingVerificationChallenge {
    type V = PendingVerificationChallengeView;

    open spec fn deep_view(&self) -> PendingVerificationChallengeView {
        self@
    }
}

impl Clone for PendingVerificationChallenge {
    fn clone(&self) -> (r: Self)
        ensures
            r@ == self@,
    {
        PendingVerificationChallenge {
            user_id: self.user_id.clone(),
            flow_id: self.flow_id.clone(),
            emojis: self.emojis.clone(),
        }
    }
}

/// What background tasks report to the client. Each event carries the sync generation it was made
/// under.
#[allow(inconsistent_fields)]
#[derive(Debug)]
pub enum MatrixBridgeEvent {
    /// A sync session is up.
    Connected { generation: u64 },
    /// The rooms that the account has joined.
    SyncRooms { generation: u64, rooms: Vec<RoomInfo> },
    /// What a search of the public room directory found.
    PublicRoomsDiscovered { generation: u64, rooms: Vec<PublicRoomSearchResult> },
    /// Earlier messages of a room.
    RoomHistory { generation: u64, room_id: String, messages: Vec<MatrixMessage> },
    /// A message that just arrived or was just sent.
    NewMessage { generation: u64, message: MatrixMessage },
    /// Emoji for the user to compare.
    VerificationChallenge {
        generation: u64,
        user_id: String,
        flow_id: String,
        emojis: Vec<VerificationEmoji>,
    },
    /// A session could not be set up or a search failed.
    ConnectionFailed { generation: u64, error: String },
}

/// The contents of a [`MatrixBridgeEvent`].
#[allow(inconsistent_fields)]
#[verifier::ext_equal]
pub enum MatrixBridgeEventView {
    Connected { generation: u64 },
    SyncRooms { generation: u64, rooms: Seq<RoomInfoView> },
    PublicRoomsDiscovered { generation: u64, rooms: Seq<PublicRoomSearchResultView> },
    RoomHistory { generation: u64, room_id: Seq<char>, messages: Seq<MatrixMessageView> },
    NewMessage { generation: u64, message: MatrixMessageView },
    VerificationChallenge {
        generation: u64,
        user_id: Seq<char>,
        flow_id: Seq<char>,
        emojis: Seq<VerificationEmojiView>,
    },
    ConnectionFailed { generation: u64, error: Seq<char> },
}

impl View for MatrixBridgeEvent {
    type V = MatrixBridgeEventView;

    open spec fn view(&self) -> MatrixBridgeEventView {
        match *self {
            MatrixBridgeEvent::Connected { generation } => MatrixBridgeEventView::Connected {
                generation,
            },
            MatrixBridgeEvent::SyncRooms { generation, rooms } => MatrixBridgeEventView::SyncRooms {
                generation,
                rooms: rooms.deep_view(),
            },
            MatrixBridgeEvent::PublicRoomsDiscovered { generation, rooms } => {
                MatrixBridgeEventView::PublicRoomsDiscovered {
                    generation,
                    rooms: rooms.deep_view(),
                }
            },
            MatrixBridgeEvent::RoomHistory { generation, room_id, messages } => {
                MatrixBridgeEventView::RoomHistory {
                    generation,
                    room_id: room_id@,
                    messages: messages.deep_view(),
                }
            },
            MatrixBridgeEvent::NewMessage { generation, message } => {
                MatrixBridgeEventView::NewMessage {
                    generation,
                    message: message@,
                }
            },
            MatrixBridgeEvent::VerificationChallenge { generation, user_id, flow_id, emojis } => {
                MatrixBridgeEventView::VerificationChallenge {
                    generation,
                    user_id: user_id@,
                    flow_id: flow_id@,
                    emojis: emojis.deep_view(),
                }
            },
            MatrixBridgeEvent::ConnectionFailed { generation, error } => {
                MatrixBridgeEventView::ConnectionFailed {
                    generation,
                    error: error@,
                }
            },
        }
    }
}

impl DeepView for MatrixBridgeEvent {
    type V = MatrixBridgeEventView;

    open spec fn deep_view(&self) -> MatrixBridgeEventView {
        self@
    }
}

impl Clone for MatrixBridgeEvent {
    fn clone(&self) -> (r: Self)
        ensures
            r@ == self@,
    {
        match self {
            MatrixBridgeEvent::Connected { generation } => MatrixBridgeEvent::Connected {
                generation: *generation,
            },
            MatrixBridgeEvent::SyncRooms { generation, rooms } => MatrixBridgeEvent::SyncRooms {
                generation: *generation,
                rooms: rooms.clone(),
            },
            MatrixBridgeEvent::PublicRoomsDiscovered { generation, rooms } => {
                MatrixBridgeEvent::PublicRoomsDiscovered {
                    generation: *generation,
                    rooms: rooms.clone(),
                }
            },
            MatrixBridgeEvent::RoomHistory { generation, room_id, messages } => {
                MatrixBridgeEvent::RoomHistory {
                    generation: *generation,
                    room_id: room_id.clone(),
                    messages: messages.clone(),
                }
            },
            MatrixBridgeEvent::NewMessage { generation, message } => MatrixBridgeEvent::NewMessage {
                generation: *generation,
                message: message.clone(),
            },
            MatrixBridgeEvent::VerificationChallenge { generation, user_id, flow_id, emojis } => {
                MatrixBridgeEvent::VerificationChallenge {
                    generation: *generation,
                    user_id: user_id.clone(),
                    flow_id: flow_id.clone(),
                    emojis: emojis.clone(),
                }
            },
            MatrixBridgeEvent::ConnectionFailed { generation, error } => {
                MatrixBridgeEvent::ConnectionFailed {
                    generation: *generation,
                    error: error.clone(),
                }
            },
        }
    }
}

impl MatrixBridgeEventView {
    /// The sync generation that the event was made under.
    pub open spec fn generation(self) -> u64 {
        match self {
            MatrixBridgeEventView::Connected { generation, .. } => generation,
            MatrixBridgeEventView::SyncRooms { generation, .. } => generation,
            MatrixBridgeEventView::PublicRoomsDiscovered { generation, .. } => generation,
            MatrixBridgeEventView::RoomHistory { generation, .. } => generation,
            MatrixBridgeEventView::NewMessage { generation, .. } => generation,
            MatrixBridgeEventView::VerificationChallenge { generation, .. } => generation,
            MatrixBridgeEventView::ConnectionFailed { generation, .. } => generation,
        }
    }
}

} // verus!
