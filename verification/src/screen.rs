//! The window as it is drawn.

use crate::app_layout::{
    discover_key, Action, ActionView, AvernusApp, AvernusAppView, DialogType, RoomDetailsTab,
    SpaceView,
};
use crate::matrix::client::BackendView;
use crate::matrix::rooms::{
    distinct_rooms, has_room, lemma_filtered_rooms_stay_distinct, lemma_unique_rooms_is_idempotent,
    room_ids, unique_rooms,
};
use crate::matrix::store::history_of;
use crate::matrix::types::{
    MatrixMessage, MatrixMessageView, PendingVerificationChallengeView, PublicRoomSearchResult,
    PublicRoomSearchResultView,
    RoomInfo, RoomInfoView, VerificationEmojiView,
};
use crate::matrix::MatrixBackend;
use crate::text::{joined, lemma_ascii_is_shortened, same_text, shorten, shortened};
use vstd::prelude::*;

verus! {

/// An item of a menu.
pub struct MenuItem {
    pub label: String,
    /// The path of its icon, if it has one.
    pub icon: Option<String>,
    /// What a click on it does, if anything.
    pub action: Option<Action>,
    /// What its context menu offers, if it has one.
    pub leave: Option<Action>,
}

/// The contents of a [`MenuItem`].
#[verifier::ext_equal]
pub struct MenuItemView {
    pub label: Seq<char>,
    pub icon: Option<Seq<char>>,
    pub action: Option<ActionView>,
    pub leave: Option<ActionView>,
}

impl View for MenuItem {
    type V = MenuItemView;

    open spec fn view(&self) -> MenuItemView {
        MenuItemView {
            label: self.label@,
            icon: self.icon.deep_view(),
            action: self.action.deep_view(),
            leave: self.leave.deep_view(),
        }
    }
}

impl DeepView for MenuItem {
    type V = MenuItemView;

    open spec fn deep_view(&self) -> MenuItemView {
        self@
    }
}

/// The sidebar next to the main one.
pub struct SecondarySidebar {
    pub title: String,
    pub items: Vec<MenuItem>,
}

/// The contents of a [`SecondarySidebar`].
#[verifier::ext_equal]
pub struct SecondarySidebarView {
    pub title: Seq<char>,
    pub items: Seq<MenuItemView>,
}

impl View for SecondarySidebar {
    type V = SecondarySidebarView;

    open spec fn view(&self) -> SecondarySidebarView {
        SecondarySidebarView {
            title: self.title@,
            items: self.items.deep_view(),
        }
    }
}

impl DeepView for SecondarySidebar {
    type V = SecondarySidebarView;

    open spec fn deep_view(&self) -> SecondarySidebarView {
        self@
    }
}

/// A room of the public room directory in the discover panel.
pub struct PublicRoomRow {
    pub room_id: String,
    pub title: String,
    pub topic: String,
    pub alias: String,
    /// Whether the room is joined already.
    pub joined: bool,
    pub button: String,
    pub action: Action,
}

/// The contents of a [`PublicRoomRow`].
#[verifier::ext_equal]
pub struct PublicRoomRowView {
    pub room_id: Seq<char>,
    pub title: Seq<char>,
    pub topic: Seq<char>,
    pub alias: Seq<char>,
    pub joined: bool,
    pub button: Seq<char>,
    pub action: ActionView,
}

impl View for PublicRoomRow {
    type V = PublicRoomRowView;

    open spec fn view(&self) -> PublicRoomRowView {
        PublicRoomRowView {
            room_id: self.room_id@,
            title: self.title@,
            topic: self.topic@,
            alias: self.alias@,
            joined: self.joined,
            button: self.button@,
            action: self.action@,
        }
    }
}

impl DeepView for PublicRoomRow {
    type V = PublicRoomRowView;

    open spec fn deep_view(&self) -> PublicRoomRowView {
        self@
    }
}

/// The discover panel.
pub struct DiscoverPane {
    pub placeholder: String,
    pub notice: Option<String>,
    pub rooms: Vec<PublicRoomRow>,
}

/// The contents of a [`DiscoverPane`].
#[verifier::ext_equal]
pub struct DiscoverPaneView {
    pub placeholder: Seq<char>,
    pub notice: Option<Seq<char>>,
    pub rooms: Seq<PublicRoomRowView>,
}

impl View for DiscoverPane {
    type V = DiscoverPaneView;

    open spec fn view(&self) -> DiscoverPaneView {
        DiscoverPaneView {
            placeholder: self.placeholder@,
            notice: self.notice.deep_view(),
            rooms: self.rooms.deep_view(),
        }
    }
}

impl DeepView for DiscoverPane {
    type V = DiscoverPaneView;

    open spec fn deep_view(&self) -> DiscoverPaneView {
        self@
    }
}

/// A message of a room. The sender is not named where it is the user.
pub struct MessageRow {
    pub sender: Option<String>,
    pub body: String,
}

/// The contents of a [`MessageRow`].
#[verifier::ext_equal]
pub struct MessageRowView {
    pub sender: Option<Seq<char>>,
    pub body: Seq<char>,
}

impl View for MessageRow {
    type V = MessageRowView;

    open spec fn view(&self) -> MessageRowView {
        MessageRowView {
            sender: self.sender.deep_view(),
            body: self.body@,
        }
    }
}

impl DeepView for MessageRow {
    type V = MessageRowView;

    open spec fn deep_view(&self) -> MessageRowView {
        self@
    }
}

/// An open room.
pub struct RoomPane {
    pub title: String,
    pub details_shown: bool,
    pub notice: Option<String>,
    pub messages: Vec<MessageRow>,
    /// Whether messages came in since the room was drawn last.
    pub scroll_to_bottom: bool,
}

/// The contents of a [`RoomPane`].
#[verifier::ext_equal]
pub struct RoomPaneView {
    pub title: Seq<char>,
    pub details_shown: bool,
    pub notice: Option<Seq<char>>,
    pub messages: Seq<MessageRowView>,
    pub scroll_to_bottom: bool,
}

impl View for RoomPane {
    type V = RoomPaneView;

    open spec fn view(&self) -> RoomPaneView {
        RoomPaneView {
            title: self.title@,
            details_shown: self.details_shown,
            notice: self.notice.deep_view(),
            messages: self.messages.deep_view(),
            scroll_to_bottom: self.scroll_to_bottom,
        }
    }
}

impl DeepView for RoomPane {
    type V = RoomPaneView;

    open spec fn deep_view(&self) -> RoomPaneView {
        self@
    }
}

/// The main part of the window.
#[allow(inconsistent_fields)]
pub enum Content {
    /// The settings; `status` tells how the session stands.
    Settings { status: String },
    /// The discover panel.
    Discover { pane: DiscoverPane },
    /// An open room.
    Room { pane: RoomPane },
    /// Nothing.
    Empty,
}

/// The contents of a [`Content`].
#[allow(inconsistent_fields)]
#[verifier::ext_equal]
pub enum ContentView {
    Settings { status: Seq<char> },
    Discover { pane: DiscoverPaneView },
    Room { pane: RoomPaneView },
    Empty,
}

impl View for Content {
    type V = ContentView;

    open spec fn view(&self) -> ContentView {
        match *self {
            Content::Settings { status } => ContentView::Settings { status: status@ },
            Content::Discover { pane } => ContentView::Discover { pane: pane@ },
            Content::Room { pane } => ContentView::Room { pane: pane@ },
            Content::Empty => ContentView::Empty,
        }
    }
}

impl DeepView for Content {
    type V = ContentView;

    open spec fn deep_view(&self) -> ContentView {
        self@
    }
}

/// A member of a room.
pub struct MemberRow {
    pub name: String,
    pub role: String,
    pub is_online: bool,
}

/// The contents of a [`MemberRow`].
#[verifier::ext_equal]
pub struct MemberRowView {
    pub name: Seq<char>,
    pub role: Seq<char>,
    pub is_online: bool,
}

impl View for MemberRow {
    type V = MemberRowView;

    open spec fn view(&self) -> MemberRowView {
        MemberRowView {
            name: self.name@,
            role: self.role@,
            is_online: self.is_online,
        }
    }
}

impl DeepView for MemberRow {
    type V = MemberRowView;

    open spec fn deep_view(&self) -> MemberRowView {
        self@
    }
}

/// The details of a room.
pub enum DetailsPane {
    /// The members.
    Members { heading: String, members: Vec<MemberRow> },
    /// The rest.
    Details { heading: String, text: String },
}

/// The contents of a [`DetailsPane`].
#[verifier::ext_equal]
pub enum DetailsPaneView {
    Members { heading: Seq<char>, members: Seq<MemberRowView> },
    Details { heading: Seq<char>, text: Seq<char> },
}

impl View for DetailsPane {
    type V = DetailsPaneView;

    open spec fn view(&self) -> DetailsPaneView {
        match *self {
            DetailsPane::Members { heading, members } => DetailsPaneView::Members {
                heading: heading@,
                members: members.deep_view(),
            },
            DetailsPane::Details { heading, text } => DetailsPaneView::Details {
                heading: heading@,
                text: text@,
            },
        }
    }
}

impl DeepView for DetailsPane {
    type V = DetailsPaneView;

    open spec fn deep_view(&self) -> DetailsPaneView {
        self@
    }
}

/// A room that a dialog found.
pub struct DialogResult {
    pub room_id: String,
    pub label: String,
    pub action: Action,
}

/// The contents of a [`DialogResult`].
#[verifier::ext_equal]
pub struct DialogResultView {
    pub room_id: Seq<char>,
    pub label: Seq<char>,
    pub action: ActionView,
}

impl View for DialogResult {
    type V = DialogResultView;

    open spec fn view(&self) -> DialogResultView {
        DialogResultView {
            room_id: self.room_id@,
            label: self.label@,
            action: self.action@,
        }
    }
}

impl DeepView for DialogResult {
    type V = DialogResultView;

    open spec fn deep_view(&self) -> DialogResultView {
        self@
    }
}

/// A dialog.
pub struct DialogPane {
    pub title: String,
    pub placeholder: String,
    /// The label of the button that submits it.
    pub submit: String,
    pub notice: Option<String>,
    pub results: Vec<DialogResult>,
}

/// The contents of a [`DialogPane`].
#[verifier::ext_equal]
pub struct DialogPaneView {
    pub title: Seq<char>,
    pub placeholder: Seq<char>,
    pub submit: Seq<char>,
    pub notice: Option<Seq<char>>,
    pub results: Seq<DialogResultView>,
}

impl View for DialogPane {
    type V = DialogPaneView;

    open spec fn view(&self) -> DialogPaneView {
        DialogPaneView {
            title: self.title@,
            placeholder: self.placeholder@,
            submit: self.submit@,
            notice: self.notice.deep_view(),
            results: self.results.deep_view(),
        }
    }
}

impl DeepView for DialogPane {
    type V = DialogPaneView;

    open spec fn deep_view(&self) -> DialogPaneView {
        self@
    }
}

/// An emoji to compare.
pub struct EmojiRow {
    pub number: usize,
    pub symbol: String,
    pub description: String,
}

/// The contents of a [`EmojiRow`].
#[verifier::ext_equal]
pub struct EmojiRowView {
    pub number: usize,
    pub symbol: Seq<char>,
    pub description: Seq<char>,
}

impl View for EmojiRow {
    type V = EmojiRowView;

    open spec fn view(&self) -> EmojiRowView {
        EmojiRowView {
            number: self.number,
            symbol: self.symbol@,
            description: self.description@,
        }
    }
}

impl DeepView for EmojiRow {
    type V = EmojiRowView;

    open spec fn deep_view(&self) -> EmojiRowView {
        self@
    }
}

/// A verification.
pub enum VerificationPane {
    /// There is none.
    Unavailable { title: String, text: String, close: Action },
    /// Emoji to compare.
    Challenge {
        title: String,
        text: String,
        emojis: Vec<EmojiRow>,
        mismatch: Action,
        confirm: Action,
    },
}

/// The contents of a [`VerificationPane`].
#[verifier::ext_equal]
pub enum VerificationPaneView {
    Unavailable { title: Seq<char>, text: Seq<char>, close: ActionView },
    Challenge {
        title: Seq<char>,
        text: Seq<char>,
        emojis: Seq<EmojiRowView>,
        mismatch: ActionView,
        confirm: ActionView,
    },
}

impl View for VerificationPane {
    type V = VerificationPaneView;

    open spec fn view(&self) -> VerificationPaneView {
        match *self {
            VerificationPane::Unavailable { title, text, close } => {
                VerificationPaneView::Unavailable { title: title@, text: text@, close: close@ }
            },
            VerificationPane::Challenge { title, text, emojis, mismatch, confirm } => {
                VerificationPaneView::Challenge {
                    title: title@,
                    text: text@,
                    emojis: emojis.deep_view(),
                    mismatch: mismatch@,
                    confirm: confirm@,
                }
            },
        }
    }
}

impl DeepView for VerificationPane {
    type V = VerificationPaneView;

    open spec fn deep_view(&self) -> VerificationPaneView {
        self@
    }
}

/// What lies over the window.
#[allow(inconsistent_fields)]
pub enum Modal {
    /// A verification.
    Verification { pane: VerificationPane },
    /// A dialog.
    Dialog { pane: DialogPane },
}

/// The contents of a [`Modal`].
#[allow(inconsistent_fields)]
#[verifier::ext_equal]
pub enum ModalView {
    Verification { pane: VerificationPaneView },
    Dialog { pane: DialogPaneView },
}

impl View for Modal {
    type V = ModalView;

    open spec fn view(&self) -> ModalView {
        match *self {
            Modal::Verification { pane } => ModalView::Verification { pane: pane@ },
            Modal::Dialog { pane } => ModalView::Dialog { pane: pane@ },
        }
    }
}

impl DeepView for Modal {
    type V = ModalView;

    open spec fn deep_view(&self) -> ModalView {
        self@
    }
}

/// The window as it is drawn.
pub struct Screen {
    pub main_menu: Vec<MenuItem>,
    pub spaces_menu: Vec<MenuItem>,
    pub settings_item: MenuItem,
    pub secondary: Option<SecondarySidebar>,
    pub content: Content,
    pub details: Option<DetailsPane>,
    pub modal: Option<Modal>,
}

/// The contents of a [`Screen`].
#[verifier::ext_equal]
pub struct ScreenView {
    pub main_menu: Seq<MenuItemView>,
    pub spaces_menu: Seq<MenuItemView>,
    pub settings_item: MenuItemView,
    pub secondary: Option<SecondarySidebarView>,
    pub content: ContentView,
    pub details: Option<DetailsPaneView>,
    pub modal: Option<ModalView>,
}

impl View for Screen {
    type V = ScreenView;

    open spec fn view(&self) -> ScreenView {
        ScreenView {
            main_menu: self.main_menu.deep_view(),
            spaces_menu: self.spaces_menu.deep_view(),
            settings_item: self.settings_item@,
            secondary: self.secondary.deep_view(),
            content: self.content@,
            details: self.details.deep_view(),
            modal: self.modal.deep_view(),
        }
    }
}

impl DeepView for Screen {
    type V = ScreenView;

    open spec fn deep_view(&self) -> ScreenView {
        self@
    }
}

/// An item that opens the sidebar `key`.
pub open spec fn sidebar_item(
    label: Seq<char>,
    icon: Option<Seq<char>>,
    key: Seq<char>,
) -> MenuItemView {
    MenuItemView {
        label,
        icon,
        action: Some(ActionView::OpenSidebar { key }),
        leave: None,
    }
}

/// An item that opens a dialog.
pub open spec fn dialog_item(label: Seq<char>, dialog: DialogType) -> MenuItemView {
    MenuItemView {
        label,
        icon: None,
        action: Some(ActionView::OpenDialog { dialog }),
        leave: None,
    }
}

/// An item that does nothing.
pub open spec fn plain_item(label: Seq<char>) -> MenuItemView {
    MenuItemView { label, icon: None, action: None, leave: None }
}

/// What stands for a room: its name and the beginning of its id.
pub open spec fn room_title(name: Seq<char>, id: Seq<char>) -> Seq<char> {
    name + " ("@ + shortened(id)->0 + ")"@
}

/// The item of a room.
pub open spec fn room_item(room: RoomInfoView) -> MenuItemView {
    MenuItemView {
        label: room_title(room.display_name, room.id),
        icon: None,
        action: Some(ActionView::SelectRoom { room_id: room.id }),
        leave: Some(ActionView::LeaveRoom { room_id: room.id }),
    }
}

/// The rooms of `rooms` that are direct chats, or those that are not, without repetitions.
pub open spec fn rooms_of_kind(rooms: Seq<RoomInfoView>, direct: bool) -> Seq<RoomInfoView> {
    unique_rooms(rooms.filter(|room: RoomInfoView| room.is_direct == direct))
}

/// The items of rooms, or one that says that they are still to come.
pub open spec fn room_items(rooms: Seq<RoomInfoView>, loading: Seq<char>) -> Seq<MenuItemView> {
    if rooms.len() == 0 {
        seq![plain_item(loading)]
    } else {
        rooms.map_values(|room: RoomInfoView| room_item(room))
    }
}

/// The items of the sidebar `key`.
pub open spec fn sidebar_items(key: Seq<char>, rooms: Seq<RoomInfoView>) -> Seq<MenuItemView> {
    if key == "Direct Messages"@ {
        seq![dialog_item("+ Start conversation"@, DialogType::StartConversation)] + room_items(
            rooms_of_kind(rooms, true),
            "Loading chats..."@,
        )
    } else if key == "Rooms"@ {
        seq![dialog_item("+ New room"@, DialogType::NewRoom)] + room_items(
            rooms_of_kind(rooms, false),
            "Loading rooms..."@,
        )
    } else if key == "Settings"@ {
        seq![dialog_item("Account Sign In"@, DialogType::AccountSignIn)]
    } else {
        Seq::empty()
    }
}

/// The sidebar next to the main one. The discover panel has none.
pub open spec fn secondary_of(app: AvernusAppView, b: BackendView) -> Option<SecondarySidebarView> {
    match app.active_sidebar {
        Some(key) => if key == discover_key() {
            None
        } else {
            Some(
                SecondarySidebarView {
                    title: if key == "Settings"@ {
                        "Settings"@
                    } else {
                        key + " ("@ + b.connection_status + ")"@
                    },
                    items: sidebar_items(key, b.rooms),
                },
            )
        },
        None => None,
    }
}

/// The title of a public room.
pub open spec fn public_title(room: PublicRoomSearchResultView) -> Seq<char> {
    match room.name {
        Some(name) => name,
        None => match room.alias {
            Some(alias) => alias,
            None => "Public room"@,
        },
    }
}

/// What a public room is joined by.
pub open spec fn public_alias(room: PublicRoomSearchResultView) -> Seq<char> {
    match room.alias {
        Some(alias) => alias,
        None => room.room_id,
    }
}

/// The row of a public room, where `rooms` are the joined ones.
pub open spec fn public_row(
    rooms: Seq<RoomInfoView>,
    room: PublicRoomSearchResultView,
) -> PublicRoomRowView {
    let joined = room_ids(rooms).contains(room.room_id);
    PublicRoomRowView {
        room_id: room.room_id,
        title: public_title(room),
        topic: match room.topic {
            Some(topic) => topic,
            None => "No description"@,
        },
        alias: public_alias(room),
        joined,
        button: if joined {
            "Joined"@
        } else {
            "Join"@
        },
        action: ActionView::JoinListed { room: public_alias(room) },
    }
}

/// The discover panel.
pub open spec fn discover_pane(b: BackendView) -> DiscoverPaneView {
    DiscoverPaneView {
        placeholder: "Search public rooms or paste #room:server"@,
        notice: if b.public_rooms.len() == 0 {
            Some("Search by room name, topic, or keyword."@)
        } else {
            None
        },
        rooms: b.public_rooms.map_values(
            |room: PublicRoomSearchResultView| public_row(b.rooms, room),
        ),
    }
}

/// The name of the room `id`: that of the first room with this id, else the id.
pub open spec fn name_of_room(rooms: Seq<RoomInfoView>, id: Seq<char>) -> Seq<char>
    decreases rooms.len(),
{
    if rooms.len() == 0 {
        id
    } else if rooms.first().id == id {
        rooms.first().display_name
    } else {
        name_of_room(rooms.drop_first(), id)
    }
}

/// The row of a message.
pub open spec fn message_row(message: MatrixMessageView) -> MessageRowView {
    MessageRowView {
        sender: if message.sender == "you"@ {
            None
        } else {
            Some(message.sender)
        },
        body: message.body,
    }
}

/// How many messages the room `id` showed last.
pub open spec fn last_count(app: AvernusAppView, id: Seq<char>) -> usize {
    if app.last_message_count.contains_key(id) {
        app.last_message_count[id]
    } else {
        0
    }
}

/// The open room `id`.
pub open spec fn room_pane(app: AvernusAppView, b: BackendView, id: Seq<char>) -> RoomPaneView {
    let history = history_of(b.messages, id);
    RoomPaneView {
        title: room_title(name_of_room(b.rooms, id), id),
        details_shown: app.show_room_details,
        notice: if history.len() == 0 {
            Some("No messages in this room yet."@)
        } else {
            None
        },
        messages: history.map_values(|message: MatrixMessageView| message_row(message)),
        scroll_to_bottom: history.len() > last_count(app, id),
    }
}

/// The room that the main part of the window shows, if it shows one.
pub open spec fn drawn_room(app: AvernusAppView) -> Option<Seq<char>> {
    if app.active_sidebar == Some("Settings"@) || app.active_sidebar == Some(discover_key()) {
        None
    } else {
        app.active_item
    }
}

/// The main part of the window.
pub open spec fn content_of(app: AvernusAppView, b: BackendView) -> ContentView {
    if app.active_sidebar == Some("Settings"@) {
        ContentView::Settings { status: "Logged in status: "@ + b.connection_status }
    } else if app.active_sidebar == Some(discover_key()) {
        ContentView::Discover { pane: discover_pane(b) }
    } else {
        match app.active_item {
            Some(id) => ContentView::Room { pane: room_pane(app, b, id) },
            None => ContentView::Empty,
        }
    }
}

/// The tab `tab` of the details of a room.
pub open spec fn details_pane(tab: RoomDetailsTab) -> DetailsPaneView {
    match tab {
        RoomDetailsTab::Members => DetailsPaneView::Members {
            heading: "Room Members"@,
            members: seq![
                MemberRowView { name: "Active User"@, role: "Member"@, is_online: true },
            ],
        },
        RoomDetailsTab::Details => DetailsPaneView::Details {
            heading: "ENCRYPTION"@,
            text: "🔒 End-to-End Encrypted"@,
        },
    }
}

/// The details of the room, where they are shown.
pub open spec fn details_of(app: AvernusAppView) -> Option<DetailsPaneView> {
    if app.show_room_details && app.active_item is Some {
        Some(details_pane(app.room_details_tab))
    } else {
        None
    }
}

/// The emoji of a challenge with their numbers.
pub open spec fn emoji_rows(emojis: Seq<VerificationEmojiView>) -> Seq<EmojiRowView> {
    Seq::new(
        emojis.len(),
        |i: int|
            EmojiRowView {
                number: (i + 1) as usize,
                symbol: emojis[i].symbol,
                description: emojis[i].description,
            },
    )
}

/// The verification that waits for the user, if one does.
pub open spec fn verification_pane(
    pending: Option<PendingVerificationChallengeView>,
) -> VerificationPaneView {
    match pending {
        None => VerificationPaneView::Unavailable {
            title: "Verify device"@,
            text: "Verification challenge is unavailable."@,
            close: ActionView::DismissVerification,
        },
        Some(challenge) => VerificationPaneView::Challenge {
            title: "Verify this device"@,
            text:
                "Compare the emoji pairs with the other session and respond to the exact same challenge."@,
            emojis: emoji_rows(challenge.emojis),
            mismatch: ActionView::RejectEmoji {
                user_id: challenge.user_id,
                flow_id: challenge.flow_id,
            },
            confirm: ActionView::ConfirmEmoji {
                user_id: challenge.user_id,
                flow_id: challenge.flow_id,
            },
        },
    }
}

/// A room that a dialog found.
pub open spec fn dialog_result(room: PublicRoomSearchResultView) -> DialogResultView {
    DialogResultView {
        room_id: room.room_id,
        label: public_title(room),
        action: ActionView::JoinFound { room: public_alias(room) },
    }
}

/// The dialog `dialog`; only the search shows rooms.
pub open spec fn dialog_pane(
    dialog: Option<DialogType>,
    found: Seq<PublicRoomSearchResultView>,
) -> DialogPaneView {
    let searching = dialog == Some(DialogType::DiscoverAndJoin);
    DialogPaneView {
        title: match dialog {
            Some(DialogType::StartConversation) => "Start Conversation"@,
            Some(DialogType::NewRoom) => "Create New Room"@,
            Some(DialogType::DiscoverAndJoin) => "Discover / Join Room or Space"@,
            Some(DialogType::AccountSignIn) => "Sign In with Matrix"@,
            None => ""@,
        },
        placeholder: match dialog {
            Some(DialogType::StartConversation) => {
                "Enter Matrix User ID (e.g., @user:matrix.org)..."@
            },
            Some(DialogType::NewRoom) => "Enter room name..."@,
            Some(DialogType::DiscoverAndJoin) => {
                "Search public rooms or paste a Room ID / Alias (e.g., #room:matrix.org)..."@
            },
            Some(DialogType::AccountSignIn) => {
                "Enter Homeserver URL (e.g., https://matrix.org)..."@
            },
            None => ""@,
        },
        submit: match dialog {
            Some(DialogType::StartConversation) => "Start Chat"@,
            Some(DialogType::NewRoom) => "Create Room"@,
            Some(DialogType::DiscoverAndJoin) => "Search"@,
            Some(DialogType::AccountSignIn) => "Open Browser to Sign In"@,
            None => ""@,
        },
        notice: if searching && found.len() == 0 {
            Some("Search for public rooms by name, topic, or keyword."@)
        } else {
            None
        },
        results: if searching {
            found.map_values(|room: PublicRoomSearchResultView| dialog_result(room))
        } else {
            Seq::empty()
        },
    }
}

/// What lies over the window: a verification goes before a dialog.
pub open spec fn modal_of(app: AvernusAppView, b: BackendView) -> Option<ModalView> {
    if b.pending_verification is Some {
        Some(ModalView::Verification { pane: verification_pane(b.pending_verification) })
    } else if app.active_dialog is Some {
        Some(ModalView::Dialog { pane: dialog_pane(app.active_dialog, b.public_rooms) })
    } else {
        None
    }
}

/// The menu of the spaces: the discover panel, then the spaces of the user.
pub open spec fn spaces_menu_of(spaces: Seq<SpaceView>) -> Seq<MenuItemView> {
    seq![sidebar_item("Discover"@, None, discover_key())] + spaces.map_values(
        |space: SpaceView| sidebar_item(space.name, Some(space.icon), "Space: "@ + space.id),
    )
}

/// The window as it is drawn.
pub open spec fn screen_of(app: AvernusAppView, b: BackendView) -> ScreenView {
    ScreenView {
        main_menu: seq![
            sidebar_item("Direct Messages"@, None, "Direct Messages"@),
            sidebar_item("Rooms"@, None, "Rooms"@),
        ],
        spaces_menu: spaces_menu_of(app.joined_spaces),
        settings_item: sidebar_item("Settings"@, None, "Settings"@),
        secondary: secondary_of(app, b),
        content: content_of(app, b),
        details: details_of(app),
        modal: modal_of(app, b),
    }
}

/// The state after the window was drawn: the open room has shown its messages.
pub open spec fn after_drawing(app: AvernusAppView, b: BackendView) -> AvernusAppView {
    match drawn_room(app) {
        Some(id) => AvernusAppView {
            last_message_count: app.last_message_count.insert(
                id,
                history_of(b.messages, id).len() as usize,
            ),
            ..app
        },
        None => app,
    }
}

/// The rooms whose ids the sidebar shows.
pub open spec fn shown_rooms(app: AvernusAppView, b: BackendView) -> Seq<RoomInfoView> {
    if app.active_sidebar == Some("Direct Messages"@) {
        rooms_of_kind(b.rooms, true)
    } else if app.active_sidebar == Some("Rooms"@) {
        rooms_of_kind(b.rooms, false)
    } else {
        Seq::empty()
    }
}

/// Whether all ids that are shown can be shortened: none is cut within a character.
pub open spec fn can_draw(app: AvernusAppView, b: BackendView) -> bool {
    &&& forall|i: int|
        0 <= i < shown_rooms(app, b).len() ==> shortened((#[trigger] shown_rooms(app, b)[i]).id)
            is Some
    &&& drawn_room(app) matches Some(id) ==> shortened(id) is Some
}

fn open_sidebar(label: &str, icon: Option<String>, key: String) -> (r: MenuItem)
    ensures
        r@ == sidebar_item(label@, icon.deep_view(), key@),
{
    MenuItem {
        label: label.to_owned(),
        icon,
        action: Some(Action::OpenSidebar { key }),
        leave: None,
    }
}

fn open_dialog(label: &str, dialog: DialogType) -> (r: MenuItem)
    ensures
        r@ == dialog_item(label@, dialog),
{
    MenuItem {
        label: label.to_owned(),
        icon: None,
        action: Some(Action::OpenDialog { dialog }),
        leave: None,
    }
}

fn in_parentheses(head: &str, tail: &str) -> (r: String)
    ensures
        r@ == head@ + " ("@ + tail@ + ")"@,
{
    joined(joined(joined(head, " (").as_str(), tail).as_str(), ")")
}

fn title_of_room(name: &str, id: &str) -> (r: String)
    requires
        shortened(id@) is Some,
    ensures
        r@ == room_title(name@, id@),
{
    match shorten(id) {
        Some(short) => in_parentheses(name, short.as_str()),
        None => name.to_owned(),
    }
}

/// The rooms of `rooms` that are direct chats, or those that are not, without repetitions.
pub fn list_rooms(rooms: &Vec<RoomInfo>, direct: bool) -> (r: Vec<RoomInfo>)
    ensures
        r.deep_view() == rooms_of_kind(rooms.deep_view(), direct),
{
    let ghost all = rooms.deep_view();
    let ghost keep = |room: RoomInfoView| room.is_direct == direct;
    let mut kept: Vec<RoomInfo> = Vec::new();
    let mut i: usize = 0;
    proof {
        reveal(Seq::filter);
        assert(all.take(0) =~= Seq::<RoomInfoView>::empty());
        assert(kept.deep_view() =~= Seq::<RoomInfoView>::empty());
    }
    while i < rooms.len()
        invariant
            i <= rooms.len(),
            all == rooms.deep_view(),
            keep == (|room: RoomInfoView| room.is_direct == direct),
            kept.deep_view() == all.take(i as int).filter(keep),
        decreases rooms.len() - i,
    {
        let ghost before = kept.deep_view();
        proof {
            reveal(Seq::filter);
            assert(all.take(i + 1).drop_last() =~= all.take(i as int));
            assert(all.take(i + 1).last() == rooms[i as int]@);
        }
        if rooms[i].is_direct == direct {
            let room = rooms[i].clone();
            kept.push(room);
            assert(kept.deep_view() =~= before.push(room@));
        }
        i = i + 1;
    }
    assert(all.take(all.len() as int) =~= all);
    MatrixBackend::dedupe_rooms(kept)
}

fn items_of_rooms(rooms: Vec<RoomInfo>, loading: &str) -> (r: Vec<MenuItem>)
    requires
        forall|i: int|
            0 <= i < rooms.deep_view().len() ==> shortened((#[trigger] rooms.deep_view()[i]).id)
                is Some,
    ensures
        r.deep_view() == room_items(rooms.deep_view(), loading@),
{
    let ghost all = rooms.deep_view();
    let mut items: Vec<MenuItem> = Vec::new();
    if rooms.len() == 0 {
        items.push(MenuItem { label: loading.to_owned(), icon: None, action: None, leave: None });
        assert(items.deep_view() =~= room_items(all, loading@));
        return items;
    }
    let ghost wanted = room_items(all, loading@);
    for room in it: rooms
        invariant
            it.seq() == rooms@,
            all == rooms.deep_view(),
            wanted == all.map_values(|room: RoomInfoView| room_item(room)),
            forall|i: int| 0 <= i < all.len() ==> shortened((#[trigger] all[i]).id) is Some,
            items.deep_view() == wanted.take(it.index() as int),
    {
        let ghost n = it.index() as int;
        let ghost before = items.deep_view();
        assert(all[n] == room@);
        let item = MenuItem {
            label: title_of_room(room.display_name.as_str(), room.id.as_str()),
            icon: None,
            action: Some(Action::SelectRoom { room_id: room.id.clone() }),
            leave: Some(Action::LeaveRoom { room_id: room.id }),
        };
        assert(wanted[n] == item@);
        items.push(item);
        assert(items.deep_view() =~= before.push(item@));
        assert(wanted.take(n + 1) =~= wanted.take(n).push(wanted[n]));
    }
    assert(wanted.take(wanted.len() as int) =~= wanted);
    items
}

fn title_of_public(room: &PublicRoomSearchResult) -> (r: String)
    ensures
        r@ == public_title(room@),
{
    match &room.name {
        Some(name) => name.clone(),
        None => match &room.alias {
            Some(alias) => alias.clone(),
            None => "Public room".to_owned(),
        },
    }
}

fn alias_of_public(room: &PublicRoomSearchResult) -> (r: String)
    ensures
        r@ == public_alias(room@),
{
    match &room.alias {
        Some(alias) => alias.clone(),
        None => room.room_id.clone(),
    }
}

fn row_of_public(rooms: &Vec<RoomInfo>, room: &PublicRoomSearchResult) -> (r: PublicRoomRow)
    ensures
        r@ == public_row(rooms.deep_view(), room@),
{
    let joined: bool = has_room(rooms, room.room_id.as_str());
    PublicRoomRow {
        room_id: room.room_id.clone(),
        title: title_of_public(room),
        topic: match &room.topic {
            Some(topic) => topic.clone(),
            None => "No description".to_owned(),
        },
        alias: alias_of_public(room),
        joined,
        button: if joined {
            "Joined".to_owned()
        } else {
            "Join".to_owned()
        },
        action: Action::JoinListed { room: alias_of_public(room) },
    }
}

fn name_of(rooms: &Vec<RoomInfo>, id: &str) -> (r: String)
    ensures
        r@ == name_of_room(rooms.deep_view(), id@),
{
    let ghost all = rooms.deep_view();
    let mut i: usize = 0;
    assert(all.skip(0) =~= all);
    while i < rooms.len()
        invariant
            i <= rooms.len(),
            all == rooms.deep_view(),
            name_of_room(all, id@) == name_of_room(all.skip(i as int), id@),
        decreases rooms.len() - i,
    {
        assert(all.skip(i as int).first() == rooms[i as int]@);
        assert(all.skip(i as int).drop_first() =~= all.skip(i + 1));
        if same_text(rooms[i].id.as_str(), id) {
            return rooms[i].display_name.clone();
        }
        i = i + 1;
    }
    id.to_owned()
}

fn rows_of_messages(history: &Vec<MatrixMessage>) -> (r: Vec<MessageRow>)
    ensures
        r.deep_view() == history.deep_view().map_values(
            |message: MatrixMessageView| message_row(message),
        ),
{
    let ghost wanted = history.deep_view().map_values(
        |message: MatrixMessageView| message_row(message),
    );
    let mut rows: Vec<MessageRow> = Vec::new();
    let mut i: usize = 0;
    while i < history.len()
        invariant
            i <= history.len(),
            wanted == history.deep_view().map_values(
                |message: MatrixMessageView| message_row(message),
            ),
            rows.deep_view() == wanted.take(i as int),
        decreases history.len() - i,
    {
        let ghost before = rows.deep_view();
        let message = &history[i];
        let sender = if same_text(message.sender.as_str(), "you") {
            None
        } else {
            Some(message.sender.clone())
        };
        let row = MessageRow { sender, body: message.body.clone() };
        assert(wanted[i as int] == row@);
        rows.push(row);
        assert(rows.deep_view() =~= before.push(row@));
        assert(wanted.take(i + 1) =~= wanted.take(i as int).push(wanted[i as int]));
        i = i + 1;
    }
    assert(wanted.take(wanted.len() as int) =~= wanted);
    rows
}

impl AvernusApp {
    /// Whether the window can be drawn: no id that it shows would be cut within a character.
    pub fn can_render(&self, backend: &MatrixBackend) -> (r: bool)
        ensures
            r == can_draw(self@, backend@),
    {
        let rooms = if self.is_open("Direct Messages") {
            list_rooms(&backend.rooms, true)
        } else if self.is_open("Rooms") {
            list_rooms(&backend.rooms, false)
        } else {
            Vec::new()
        };
        let ghost all = shown_rooms(self@, backend@);
        assert(rooms.deep_view() =~= all);
        let mut i: usize = 0;
        while i < rooms.len()
            invariant
                i <= rooms.len(),
                all == shown_rooms(self@, backend@),
                rooms.deep_view() == all,
                forall|k: int| 0 <= k < i ==> shortened((#[trigger] all[k]).id) is Some,
            decreases rooms.len() - i,
        {
            assert(all[i as int] == rooms[i as int]@);
            if shorten(rooms[i].id.as_str()).is_none() {
                return false;
            }
            i = i + 1;
        }
        if self.is_open("Settings") || self.is_open("Space: Discover") {
            return true;
        }
        match &self.active_item {
            Some(id) => shorten(id.as_str()).is_some(),
            None => true,
        }
    }

    /// The verification that waits for the user, if one does.
    pub fn render_verification_challenge_modal(&self, backend: &MatrixBackend) -> (r:
        VerificationPane)
        ensures
            r@ == verification_pane(backend@.pending_verification),
    {
        let challenge = match &backend.pending_verification {
            Some(challenge) => challenge,
            None => {
                return VerificationPane::Unavailable {
                    title: "Verify device".to_owned(),
                    text: "Verification challenge is unavailable.".to_owned(),
                    close: Action::DismissVerification,
                };
            },
        };
        let ghost wanted = emoji_rows(challenge@.emojis);
        let mut emojis: Vec<EmojiRow> = Vec::new();
        let mut i: usize = 0;
        while i < challenge.emojis.len()
            invariant
                i <= challenge.emojis.len(),
                wanted == emoji_rows(challenge@.emojis),
                emojis.deep_view() == wanted.take(i as int),
            decreases challenge.emojis.len() - i,
        {
            let ghost before = emojis.deep_view();
            let row = EmojiRow {
                number: i + 1,
                symbol: challenge.emojis[i].symbol.clone(),
                description: challenge.emojis[i].description.clone(),
            };
            assert(wanted[i as int] == row@);
            emojis.push(row);
            assert(emojis.deep_view() =~= before.push(row@));
            assert(wanted.take(i + 1) =~= wanted.take(i as int).push(wanted[i as int]));
            i = i + 1;
        }
        assert(wanted.take(wanted.len() as int) =~= wanted);
        VerificationPane::Challenge {
            title: "Verify this device".to_owned(),
            text:
                "Compare the emoji pairs with the other session and respond to the exact same challenge.".to_owned(),
            emojis,
            mismatch: Action::RejectEmoji {
                user_id: challenge.user_id.clone(),
                flow_id: challenge.flow_id.clone(),
            },
            confirm: Action::ConfirmEmoji {
                user_id: challenge.user_id.clone(),
                flow_id: challenge.flow_id.clone(),
            },
        }
    }

    /// The dialog that is open.
    pub fn render_modal_dialog(&self, backend: &MatrixBackend) -> (r: DialogPane)
        ensures
            r@ == dialog_pane(self@.active_dialog, backend@.public_rooms),
    {
        let (title, placeholder, submit) = match self.active_dialog {
            Some(DialogType::StartConversation) => (
                "Start Conversation",
                "Enter Matrix User ID (e.g., @user:matrix.org)...",
                "Start Chat",
            ),
            Some(DialogType::NewRoom) => ("Create New Room", "Enter room name...", "Create Room"),
            Some(DialogType::DiscoverAndJoin) => (
                "Discover / Join Room or Space",
                "Search public rooms or paste a Room ID / Alias (e.g., #room:matrix.org)...",
                "Search",
            ),
            Some(DialogType::AccountSignIn) => (
                "Sign In with Matrix",
                "Enter Homeserver URL (e.g., https://matrix.org)...",
                "Open Browser to Sign In",
            ),
            None => ("", "", ""),
        };
        let searching: bool = match self.active_dialog {
            Some(DialogType::DiscoverAndJoin) => true,
            _ => false,
        };
        let ghost found = backend@.public_rooms;
        let ghost wanted = dialog_pane(self@.active_dialog, found).results;
        let mut results: Vec<DialogResult> = Vec::new();
        if searching {
            let mut i: usize = 0;
            while i < backend.public_rooms.len()
                invariant
                    i <= backend.public_rooms.len(),
                    found == backend.public_rooms.deep_view(),
                    wanted == found.map_values(
                        |room: PublicRoomSearchResultView| dialog_result(room),
                    ),
                    results.deep_view() == wanted.take(i as int),
                decreases backend.public_rooms.len() - i,
            {
                let ghost before = results.deep_view();
                let room = &backend.public_rooms[i];
                let result = DialogResult {
                    room_id: room.room_id.clone(),
                    label: title_of_public(room),
                    action: Action::JoinFound { room: alias_of_public(room) },
                };
                assert(wanted[i as int] == result@);
                results.push(result);
                assert(results.deep_view() =~= before.push(result@));
                assert(wanted.take(i + 1) =~= wanted.take(i as int).push(wanted[i as int]));
                i = i + 1;
            }
        }
        assert(results.deep_view() =~= wanted);
        let notice = if searching && backend.public_rooms.len() == 0 {
            Some("Search for public rooms by name, topic, or keyword.".to_owned())
        } else {
            None
        };
        DialogPane {
            title: title.to_owned(),
            placeholder: placeholder.to_owned(),
            submit: submit.to_owned(),
            notice,
            results,
        }
    }

    /// The discover panel.
    pub fn render_discover_panel(&self, backend: &MatrixBackend) -> (r: DiscoverPane)
        ensures
            r@ == discover_pane(backend@),
    {
        let ghost wanted = discover_pane(backend@).rooms;
        let mut rooms: Vec<PublicRoomRow> = Vec::new();
        let mut i: usize = 0;
        while i < backend.public_rooms.len()
            invariant
                i <= backend.public_rooms.len(),
                wanted == discover_pane(backend@).rooms,
                rooms.deep_view() == wanted.take(i as int),
            decreases backend.public_rooms.len() - i,
        {
            let ghost before = rooms.deep_view();
            let row = row_of_public(&backend.rooms, &backend.public_rooms[i]);
            assert(wanted[i as int] == row@);
            rooms.push(row);
            assert(rooms.deep_view() =~= before.push(row@));
            assert(wanted.take(i + 1) =~= wanted.take(i as int).push(wanted[i as int]));
            i = i + 1;
        }
        assert(wanted.take(wanted.len() as int) =~= wanted);
        let notice = if backend.public_rooms.len() == 0 {
            Some("Search by room name, topic, or keyword.".to_owned())
        } else {
            None
        };
        DiscoverPane {
            placeholder: "Search public rooms or paste #room:server".to_owned(),
            notice,
            rooms,
        }
    }

    /// The details of the room.
    pub fn render_room_details_panel(&self) -> (r: DetailsPane)
        ensures
            r@ == details_pane(self@.room_details_tab),
    {
        match self.room_details_tab {
            RoomDetailsTab::Members => {
                let members = vec![self.render_member_item("Active User", "Member", true)];
                let r = DetailsPane::Members { heading: "Room Members".to_owned(), members };
                assert(members.deep_view() =~= seq![
                    MemberRowView { name: "Active User"@, role: "Member"@, is_online: true },
                ]);
                r
            },
            RoomDetailsTab::Details => DetailsPane::Details {
                heading: "ENCRYPTION".to_owned(),
                text: "🔒 End-to-End Encrypted".to_owned(),
            },
        }
    }

    /// The row of a member.
    pub fn render_member_item(&self, name: &str, role: &str, is_online: bool) -> (r: MemberRow)
        ensures
            r@ == (MemberRowView { name: name@, role: role@, is_online }),
    {
        MemberRow { name: name.to_owned(), role: role.to_owned(), is_online }
    }

    /// The sidebar next to the main one.
    fn render_secondary(&self, backend: &MatrixBackend) -> (r: Option<SecondarySidebar>)
        requires
            can_draw(self@, backend@),
        ensures
            r.deep_view() == secondary_of(self@, backend@),
    {
        let key = match &self.active_sidebar {
            Some(key) => key.as_str(),
            None => {
                return None;
            },
        };
        if same_text(key, "Space: Discover") {
            return None;
        }
        let mut items: Vec<MenuItem> = Vec::new();
        if same_text(key, "Direct Messages") {
            items.push(open_dialog("+ Start conversation", DialogType::StartConversation));
            let mut rooms = items_of_rooms(list_rooms(&backend.rooms, true), "Loading chats...");
            items.append(&mut rooms);
        } else if same_text(key, "Rooms") {
            items.push(open_dialog("+ New room", DialogType::NewRoom));
            let mut rooms = items_of_rooms(list_rooms(&backend.rooms, false), "Loading rooms...");
            items.append(&mut rooms);
        } else if same_text(key, "Settings") {
            items.push(open_dialog("Account Sign In", DialogType::AccountSignIn));
        }
        assert(items.deep_view() =~= sidebar_items(key@, backend@.rooms));
        let title = if same_text(key, "Settings") {
            "Settings".to_owned()
        } else {
            in_parentheses(key, backend.connection_status.as_str())
        };
        Some(SecondarySidebar { title, items })
    }

    /// The open room `id`; its messages count as shown.
    fn render_room(&mut self, backend: &MatrixBackend, id: &str) -> (r: RoomPane)
        requires
            shortened(id@) is Some,
        ensures
            r@ == room_pane(old(self)@, backend@, id@),
            final(self)@ == (AvernusAppView {
                last_message_count: old(self)@.last_message_count.insert(
                    id@,
                    history_of(backend@.messages, id@).len() as usize,
                ),
                ..old(self)@
            }),
    {
        let previous: usize = match self.last_message_count.get(id) {
            Some(count) => count,
            None => 0,
        };
        let (count, messages) = match backend.messages.get(id) {
            Some(history) => (history.len(), rows_of_messages(history)),
            None => (0, Vec::new()),
        };
        assert(messages.deep_view() =~= room_pane(self@, backend@, id@).messages);
        let notice = if count == 0 {
            Some("No messages in this room yet.".to_owned())
        } else {
            None
        };
        let title = title_of_room(name_of(&backend.rooms, id).as_str(), id);
        self.last_message_count.insert(id, count);
        RoomPane {
            title,
            details_shown: self.show_room_details,
            notice,
            messages,
            scroll_to_bottom: count > previous,
        }
    }

    /// The main part of the window.
    fn render_content(&mut self, backend: &MatrixBackend) -> (r: Content)
        requires
            can_draw(old(self)@, backend@),
        ensures
            r@ == content_of(old(self)@, backend@),
            final(self)@ == after_drawing(old(self)@, backend@),
    {
        if self.is_open("Settings") {
            return Content::Settings {
                status: joined("Logged in status: ", backend.connection_status.as_str()),
            };
        }
        if self.is_open("Space: Discover") {
            return Content::Discover { pane: self.render_discover_panel(backend) };
        }
        let id = match &self.active_item {
            Some(id) => id.clone(),
            None => {
                return Content::Empty;
            },
        };
        Content::Room { pane: self.render_room(backend, id.as_str()) }
    }

    /// The menu of the spaces.
    fn render_spaces(&self) -> (r: Vec<MenuItem>)
        ensures
            r.deep_view() == spaces_menu_of(self@.joined_spaces),
    {
        let ghost spaces = self@.joined_spaces;
        let ghost wanted = spaces_menu_of(spaces);
        let mut items: Vec<MenuItem> = Vec::new();
        items.push(open_sidebar("Discover", None, "Space: Discover".to_owned()));
        assert(items.deep_view() =~= wanted.take(1));
        let mut i: usize = 0;
        while i < self.joined_spaces.len()
            invariant
                i <= self.joined_spaces.len(),
                spaces == self.joined_spaces.deep_view(),
                wanted == spaces_menu_of(spaces),
                items.deep_view() == wanted.take(i + 1),
            decreases self.joined_spaces.len() - i,
        {
            let ghost before = items.deep_view();
            let space = &self.joined_spaces[i];
            let item = open_sidebar(
                space.name.as_str(),
                Some(space.icon.clone()),
                joined("Space: ", space.id.as_str()),
            );
            assert(spaces[i as int] == space@);
            assert(wanted[i + 1] == item@);
            items.push(item);
            assert(items.deep_view() =~= before.push(item@));
            assert(wanted.take(i + 2) =~= wanted.take(i + 1).push(wanted[i + 1]));
            i = i + 1;
        }
        assert(wanted.take(wanted.len() as int) =~= wanted);
        items
    }

    /// Draws the window.
    pub fn render(&mut self, backend: &MatrixBackend) -> (r: Screen)
        requires
            can_draw(old(self)@, backend@),
        ensures
            r@ == screen_of(old(self)@, backend@),
            final(self)@ == after_drawing(old(self)@, backend@),
    {
        let ghost app = self@;
        let main_menu = vec![
            open_sidebar("Direct Messages", None, "Direct Messages".to_owned()),
            open_sidebar("Rooms", None, "Rooms".to_owned()),
        ];
        assert(main_menu.deep_view() =~= screen_of(app, backend@).main_menu);
        let spaces_menu = self.render_spaces();
        let settings_item = open_sidebar("Settings", None, "Settings".to_owned());
        let secondary = self.render_secondary(backend);
        let details = if self.show_room_details && self.active_item.is_some() {
            Some(self.render_room_details_panel())
        } else {
            None
        };
        let modal = if backend.pending_verification.is_some() {
            Some(Modal::Verification { pane: self.render_verification_challenge_modal(backend) })
        } else if self.active_dialog.is_some() {
            Some(Modal::Dialog { pane: self.render_modal_dialog(backend) })
        } else {
            None
        };
        let content = self.render_content(backend);
        Screen { main_menu, spaces_menu, settings_item, secondary, content, details, modal }
    }
}

/// A screen that does not scroll but is the same otherwise.
pub open spec fn at_rest(screen: ScreenView) -> ScreenView {
    ScreenView {
        content: match screen.content {
            ContentView::Room { pane } => ContentView::Room {
                pane: RoomPaneView { scroll_to_bottom: false, ..pane },
            },
            content => content,
        },
        ..screen
    }
}

/// Drawing leaves the state alone but for the count of the room it draws: a second drawing shows
/// the same, does not scroll again, and changes nothing more.
pub proof fn lemma_drawing_twice(app: AvernusAppView, b: BackendView)
    requires
        forall|id: Seq<char>| (#[trigger] history_of(b.messages, id)).len() <= usize::MAX,
    ensures
        screen_of(after_drawing(app, b), b) == at_rest(screen_of(app, b)),
        after_drawing(after_drawing(app, b), b) == after_drawing(app, b),
        (AvernusAppView {
            last_message_count: app.last_message_count,
            ..after_drawing(app, b)
        }) == app,
{
    if let Some(id) = drawn_room(app) {
        let n = history_of(b.messages, id).len();
        assert(n <= usize::MAX);
        let counts = after_drawing(app, b).last_message_count;
        assert(counts.insert(id, n as usize) =~= counts);
    }
}

/// A verification that waits for the user lies over the window, whatever dialog is open.
pub proof fn lemma_verification_goes_first(app: AvernusAppView, b: BackendView)
    requires
        b.pending_verification is Some,
    ensures
        modal_of(app, b) matches Some(ModalView::Verification { pane }) && pane is Challenge,
{
}

/// Every room has its place in exactly one of the two lists of rooms.
pub proof fn lemma_room_is_listed_once(b: BackendView, room: RoomInfoView)
    requires
        distinct_rooms(b.rooms),
        b.rooms.contains(room),
    ensures
        rooms_of_kind(b.rooms, room.is_direct).contains(room),
        !rooms_of_kind(b.rooms, !room.is_direct).contains(room),
{
    let direct = room.is_direct;
    let same = |r: RoomInfoView| r.is_direct == direct;
    let other = |r: RoomInfoView| r.is_direct == !direct;
    lemma_filtered_rooms_stay_distinct(b.rooms, same);
    lemma_unique_rooms_is_idempotent(b.rooms.filter(same));
    lemma_filtered_rooms_stay_distinct(b.rooms, other);
    lemma_unique_rooms_is_idempotent(b.rooms.filter(other));
    let i = choose|i: int| 0 <= i < b.rooms.len() && b.rooms[i] == room;
    b.rooms.lemma_filter_contains(same, i);
    if b.rooms.filter(other).contains(room) {
        let j = choose|j: int|
            0 <= j < b.rooms.filter(other).len() && b.rooms.filter(other)[j] == room;
        b.rooms.lemma_filter_pred(other, j);
    }
}

/// A window that shows no room id with other than ASCII characters can be drawn.
pub proof fn lemma_ascii_ids_can_be_drawn(app: AvernusAppView, b: BackendView)
    requires
        forall|i: int, k: int|
            0 <= i < shown_rooms(app, b).len() && 0 <= k < shown_rooms(app, b)[i].id.len()
                ==> #[trigger] shown_rooms(app, b)[i].id[k] <= '\u{7f}',
        drawn_room(app) matches Some(id) ==> forall|k: int|
            0 <= k < id.len() ==> #[trigger] id[k] <= '\u{7f}',
    ensures
        can_draw(app, b),
{
    assert forall|i: int| 0 <= i < shown_rooms(app, b).len() implies shortened(
        (#[trigger] shown_rooms(app, b)[i]).id,
    ) is Some by {
        lemma_ascii_is_shortened(shown_rooms(app, b)[i].id);
    }
    if let Some(id) = drawn_room(app) {
        lemma_ascii_is_shortened(id);
    }
}

} // verus!
