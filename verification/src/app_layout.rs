//! What the window shows, and what the user does with it.

use crate::text::{
    joined, lemma_trimmed_ends, lemma_trimmed_stays, same_text, starts_with, starts_with_char, trim,
    trimmed,
};
use vstd::prelude::*;

verus! {

/// A space of the sidebar. `icon` is the path of its icon.
#[derive(Debug)]
pub struct Space {
    pub id: String,
    pub name: String,
    pub icon: String,
}

/// The contents of a [`Space`].
#[verifier::ext_equal]
pub struct SpaceView {
    pub id: Seq<char>,
    pub name: Seq<char>,
    pub icon: Seq<char>,
}

impl View for Space {
    type V = SpaceView;

    open spec fn view(&self) -> SpaceView {
        SpaceView { id: self.id@, name: self.name@, icon: self.icon@ }
    }
}

impl DeepView for Space {
    type V = SpaceView;

    open spec fn deep_view(&self) -> SpaceView {
        self@
    }
}

impl Clone for Space {
    fn clone(&self) -> (r: Self)
        ensures
            r@ == self@,
    {
        Space { id: self.id.clone(), name: self.name.clone(), icon: self.icon.clone() }
    }
}

impl PartialEq for Space {
    fn eq(&self, other: &Self) -> (r: bool) {
        same_text(self.id.as_str(), other.id.as_str()) && same_text(
            self.name.as_str(),
            other.name.as_str(),
        ) && same_text(self.icon.as_str(), other.icon.as_str())
    }
}

impl vstd::std_specs::cmp::PartialEqSpecImpl for Space {
    open spec fn obeys_eq_spec() -> bool {
        true
    }

    open spec fn eq_spec(&self, other: &Self) -> bool {
        self@ == other@
    }
}

impl Eq for Space {}

/// A dialog.
#[derive(Clone, Copy, Debug, PartialEq, Eq, Structural)]
pub enum DialogType {
    StartConversation,
    NewRoom,
    DiscoverAndJoin,
    AccountSignIn,
}

/// A tab of the details of a room.
#[derive(Clone, Copy, Debug, PartialEq, Eq, Structural)]
pub enum RoomDetailsTab {
    Members,
    Details,
}

struct RoomCount {
    room_id: String,
    count: usize,
}

/// A number for each of some rooms.
pub struct RoomCounts {
    entries: Vec<RoomCount>,
}

/// The number that stands first under `id`.
spec fn first_count(entries: Seq<RoomCount>, id: Seq<char>) -> Option<usize>
    decreases entries.len(),
{
    if entries.len() == 0 {
        None
    } else if entries.first().room_id@ == id {
        Some(entries.first().count)
    } else {
        first_count(entries.drop_first(), id)
    }
}

impl View for RoomCounts {
    type V = Map<Seq<char>, usize>;

    closed spec fn view(&self) -> Map<Seq<char>, usize> {
        Map::new(
            |id: Seq<char>| first_count(self.entries@, id) is Some,
            |id: Seq<char>| first_count(self.entries@, id)->0,
        )
    }
}

proof fn lemma_first_count_at(entries: Seq<RoomCount>, i: int, id: Seq<char>)
    requires
        0 <= i <= entries.len(),
        forall|k: int| 0 <= k < i ==> (#[trigger] entries[k]).room_id@ != id,
        i < entries.len() ==> entries[i].room_id@ == id,
    ensures
        first_count(entries, id) == if i < entries.len() {
            Some(entries[i].count)
        } else {
            None
        },
    decreases entries.len(),
{
    if i > 0 {
        let rest = entries.drop_first();
        assert forall|k: int| 0 <= k < i - 1 implies (#[trigger] rest[k]).room_id@ != id by {
            assert(rest[k] == entries[k + 1]);
        }
        lemma_first_count_at(rest, i - 1, id);
    }
}

/// A new number in place of the first one under its room leaves the other rooms alone.
proof fn lemma_first_count_update(entries: Seq<RoomCount>, i: int, e: RoomCount, id: Seq<char>)
    requires
        0 <= i <= entries.len(),
        forall|k: int| 0 <= k < i ==> (#[trigger] entries[k]).room_id@ != e.room_id@,
        i < entries.len() ==> entries[i].room_id@ == e.room_id@,
    ensures
        first_count(
            if i < entries.len() {
                entries.update(i, e)
            } else {
                entries.push(e)
            },
            id,
        ) == if id == e.room_id@ {
            Some(e.count)
        } else {
            first_count(entries, id)
        },
    decreases entries.len(),
{
    let out = if i < entries.len() {
        entries.update(i, e)
    } else {
        entries.push(e)
    };
    if i > 0 {
        let rest = entries.drop_first();
        assert forall|k: int| 0 <= k < i - 1 implies (#[trigger] rest[k]).room_id@
            != e.room_id@ by {
            assert(rest[k] == entries[k + 1]);
        }
        lemma_first_count_update(rest, i - 1, e, id);
        assert(out.drop_first() =~= if i - 1 < rest.len() {
            rest.update(i - 1, e)
        } else {
            rest.push(e)
        });
        assert(out.first() == entries.first());
        assert(entries[0].room_id@ != e.room_id@);
    } else {
        assert(out.first() == e);
        if entries.len() > 0 {
            assert(out.drop_first() =~= entries.drop_first());
        } else {
            assert(out.drop_first() =~= entries);
        }
    }
}

impl RoomCounts {
    /// No number for any room.
    pub fn new() -> (r: RoomCounts)
        ensures
            r@ == Map::<Seq<char>, usize>::empty(),
    {
        let r = RoomCounts { entries: Vec::new() };
        assert(r@ =~= Map::<Seq<char>, usize>::empty());
        r
    }

    /// The place of the first entry of the room `id`, or the number of entries.
    fn position(&self, id: &str) -> (r: usize)
        ensures
            r <= self.entries@.len(),
            forall|k: int| 0 <= k < r ==> (#[trigger] self.entries@[k]).room_id@ != id@,
            r < self.entries@.len() ==> self.entries@[r as int].room_id@ == id@,
    {
        let mut i: usize = 0;
        while i < self.entries.len()
            invariant
                i <= self.entries.len(),
                forall|k: int| 0 <= k < i ==> (#[trigger] self.entries@[k]).room_id@ != id@,
            decreases self.entries.len() - i,
        {
            if same_text(self.entries[i].room_id.as_str(), id) {
                return i;
            }
            i = i + 1;
        }
        i
    }

    /// The number of the room `id`, if it has one.
    pub fn get(&self, id: &str) -> (r: Option<usize>)
        ensures
            r == if self@.contains_key(id@) {
                Some(self@[id@])
            } else {
                None
            },
    {
        let i: usize = self.position(id);
        proof {
            lemma_first_count_at(self.entries@, i as int, id@);
        }
        if i < self.entries.len() {
            Some(self.entries[i].count)
        } else {
            None
        }
    }

    /// Gives the room `id` the number `count`.
    pub fn insert(&mut self, id: &str, count: usize)
        ensures
            final(self)@ == old(self)@.insert(id@, count),
    {
        let i: usize = self.position(id);
        let ghost raw = self.entries@;
        let e = RoomCount { room_id: id.to_owned(), count };
        if i < self.entries.len() {
            self.entries.set(i, e);
        } else {
            self.entries.push(e);
        }
        proof {
            assert forall|key: Seq<char>| #[trigger]
                first_count(self.entries@, key) == if key == id@ {
                    Some(count)
                } else {
                    first_count(raw, key)
                } by {
                lemma_first_count_update(raw, i as int, e, key);
            }
            assert(self@ =~= old(self)@.insert(id@, count));
        }
    }
}

/// What the user does.
#[allow(inconsistent_fields)]
pub enum Action {
    /// Opens a sidebar.
    OpenSidebar { key: String },
    /// Opens a dialog.
    OpenDialog { dialog: DialogType },
    /// Closes the dialog.
    CancelDialog,
    /// Submits the dialog with what was typed.
    SubmitDialog { text: String },
    /// Opens a room.
    SelectRoom { room_id: String },
    /// Leaves a room.
    LeaveRoom { room_id: String },
    /// Joins a room that the dialog found.
    JoinFound { room: String },
    /// Joins a room that the discover panel lists.
    JoinListed { room: String },
    /// Sends what was typed.
    SubmitMessage { text: String },
    /// Searches for what was typed in the discover panel.
    SubmitSearch { text: String },
    /// Sends the file that was picked, with what was typed as its caption.
    AttachFile { text: String },
    /// Verifies this device with another one.
    VerifySession,
    /// Ends a session whose encryption went stale.
    ResetEncryption,
    /// Logs in with a password.
    LogIn { username: String, password: String },
    /// Logs in through the browser.
    LogInWithBrowser { homeserver: String },
    /// Logs out.
    LogOut,
    /// Shows or hides the details of the room.
    ToggleDetails,
    /// Hides the details of the room.
    CloseDetails,
    /// Shows a tab of the details.
    SelectTab { tab: RoomDetailsTab },
    /// Says that the emoji match.
    ConfirmEmoji { user_id: String, flow_id: String },
    /// Says that the emoji do not match.
    RejectEmoji { user_id: String, flow_id: String },
    /// Closes the verification.
    DismissVerification,
}

/// The contents of a [`Action`].
#[allow(inconsistent_fields)]
#[verifier::ext_equal]
pub enum ActionView {
    OpenSidebar { key: Seq<char> },
    OpenDialog { dialog: DialogType },
    CancelDialog,
    SubmitDialog { text: Seq<char> },
    SelectRoom { room_id: Seq<char> },
    LeaveRoom { room_id: Seq<char> },
    JoinFound { room: Seq<char> },
    JoinListed { room: Seq<char> },
    SubmitMessage { text: Seq<char> },
    SubmitSearch { text: Seq<char> },
    AttachFile { text: Seq<char> },
    VerifySession,
    ResetEncryption,
    LogIn { username: Seq<char>, password: Seq<char> },
    LogInWithBrowser { homeserver: Seq<char> },
    LogOut,
    ToggleDetails,
    CloseDetails,
    SelectTab { tab: RoomDetailsTab },
    ConfirmEmoji { user_id: Seq<char>, flow_id: Seq<char> },
    RejectEmoji { user_id: Seq<char>, flow_id: Seq<char> },
    DismissVerification,
}

impl View for Action {
    type V = ActionView;

    open spec fn view(&self) -> ActionView {
        match *self {
            Action::OpenSidebar { key } => ActionView::OpenSidebar { key: key@ },
            Action::OpenDialog { dialog } => ActionView::OpenDialog { dialog },
            Action::CancelDialog => ActionView::CancelDialog,
            Action::SubmitDialog { text } => ActionView::SubmitDialog { text: text@ },
            Action::SelectRoom { room_id } => ActionView::SelectRoom { room_id: room_id@ },
            Action::LeaveRoom { room_id } => ActionView::LeaveRoom { room_id: room_id@ },
            Action::JoinFound { room } => ActionView::JoinFound { room: room@ },
            Action::JoinListed { room } => ActionView::JoinListed { room: room@ },
            Action::SubmitMessage { text } => ActionView::SubmitMessage { text: text@ },
            Action::SubmitSearch { text } => ActionView::SubmitSearch { text: text@ },
            Action::AttachFile { text } => ActionView::AttachFile { text: text@ },
            Action::VerifySession => ActionView::VerifySession,
            Action::ResetEncryption => ActionView::ResetEncryption,
            Action::LogIn { username, password } => ActionView::LogIn {
                username: username@,
                password: password@,
            },
            Action::LogInWithBrowser { homeserver } => ActionView::LogInWithBrowser {
                homeserver: homeserver@,
            },
            Action::LogOut => ActionView::LogOut,
            Action::ToggleDetails => ActionView::ToggleDetails,
            Action::CloseDetails => ActionView::CloseDetails,
            Action::SelectTab { tab } => ActionView::SelectTab { tab },
            Action::ConfirmEmoji { user_id, flow_id } => ActionView::ConfirmEmoji {
                user_id: user_id@,
                flow_id: flow_id@,
            },
            Action::RejectEmoji { user_id, flow_id } => ActionView::RejectEmoji {
                user_id: user_id@,
                flow_id: flow_id@,
            },
            Action::DismissVerification => ActionView::DismissVerification,
        }
    }
}

impl DeepView for Action {
    type V = ActionView;

    open spec fn deep_view(&self) -> ActionView {
        self@
    }
}

impl Clone for Action {
    fn clone(&self) -> (r: Self)
        ensures
            r@ == self@,
    {
        match self {
            Action::OpenSidebar { key } => Action::OpenSidebar { key: key.clone() },
            Action::OpenDialog { dialog } => Action::OpenDialog { dialog: *dialog },
            Action::CancelDialog => Action::CancelDialog,
            Action::SubmitDialog { text } => Action::SubmitDialog { text: text.clone() },
            Action::SelectRoom { room_id } => Action::SelectRoom { room_id: room_id.clone() },
            Action::LeaveRoom { room_id } => Action::LeaveRoom { room_id: room_id.clone() },
            Action::JoinFound { room } => Action::JoinFound { room: room.clone() },
            Action::JoinListed { room } => Action::JoinListed { room: room.clone() },
            Action::SubmitMessage { text } => Action::SubmitMessage { text: text.clone() },
            Action::SubmitSearch { text } => Action::SubmitSearch { text: text.clone() },
            Action::AttachFile { text } => Action::AttachFile { text: text.clone() },
            Action::VerifySession => Action::VerifySession,
            Action::ResetEncryption => Action::ResetEncryption,
            Action::LogIn { username, password } => Action::LogIn {
                username: username.clone(),
                password: password.clone(),
            },
            Action::LogInWithBrowser { homeserver } => Action::LogInWithBrowser {
                homeserver: homeserver.clone(),
            },
            Action::LogOut => Action::LogOut,
            Action::ToggleDetails => Action::ToggleDetails,
            Action::CloseDetails => Action::CloseDetails,
            Action::SelectTab { tab } => Action::SelectTab { tab: *tab },
            Action::ConfirmEmoji { user_id, flow_id } => Action::ConfirmEmoji {
                user_id: user_id.clone(),
                flow_id: flow_id.clone(),
            },
            Action::RejectEmoji { user_id, flow_id } => Action::RejectEmoji {
                user_id: user_id.clone(),
                flow_id: flow_id.clone(),
            },
            Action::DismissVerification => Action::DismissVerification,
        }
    }
}

/// What the user asks of the client.
#[allow(inconsistent_fields)]
pub enum Request {
    /// A direct chat.
    CreateDirectChat { user_id: String },
    /// A new room.
    CreateRoom { name: String },
    /// To join a room.
    Join { room: String },
    /// A search of the public room directory.
    Search { query: String },
    /// The messages of a room.
    LoadHistory { room_id: String },
    /// To leave a room.
    Leave { room_id: String },
    /// To send a text.
    SendMessage { room_id: String, text: String },
    /// To send the file that was picked.
    SendAttachment { room_id: String, caption: Option<String> },
    /// A session with a password.
    LogIn { username: String, password: String },
    /// A session through the browser.
    LogInWithBrowser { homeserver: String },
    /// A session from the saved one.
    Restore,
    /// The end of the session.
    LogOut,
    /// To verify this device.
    VerifySession,
    /// The end of a stale session.
    ResetEncryption,
    /// To confirm a verification.
    ConfirmVerification { user_id: String, flow_id: String },
    /// To reject a verification.
    RejectVerification { user_id: String, flow_id: String },
    /// To forget a verification.
    DismissVerification,
}

/// The contents of a [`Request`].
#[allow(inconsistent_fields)]
#[verifier::ext_equal]
pub enum RequestView {
    CreateDirectChat { user_id: Seq<char> },
    CreateRoom { name: Seq<char> },
    Join { room: Seq<char> },
    Search { query: Seq<char> },
    LoadHistory { room_id: Seq<char> },
    Leave { room_id: Seq<char> },
    SendMessage { room_id: Seq<char>, text: Seq<char> },
    SendAttachment { room_id: Seq<char>, caption: Option<Seq<char>> },
    LogIn { username: Seq<char>, password: Seq<char> },
    LogInWithBrowser { homeserver: Seq<char> },
    Restore,
    LogOut,
    VerifySession,
    ResetEncryption,
    ConfirmVerification { user_id: Seq<char>, flow_id: Seq<char> },
    RejectVerification { user_id: Seq<char>, flow_id: Seq<char> },
    DismissVerification,
}

impl View for Request {
    type V = RequestView;

    open spec fn view(&self) -> RequestView {
        match *self {
            Request::CreateDirectChat { user_id } => RequestView::CreateDirectChat {
                user_id: user_id@,
            },
            Request::CreateRoom { name } => RequestView::CreateRoom { name: name@ },
            Request::Join { room } => RequestView::Join { room: room@ },
            Request::Search { query } => RequestView::Search { query: query@ },
            Request::LoadHistory { room_id } => RequestView::LoadHistory { room_id: room_id@ },
            Request::Leave { room_id } => RequestView::Leave { room_id: room_id@ },
            Request::SendMessage { room_id, text } => RequestView::SendMessage {
                room_id: room_id@,
                text: text@,
            },
            Request::SendAttachment { room_id, caption } => RequestView::SendAttachment {
                room_id: room_id@,
                caption: caption.deep_view(),
            },
            Request::LogIn { username, password } => RequestView::LogIn {
                username: username@,
                password: password@,
            },
            Request::LogInWithBrowser { homeserver } => RequestView::LogInWithBrowser {
                homeserver: homeserver@,
            },
            Request::Restore => RequestView::Restore,
            Request::LogOut => RequestView::LogOut,
            Request::VerifySession => RequestView::VerifySession,
            Request::ResetEncryption => RequestView::ResetEncryption,
            Request::ConfirmVerification { user_id, flow_id } => RequestView::ConfirmVerification {
                user_id: user_id@,
                flow_id: flow_id@,
            },
            Request::RejectVerification { user_id, flow_id } => RequestView::RejectVerification {
                user_id: user_id@,
                flow_id: flow_id@,
            },
            Request::DismissVerification => RequestView::DismissVerification,
        }
    }
}

impl DeepView for Request {
    type V = RequestView;

    open spec fn deep_view(&self) -> RequestView {
        self@
    }
}

/// What the window shows.
pub struct AvernusApp {
    /// The sidebar that is open.
    pub active_sidebar: Option<String>,
    /// The room that is open.
    pub active_item: Option<String>,
    /// The dialog that is open.
    pub active_dialog: Option<DialogType>,
    /// Whether the details of the room are shown.
    pub show_room_details: bool,
    /// The tab of the details that is open.
    pub room_details_tab: RoomDetailsTab,
    /// The spaces of the sidebar.
    pub joined_spaces: Vec<Space>,
    /// How many messages each room showed last.
    pub last_message_count: RoomCounts,
}

/// The contents of a [`AvernusApp`].
#[verifier::ext_equal]
pub struct AvernusAppView {
    pub active_sidebar: Option<Seq<char>>,
    pub active_item: Option<Seq<char>>,
    pub active_dialog: Option<DialogType>,
    pub show_room_details: bool,
    pub room_details_tab: RoomDetailsTab,
    pub joined_spaces: Seq<SpaceView>,
    pub last_message_count: Map<Seq<char>, usize>,
}

impl View for AvernusApp {
    type V = AvernusAppView;

    open spec fn view(&self) -> AvernusAppView {
        AvernusAppView {
            active_sidebar: self.active_sidebar.deep_view(),
            active_item: self.active_item.deep_view(),
            active_dialog: self.active_dialog,
            show_room_details: self.show_room_details,
            room_details_tab: self.room_details_tab,
            joined_spaces: self.joined_spaces.deep_view(),
            last_message_count: self.last_message_count@,
        }
    }
}

impl DeepView for AvernusApp {
    type V = AvernusAppView;

    open spec fn deep_view(&self) -> AvernusAppView {
        self@
    }
}

/// What an action comes to.
pub struct Outcome {
    /// What the client is asked for, if anything.
    pub request: Option<Request>,
    /// Whether what was typed as a message is taken, so that its input is cleared.
    pub clear_input: bool,
}

/// The state after an action and what the action comes to.
#[verifier::ext_equal]
pub struct Acted {
    pub app: AvernusAppView,
    pub request: Option<RequestView>,
    pub clear_input: bool,
}

/// A window in which nothing is open.
pub open spec fn blank_app() -> AvernusAppView {
    AvernusAppView {
        active_sidebar: None,
        active_item: None,
        active_dialog: None,
        show_room_details: false,
        room_details_tab: RoomDetailsTab::Members,
        joined_spaces: Seq::empty(),
        last_message_count: Map::empty(),
    }
}

/// The sidebar of the discover panel.
pub open spec fn discover_key() -> Seq<char> {
    "Space: Discover"@
}

/// Whether the user means a certain room by `query`, and does not search.
pub open spec fn names_room(query: Seq<char>) -> bool {
    (query.len() > 0 && (query[0] == '#' || query[0] == '!')) || "http://"@.is_prefix_of(query)
        || "https://"@.is_prefix_of(query)
}

/// What the user asks for with `query`: to join the room it names, or to search.
pub open spec fn join_or_search(query: Seq<char>) -> RequestView {
    if names_room(query) {
        RequestView::Join { room: query }
    } else {
        RequestView::Search { query }
    }
}

/// The homeserver URL that the user means by `text`.
pub open spec fn with_scheme(text: Seq<char>) -> Seq<char> {
    if "http://"@.is_prefix_of(text) || "https://"@.is_prefix_of(text) {
        text
    } else {
        "https://"@ + text
    }
}

/// What submitting a dialog with `query` asks for.
pub open spec fn dialog_request(dialog: Option<DialogType>, query: Seq<char>) -> Option<
    RequestView,
> {
    if query.len() == 0 {
        None
    } else {
        match dialog {
            Some(DialogType::StartConversation) => Some(
                RequestView::CreateDirectChat { user_id: query },
            ),
            Some(DialogType::NewRoom) => Some(RequestView::CreateRoom { name: query }),
            Some(DialogType::DiscoverAndJoin) => Some(join_or_search(query)),
            Some(DialogType::AccountSignIn) => Some(
                RequestView::LogInWithBrowser { homeserver: with_scheme(query) },
            ),
            None => None,
        }
    }
}

/// The dialog that is open after `dialog` was submitted: only the search stays.
pub open spec fn dialog_after_submit(dialog: Option<DialogType>) -> Option<DialogType> {
    if dialog == Some(DialogType::DiscoverAndJoin) {
        dialog
    } else {
        None
    }
}

/// The state after an action that only changes the window.
pub open spec fn shown(app: AvernusAppView) -> Acted {
    Acted { app, request: None, clear_input: false }
}

/// The state after an action that asks the client for something.
pub open spec fn requested(app: AvernusAppView, request: RequestView) -> Acted {
    Acted { app, request: Some(request), clear_input: false }
}

/// The state after an action and what the action comes to.
pub open spec fn acted(app: AvernusAppView, action: ActionView) -> Acted {
    match action {
        ActionView::OpenSidebar { key } => shown(
            AvernusAppView { active_sidebar: Some(key), active_item: None, ..app },
        ),
        ActionView::OpenDialog { dialog } => shown(
            AvernusAppView { active_dialog: Some(dialog), ..app },
        ),
        ActionView::CancelDialog => shown(AvernusAppView { active_dialog: None, ..app }),
        ActionView::SubmitDialog { text } => Acted {
            app: AvernusAppView { active_dialog: dialog_after_submit(app.active_dialog), ..app },
            request: dialog_request(app.active_dialog, trimmed(text)),
            clear_input: false,
        },
        ActionView::SelectRoom { room_id } => requested(
            AvernusAppView { active_item: Some(room_id), ..app },
            RequestView::LoadHistory { room_id },
        ),
        ActionView::LeaveRoom { room_id } => requested(app, RequestView::Leave { room_id }),
        ActionView::JoinFound { room } => requested(
            AvernusAppView { active_dialog: None, ..app },
            RequestView::Join { room },
        ),
        ActionView::JoinListed { room } => requested(
            AvernusAppView { active_sidebar: Some(discover_key()), ..app },
            RequestView::Join { room },
        ),
        ActionView::SubmitMessage { text } => match app.active_item {
            Some(room_id) => if trimmed(text).len() > 0 {
                Acted {
                    app,
                    request: Some(RequestView::SendMessage { room_id, text: trimmed(text) }),
                    clear_input: true,
                }
            } else {
                shown(app)
            },
            None => shown(app),
        },
        ActionView::SubmitSearch { text } => if app.active_sidebar == Some(discover_key())
            && trimmed(text).len() > 0 {
            requested(app, join_or_search(trimmed(text)))
        } else {
            shown(app)
        },
        ActionView::AttachFile { text } => match app.active_item {
            Some(room_id) => Acted {
                app,
                request: Some(
                    RequestView::SendAttachment {
                        room_id,
                        caption: if trimmed(text).len() > 0 {
                            Some(trimmed(text))
                        } else {
                            None
                        },
                    },
                ),
                clear_input: true,
            },
            None => shown(app),
        },
        ActionView::VerifySession => requested(app, RequestView::VerifySession),
        ActionView::ResetEncryption => requested(app, RequestView::ResetEncryption),
        ActionView::LogIn { username, password } => if trimmed(username).len() > 0 && trimmed(
            password,
        ).len() > 0 {
            requested(
                app,
                RequestView::LogIn { username: trimmed(username), password: trimmed(password) },
            )
        } else {
            shown(app)
        },
        ActionView::LogInWithBrowser { homeserver } => requested(
            AvernusAppView { active_dialog: None, ..app },
            RequestView::LogInWithBrowser { homeserver },
        ),
        ActionView::LogOut => requested(
            AvernusAppView {
                active_sidebar: Some("Settings"@),
                active_item: None,
                active_dialog: None,
                ..app
            },
            RequestView::LogOut,
        ),
        ActionView::ToggleDetails => shown(
            AvernusAppView { show_room_details: !app.show_room_details, ..app },
        ),
        ActionView::CloseDetails => shown(AvernusAppView { show_room_details: false, ..app }),
        ActionView::SelectTab { tab } => shown(AvernusAppView { room_details_tab: tab, ..app }),
        ActionView::ConfirmEmoji { user_id, flow_id } => requested(
            app,
            RequestView::ConfirmVerification { user_id, flow_id },
        ),
        ActionView::RejectEmoji { user_id, flow_id } => requested(
            app,
            RequestView::RejectVerification { user_id, flow_id },
        ),
        ActionView::DismissVerification => requested(app, RequestView::DismissVerification),
    }
}

fn show() -> (r: Outcome)
    ensures
        r.request.deep_view() == None::<RequestView>,
        !r.clear_input,
{
    Outcome { request: None, clear_input: false }
}

fn ask(request: Request) -> (r: Outcome)
    ensures
        r.request.deep_view() == Some(request@),
        !r.clear_input,
{
    Outcome { request: Some(request), clear_input: false }
}

fn query_request(query: &str) -> (r: Request)
    ensures
        r@ == join_or_search(query@),
{
    if starts_with_char(query, '#') || starts_with_char(query, '!') || starts_with(
        query,
        "http://",
    ) || starts_with(query, "https://") {
        Request::Join { room: query.to_owned() }
    } else {
        Request::Search { query: query.to_owned() }
    }
}

fn submit_request(dialog: Option<DialogType>, query: &str) -> (r: Option<Request>)
    ensures
        r.deep_view() == dialog_request(dialog, query@),
{
    if query.unicode_len() == 0 {
        return None;
    }
    match dialog {
        Some(DialogType::StartConversation) => Some(
            Request::CreateDirectChat { user_id: query.to_owned() },
        ),
        Some(DialogType::NewRoom) => Some(Request::CreateRoom { name: query.to_owned() }),
        Some(DialogType::DiscoverAndJoin) => Some(query_request(query)),
        Some(DialogType::AccountSignIn) => {
            let homeserver = if starts_with(query, "http://") || starts_with(query, "https://") {
                query.to_owned()
            } else {
                joined("https://", query)
            };
            Some(Request::LogInWithBrowser { homeserver })
        },
        None => None,
    }
}

impl AvernusApp {
    /// A window in which nothing is open.
    pub fn new() -> (r: AvernusApp)
        ensures
            r@ == blank_app(),
    {
        let r = AvernusApp {
            active_sidebar: None,
            active_item: None,
            active_dialog: None,
            show_room_details: false,
            room_details_tab: RoomDetailsTab::Members,
            joined_spaces: Vec::new(),
            last_message_count: RoomCounts::new(),
        };
        assert(r@ =~= blank_app());
        r
    }

    /// Whether the sidebar `key` is open.
    pub fn is_open(&self, key: &str) -> (r: bool)
        ensures
            r == (self@.active_sidebar == Some(key@)),
    {
        match &self.active_sidebar {
            Some(open) => same_text(open.as_str(), key),
            None => false,
        }
    }

    /// Sends what was typed to the room that is open.
    fn submit_message(&self, text: &str) -> (r: Outcome)
        ensures
            acted(self@, ActionView::SubmitMessage { text: text@ }) == (Acted {
                app: self@,
                request: r.request.deep_view(),
                clear_input: r.clear_input,
            }),
    {
        match &self.active_item {
            Some(room_id) => {
                let text = trim(text);
                if text.unicode_len() > 0 {
                    let request = Request::SendMessage {
                        room_id: room_id.clone(),
                        text: text.to_owned(),
                    };
                    Outcome { request: Some(request), clear_input: true }
                } else {
                    show()
                }
            },
            None => show(),
        }
    }

    /// Sends the file that was picked to the room that is open.
    fn attach_file(&self, text: &str) -> (r: Outcome)
        ensures
            acted(self@, ActionView::AttachFile { text: text@ }) == (Acted {
                app: self@,
                request: r.request.deep_view(),
                clear_input: r.clear_input,
            }),
    {
        match &self.active_item {
            Some(room_id) => {
                let text = trim(text);
                let caption = if text.unicode_len() > 0 {
                    Some(text.to_owned())
                } else {
                    None
                };
                let request = Request::SendAttachment { room_id: room_id.clone(), caption };
                Outcome { request: Some(request), clear_input: true }
            },
            None => show(),
        }
    }

    /// Does what the user does.
    pub fn act(&mut self, action: Action) -> (r: Outcome)
        ensures
            final(self)@ == acted(old(self)@, action@).app,
            r.request.deep_view() == acted(old(self)@, action@).request,
            r.clear_input == acted(old(self)@, action@).clear_input,
    {
        match action {
            Action::OpenSidebar { key } => {
                self.active_sidebar = Some(key);
                self.active_item = None;
                show()
            },
            Action::OpenDialog { dialog } => {
                self.active_dialog = Some(dialog);
                show()
            },
            Action::CancelDialog => {
                self.active_dialog = None;
                show()
            },
            Action::SubmitDialog { text } => {
                let dialog: Option<DialogType> = self.active_dialog;
                match dialog {
                    Some(DialogType::DiscoverAndJoin) => {},
                    _ => {
                        self.active_dialog = None;
                    },
                }
                Outcome {
                    request: submit_request(dialog, trim(text.as_str())),
                    clear_input: false,
                }
            },
            Action::SelectRoom { room_id } => {
                self.active_item = Some(room_id.clone());
                ask(Request::LoadHistory { room_id })
            },
            Action::LeaveRoom { room_id } => ask(Request::Leave { room_id }),
            Action::JoinFound { room } => {
                self.active_dialog = None;
                ask(Request::Join { room })
            },
            Action::JoinListed { room } => {
                self.active_sidebar = Some("Space: Discover".to_owned());
                ask(Request::Join { room })
            },
            Action::SubmitMessage { text } => self.submit_message(text.as_str()),
            Action::SubmitSearch { text } => {
                let query = trim(text.as_str());
                if self.is_open("Space: Discover") && query.unicode_len() > 0 {
                    ask(query_request(query))
                } else {
                    show()
                }
            },
            Action::AttachFile { text } => self.attach_file(text.as_str()),
            Action::VerifySession => ask(Request::VerifySession),
            Action::ResetEncryption => ask(Request::ResetEncryption),
            Action::LogIn { username, password } => {
                let username = trim(username.as_str());
                let password = trim(password.as_str());
                if username.unicode_len() > 0 && password.unicode_len() > 0 {
                    ask(
                        Request::LogIn {
                            username: username.to_owned(),
                            password: password.to_owned(),
                        },
                    )
                } else {
                    show()
                }
            },
            Action::LogInWithBrowser { homeserver } => {
                self.active_dialog = None;
                ask(Request::LogInWithBrowser { homeserver })
            },
            Action::LogOut => {
                self.active_sidebar = Some("Settings".to_owned());
                self.active_item = None;
                self.active_dialog = None;
                ask(Request::LogOut)
            },
            Action::ToggleDetails => {
                self.show_room_details = !self.show_room_details;
                show()
            },
            Action::CloseDetails => {
                self.show_room_details = false;
                show()
            },
            Action::SelectTab { tab } => {
                self.room_details_tab = tab;
                show()
            },
            Action::ConfirmEmoji { user_id, flow_id } => ask(
                Request::ConfirmVerification { user_id, flow_id },
            ),
            Action::RejectEmoji { user_id, flow_id } => ask(
                Request::RejectVerification { user_id, flow_id },
            ),
            Action::DismissVerification => ask(Request::DismissVerification),
        }
    }
}

/// How the program begins.
pub struct Startup {
    /// The session to begin.
    pub request: Request,
    /// Whether the user is to be told how to sign in.
    pub hint: bool,
}

/// The first of two settings that is there.
pub open spec fn either(
    first: Option<Seq<char>>,
    second: Option<Seq<char>>,
    default: Seq<char>,
) -> Seq<char> {
    match first {
        Some(text) => text,
        None => match second {
            Some(text) => text,
            None => default,
        },
    }
}

/// The session that the program begins with: that of the account that is set up, where both its
/// name and its password are, else the saved one.
pub open spec fn first_request(username: Seq<char>, password: Seq<char>) -> RequestView {
    if username.len() > 0 && password.len() > 0 {
        RequestView::LogIn { username, password }
    } else {
        RequestView::Restore
    }
}

/// The first of two settings that is there.
pub fn either_setting(first: Option<String>, second: Option<String>, default: &str) -> (r: String)
    ensures
        r@ == either(first.deep_view(), second.deep_view(), default@),
{
    match first {
        Some(text) => text,
        None => match second {
            Some(text) => text,
            None => default.to_owned(),
        },
    }
}

/// The homeserver to log in at through the browser, by the two settings that can name it.
pub fn homeserver_setting(homeserver: Option<String>, server: Option<String>) -> (r: String)
    ensures
        r@ == either(homeserver.deep_view(), server.deep_view(), "https://matrix.org"@),
{
    either_setting(homeserver, server, "https://matrix.org")
}

/// How the program begins, by the two settings that can name the user, the password, and whether
/// there is a session file.
pub fn startup(
    username: Option<String>,
    user: Option<String>,
    password: Option<String>,
    has_saved_session: bool,
) -> (r: Startup)
    ensures
        r.request@ == first_request(
            either(username.deep_view(), user.deep_view(), ""@),
            either(password.deep_view(), None, ""@),
        ),
        r.hint == (r.request@ is Restore && !has_saved_session),
{
    let username = either_setting(username, user, "");
    let password = either_setting(password, None, "");
    if username.as_str().unicode_len() > 0 && password.as_str().unicode_len() > 0 {
        Startup { request: Request::LogIn { username, password }, hint: false }
    } else {
        Startup { request: Request::Restore, hint: !has_saved_session }
    }
}

/// Whether a text went through trimming and something was left.
pub open spec fn is_entered(text: Seq<char>) -> bool {
    text.len() > 0 && trimmed(text) == text
}

/// What is typed is asked for only where it is not blank, and without surrounding white space. A
/// message, a file and a caption go to the room that is open.
pub proof fn lemma_entered_texts(app: AvernusAppView, action: ActionView)
    requires
        action is SubmitDialog || action is SubmitMessage || action is SubmitSearch
            || action is AttachFile || action is LogIn,
    ensures
        match acted(app, action).request {
            Some(RequestView::CreateDirectChat { user_id }) => is_entered(user_id),
            Some(RequestView::CreateRoom { name }) => is_entered(name),
            Some(RequestView::Join { room }) => is_entered(room),
            Some(RequestView::Search { query }) => is_entered(query),
            Some(RequestView::SendMessage { room_id, text }) => is_entered(text)
                && app.active_item == Some(room_id),
            Some(RequestView::SendAttachment { room_id, caption }) => app.active_item == Some(
                room_id,
            ) && (caption matches Some(text) ==> is_entered(text)),
            Some(RequestView::LogIn { username, password }) => is_entered(username) && is_entered(
                password,
            ),
            _ => true,
        },
{
    let text = match action {
        ActionView::SubmitDialog { text } => text,
        ActionView::SubmitMessage { text } => text,
        ActionView::SubmitSearch { text } => text,
        ActionView::AttachFile { text } => text,
        _ => Seq::empty(),
    };
    lemma_trimmed_ends(text);
    lemma_trimmed_stays(trimmed(text));
    if let ActionView::LogIn { username, password } = action {
        lemma_trimmed_ends(username);
        lemma_trimmed_stays(trimmed(username));
        lemma_trimmed_ends(password);
        lemma_trimmed_stays(trimmed(password));
    }
}

/// The input of messages is cleared only when what was typed goes out, and where something is sent
/// to a room it is.
pub proof fn lemma_input_is_cleared_when_taken(app: AvernusAppView, action: ActionView)
    ensures
        acted(app, action).clear_input <==> match acted(app, action).request {
            Some(RequestView::SendMessage { .. }) => true,
            Some(RequestView::SendAttachment { .. }) => true,
            _ => false,
        },
{
}

/// No action touches the spaces or the message counts.
pub proof fn lemma_actions_keep_spaces_and_counts(app: AvernusAppView, action: ActionView)
    ensures
        acted(app, action).app.joined_spaces == app.joined_spaces,
        acted(app, action).app.last_message_count == app.last_message_count,
{
}

/// Toggling the details twice changes nothing.
pub proof fn lemma_toggling_twice(app: AvernusAppView)
    ensures
        acted(acted(app, ActionView::ToggleDetails).app, ActionView::ToggleDetails).app == app,
{
}

} // verus!

