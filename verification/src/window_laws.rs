//! What the window is for: what it shows, and what the user's actions lead to.

use crate::app_layout::{
    acted, homeserver_setting, startup, Action, ActionView, AvernusApp, AvernusAppView, DialogType,
    Outcome, Request, RequestView, RoomDetailsTab, Startup,
};
use crate::matrix::client::BackendView;
use crate::matrix::protocol::Command;
use crate::matrix::rooms::{distinct_rooms, lemma_unique_rooms, lists_key, room_key, unique_rooms};
use crate::matrix::tasks::{Task, TaskFlow};
use crate::matrix::types::{MatrixMessageView, PublicRoomSearchResultView, RoomInfo, RoomInfoView};
use crate::matrix::MatrixBackend;
use crate::screen::{
    can_draw, lemma_room_is_listed_once, list_rooms, name_of_room, room_item, room_title,
    rooms_of_kind, screen_of, Content, ContentView, DetailsPaneView, DiscoverPane, MenuItemView,
    ModalView, Screen, VerificationPane, VerificationPaneView,
};
use crate::text::{lemma_ascii_is_shortened, shorten, trimmed};
use vstd::prelude::*;

verus! {

/// A challenge that waits is drawn with its own emoji, numbered from one. Its two buttons do
/// different things: the one that says that the emoji do not match has this very verification
/// rejected, the other has it confirmed.
pub proof fn lemma_buttons_of_a_challenge(
    app: AvernusApp,
    backend: MatrixBackend,
    pane: VerificationPane,
    refusing: &mut AvernusApp,
    agreeing: &mut AvernusApp,
    refused: Outcome,
    agreed: Outcome,
)
    requires
        call_ensures(
            AvernusApp::render_verification_challenge_modal,
            (&app, &backend),
            pane,
        ),
        backend.pending_verification is Some,
        pane is Challenge,
        call_ensures(AvernusApp::act, (refusing, pane->mismatch), refused),
        call_ensures(AvernusApp::act, (agreeing, pane->confirm), agreed),
    ensures
        pane->mismatch@ != pane->confirm@,
        refused.request matches Some(request) && (request matches Request::RejectVerification {
            user_id,
            flow_id,
        } && user_id@ == backend.pending_verification->0.user_id@ && flow_id@
            == backend.pending_verification->0.flow_id@),
        agreed.request matches Some(request) && (request matches Request::ConfirmVerification {
            user_id,
            flow_id,
        } && user_id@ == backend.pending_verification->0.user_id@ && flow_id@
            == backend.pending_verification->0.flow_id@),
        pane->emojis.len() == backend.pending_verification->0.emojis.len(),
        forall|i: int|
            0 <= i < pane->emojis.len() ==> {
                let row = #[trigger] pane->emojis@[i];
                let emoji = backend.pending_verification->0.emojis@[i];
                row.number == i + 1 && row.symbol@ == emoji.symbol@ && row.description@
                    == emoji.description@
            },
{
    let pending = backend.pending_verification->0;
    assert(backend@.pending_verification == Some(pending@));
    let rows = pane->emojis;
    assert(pane@->emojis == rows.deep_view());
    assert(rows.deep_view().len() == rows@.len());
    assert(pending.emojis.deep_view().len() == pending.emojis@.len());
    assert(rows@.len() == rows.len());
    assert forall|i: int| 0 <= i < rows.len() implies {
        let row = #[trigger] rows@[i];
        let emoji = pending.emojis@[i];
        row.number == i + 1 && row.symbol@ == emoji.symbol@ && row.description@
            == emoji.description@
    } by {
        assert(rows.deep_view()[i] == rows@[i]@);
        assert(pending.emojis.deep_view()[i] == pending.emojis@[i]@);
    }
}

/// The buttons of a challenge lead to tasks that answer it as they say: the one for emoji that do
/// not match to one that rejects the verification that waits, the other to one that confirms it.
pub proof fn lemma_buttons_lead_to_their_tasks(
    app: AvernusApp,
    backend: MatrixBackend,
    pane: VerificationPane,
    refusing: &mut AvernusApp,
    agreeing: &mut AvernusApp,
    refused: Outcome,
    agreed: Outcome,
    refuser: &mut MatrixBackend,
    agreer: &mut MatrixBackend,
    refused_user: String,
    refused_flow: String,
    agreed_user: String,
    agreed_flow: String,
    no: (TaskFlow, Vec<Command>),
    yes: (TaskFlow, Vec<Command>),
)
    requires
        call_ensures(
            AvernusApp::render_verification_challenge_modal,
            (&app, &backend),
            pane,
        ),
        backend.pending_verification is Some,
        pane is Challenge,
        call_ensures(AvernusApp::act, (refusing, pane->mismatch), refused),
        call_ensures(AvernusApp::act, (agreeing, pane->confirm), agreed),
        refused.request == Some(
            Request::RejectVerification { user_id: refused_user, flow_id: refused_flow },
        ),
        agreed.request == Some(
            Request::ConfirmVerification { user_id: agreed_user, flow_id: agreed_flow },
        ),
        call_ensures(
            MatrixBackend::mismatch_verification_challenge,
            (refuser, refused_user, refused_flow),
            no,
        ),
        call_ensures(
            MatrixBackend::confirm_verification_challenge,
            (agreer, agreed_user, agreed_flow),
            yes,
        ),
    ensures
        no.0.task matches Task::Respond { user_id, flow_id, confirm } && !confirm && user_id@
            == backend.pending_verification->0.user_id@ && flow_id@
            == backend.pending_verification->0.flow_id@,
        yes.0.task matches Task::Respond { user_id, flow_id, confirm } && confirm && user_id@
            == backend.pending_verification->0.user_id@ && flow_id@
            == backend.pending_verification->0.flow_id@,
{
    lemma_buttons_of_a_challenge(app, backend, pane, refusing, agreeing, refused, agreed);
}

/// Where no challenge waits there is nothing to answer: the pane only closes.
pub proof fn lemma_no_challenge_to_answer(
    app: AvernusApp,
    backend: MatrixBackend,
    pane: VerificationPane,
    closing: &mut AvernusApp,
    closed: Outcome,
)
    requires
        call_ensures(
            AvernusApp::render_verification_challenge_modal,
            (&app, &backend),
            pane,
        ),
        pane is Unavailable,
        call_ensures(AvernusApp::act, (closing, pane->close), closed),
    ensures
        backend.pending_verification is None,
        closed.request matches Some(request) && request is DismissVerification,
{
}

/// What only changes the window asks the client for nothing, and changes just what it is for: the
/// sidebar that is open, which closes the room, the dialog, the details or their tab.
pub proof fn lemma_what_is_opened_is_open(app: &mut AvernusApp, action: Action, r: Outcome)
    requires
        call_ensures(AvernusApp::act, (app, action), r),
        action is OpenSidebar || action is OpenDialog || action is CancelDialog || action is
            ToggleDetails || action is CloseDetails || action is SelectTab,
    ensures
        r.request is None,
        !r.clear_input,
        action matches Action::OpenSidebar { key } ==> (final(app).active_sidebar matches Some(open)
            && open@ == key@) && final(app).active_item is None,
        action !is OpenSidebar ==> final(app).active_sidebar.deep_view()
            == old(app).active_sidebar.deep_view() && final(app).active_item.deep_view()
            == old(app).active_item.deep_view(),
        action matches Action::OpenDialog { dialog } ==> final(app).active_dialog == Some(dialog),
        action is CancelDialog ==> final(app).active_dialog is None,
        action !is OpenDialog && action !is CancelDialog ==> final(app).active_dialog
            == old(app).active_dialog,
        action is ToggleDetails ==> final(app).show_room_details != old(app).show_room_details,
        action is CloseDetails ==> !final(app).show_room_details,
        action !is ToggleDetails && action !is CloseDetails ==> final(app).show_room_details
            == old(app).show_room_details,
        action matches Action::SelectTab { tab } ==> final(app).room_details_tab == tab,
        action !is SelectTab ==> final(app).room_details_tab == old(app).room_details_tab,
{
}

/// A room that is selected opens and its history is loaded; one that is left is left; one that is
/// joined, from the dialog or from the panel, is joined by what was clicked.
pub proof fn lemma_what_is_clicked_is_asked_for(app: &mut AvernusApp, action: Action, r: Outcome)
    requires
        call_ensures(AvernusApp::act, (app, action), r),
    ensures
        action matches Action::SelectRoom { room_id } ==> (r.request matches Some(request) && (
        request matches Request::LoadHistory { room_id: id } && id@ == room_id@)) && (
        final(app).active_item matches Some(open) && open@ == room_id@)
            && final(app).active_sidebar.deep_view() == old(app).active_sidebar.deep_view(),
        action matches Action::LeaveRoom { room_id } ==> (r.request matches Some(request) && (
        request matches Request::Leave { room_id: id } && id@ == room_id@)),
        action matches Action::JoinFound { room } ==> (r.request matches Some(request) && (request
            matches Request::Join { room: wanted } && wanted@ == room@))
            && final(app).active_dialog is None,
        action matches Action::JoinListed { room } ==> (r.request matches Some(request) && (request
            matches Request::Join { room: wanted } && wanted@ == room@)) && (
        final(app).active_sidebar matches Some(open) && open@ == "Space: Discover"@),
        action is VerifySession ==> (r.request matches Some(request) && request is VerifySession),
        action is ResetEncryption ==> (r.request matches Some(request) && request is
            ResetEncryption),
        action is DismissVerification ==> (r.request matches Some(request) && request is
            DismissVerification),
        action matches Action::ConfirmEmoji { user_id, flow_id } ==> (r.request matches Some(
            request,
        ) && (request matches Request::ConfirmVerification { user_id: u, flow_id: f } && u@
            == user_id@ && f@ == flow_id@)),
        action matches Action::RejectEmoji { user_id, flow_id } ==> (r.request matches Some(
            request,
        ) && (request matches Request::RejectVerification { user_id: u, flow_id: f } && u@
            == user_id@ && f@ == flow_id@)),
        action is LogOut ==> (r.request matches Some(request) && request is LogOut)
            && final(app).active_item is None && final(app).active_dialog is None && (
        final(app).active_sidebar matches Some(open) && open@ == "Settings"@),
        action matches Action::LogInWithBrowser { homeserver } ==> (r.request matches Some(request)
            && (request matches Request::LogInWithBrowser { homeserver: h } && h@ == homeserver@))
            && final(app).active_dialog is None,
        final(app).show_room_details != old(app).show_room_details ==> action is ToggleDetails
            || action is CloseDetails,
        final(app).active_item.deep_view() != old(app).active_item.deep_view() ==> action is
            OpenSidebar || action is SelectRoom || action is LogOut,
        final(app).active_sidebar.deep_view() != old(app).active_sidebar.deep_view() ==> action is
            OpenSidebar || action is JoinListed || action is LogOut,
        final(app).active_dialog != old(app).active_dialog ==> action is OpenDialog || action is
            CancelDialog || action is SubmitDialog || action is JoinFound || action is
            LogInWithBrowser || action is LogOut,
        final(app).room_details_tab != old(app).room_details_tab ==> action is SelectTab,
        final(app).joined_spaces.deep_view() == old(app).joined_spaces.deep_view(),
        r.clear_input ==> action is SubmitMessage || action is AttachFile,
{
}

/// What is typed as a message goes to the room that is open, without surrounding white space, and
/// the input is cleared; where no room is open or nothing was typed, nothing happens.
pub proof fn lemma_typed_message_goes_out(
    app: &mut AvernusApp,
    text: String,
    r: Outcome,
)
    requires
        call_ensures(AvernusApp::act, (app, Action::SubmitMessage { text }), r),
    ensures
        final(app)@ == old(app)@,
        old(app).active_item is Some && trimmed(text@).len() > 0 ==> r.clear_input && (
        r.request matches Some(request) && (request matches Request::SendMessage {
            room_id,
            text: sent,
        } && room_id@ == old(app).active_item->0@ && sent@ == trimmed(text@))),
        old(app).active_item is None || trimmed(text@).len() == 0 ==> r.request is None
            && !r.clear_input,
{
}

/// A file goes to the room that is open, with what is typed as its caption unless that is blank;
/// where no room is open it goes nowhere.
pub proof fn lemma_picked_file_goes_out(app: &mut AvernusApp, text: String, r: Outcome)
    requires
        call_ensures(AvernusApp::act, (app, Action::AttachFile { text }), r),
    ensures
        final(app)@ == old(app)@,
        old(app).active_item is Some ==> r.clear_input && (r.request matches Some(request) && (
        request matches Request::SendAttachment { room_id, caption } && room_id@
            == old(app).active_item->0@ && (trimmed(text@).len() > 0 ==> (caption matches Some(c)
            && c@ == trimmed(text@))) && (trimmed(text@).len() == 0 ==> caption is None))),
        old(app).active_item is None ==> r.request is None && !r.clear_input,
{
}

/// A login needs a name and a password; surrounding white space counts for neither.
pub proof fn lemma_typed_login(app: &mut AvernusApp, username: String, password: String, r: Outcome)
    requires
        call_ensures(AvernusApp::act, (app, Action::LogIn { username, password }), r),
    ensures
        final(app)@ == old(app)@,
        trimmed(username@).len() > 0 && trimmed(password@).len() > 0 ==> (r.request matches Some(
            request,
        ) && (request matches Request::LogIn { username: u, password: p } && u@ == trimmed(
            username@,
        ) && p@ == trimmed(password@))),
        trimmed(username@).len() == 0 || trimmed(password@).len() == 0 ==> r.request is None,
{
}

/// What is typed where rooms are searched for is joined where it begins like an id, an alias or a
/// link, and searched for otherwise.
pub proof fn lemma_typed_search(
    panel: &mut AvernusApp,
    dialog: &mut AvernusApp,
    text: String,
    searched: Outcome,
    submitted: Outcome,
)
    requires
        call_ensures(AvernusApp::act, (panel, Action::SubmitSearch { text }), searched),
        call_ensures(AvernusApp::act, (dialog, Action::SubmitDialog { text }), submitted),
        old(panel).active_sidebar matches Some(open) && open@ == "Space: Discover"@,
        old(dialog).active_dialog == Some(DialogType::DiscoverAndJoin),
        trimmed(text@).len() > 0,
    ensures
        ({
            let query = trimmed(text@);
            let named = query[0] == '#' || query[0] == '!' || "http://"@.is_prefix_of(query)
                || "https://"@.is_prefix_of(query);
            &&& searched.request matches Some(request)
            &&& named ==> (request matches Request::Join { room } && room@ == query)
            &&& !named ==> (request matches Request::Search { query: q } && q@ == query)
            &&& submitted.request matches Some(same)
            &&& same@ == request@
        }),
        final(dialog).active_dialog == Some(DialogType::DiscoverAndJoin),
{
}

/// A search is done only in the discover panel, and only for what is not blank.
pub proof fn lemma_no_search_elsewhere(app: &mut AvernusApp, text: String, r: Outcome)
    requires
        call_ensures(AvernusApp::act, (app, Action::SubmitSearch { text }), r),
        old(app).active_sidebar is None || old(app).active_sidebar->0@ != "Space: Discover"@
            || trimmed(text@).len() == 0,
    ensures
        r.request is None,
        final(app)@ == old(app)@,
{
}

/// A dialog asks for what it is for with what is typed, and closes, but for the search: a chat with
/// a user, a room of that name, a login at that server, whose scheme may be left out. Where nothing
/// is typed it asks for nothing.
pub proof fn lemma_dialog_asks_for_what_it_is_for(app: &mut AvernusApp, text: String, r: Outcome)
    requires
        call_ensures(AvernusApp::act, (app, Action::SubmitDialog { text }), r),
    ensures
        trimmed(text@).len() == 0 || old(app).active_dialog is None ==> r.request is None,
        trimmed(text@).len() > 0 ==> {
            let typed = trimmed(text@);
            &&& old(app).active_dialog == Some(DialogType::StartConversation) ==> (
            r.request matches Some(request) && (request matches Request::CreateDirectChat {
                user_id,
            } && user_id@ == typed))
            &&& old(app).active_dialog == Some(DialogType::NewRoom) ==> (r.request matches Some(
                request,
            ) && (request matches Request::CreateRoom { name } && name@ == typed))
            &&& old(app).active_dialog == Some(DialogType::AccountSignIn) ==> (
            r.request matches Some(request) && (request matches Request::LogInWithBrowser {
                homeserver,
            } && ("http://"@.is_prefix_of(typed) || "https://"@.is_prefix_of(typed)
                ==> homeserver@ == typed) && (!"http://"@.is_prefix_of(typed)
                && !"https://"@.is_prefix_of(typed) ==> homeserver@ == "https://"@ + typed)))
        },
        old(app).active_dialog != Some(DialogType::DiscoverAndJoin) ==> final(
            app).active_dialog is None,
        final(app).active_item.deep_view() == old(app).active_item.deep_view(),
        final(app).active_sidebar.deep_view() == old(app).active_sidebar.deep_view(),
        !r.clear_input,
{
}

/// The program begins with the account that is set up, where its name and its password are: the
/// first of the two settings that can name the user counts. Otherwise it begins with the saved
/// session, and gives a hint where there is none.
pub proof fn lemma_program_begins_with_the_account(
    username: Option<String>,
    user: Option<String>,
    password: Option<String>,
    has_saved_session: bool,
    r: Startup,
)
    requires
        call_ensures(startup, (username, user, password, has_saved_session), r),
    ensures
        ({
            let name = match username {
                Some(name) => name@,
                None => match user {
                    Some(name) => name@,
                    None => Seq::<char>::empty(),
                },
            };
            &&& name.len() > 0 && password is Some && password->0@.len() > 0 ==> (
            r.request matches Request::LogIn { username: u, password: p } && u@ == name && p@
                == password->0@) && !r.hint
            &&& name.len() == 0 || password is None || password->0@.len() == 0
                ==> r.request is Restore && r.hint == !has_saved_session
        }),
{
    reveal_strlit("");
}

/// The homeserver is the one that the first of its two settings names, and matrix.org where neither
/// does.
pub proof fn lemma_homeserver_by_settings(
    homeserver: Option<String>,
    server: Option<String>,
    r: String,
)
    requires
        call_ensures(homeserver_setting, (homeserver, server), r),
    ensures
        homeserver matches Some(h) ==> r@ == h@,
        homeserver is None && server is Some ==> r@ == server->0@,
        homeserver is None && server is None ==> r@ == "https://matrix.org"@,
{
}

/// A list of direct chats holds direct chats only, a list of group rooms group rooms only, and each
/// room of the client is in the one or the other, once for each id.
pub proof fn lemma_rooms_are_sorted_by_kind(
    rooms: Vec<RoomInfo>,
    direct: bool,
    r: Vec<RoomInfo>,
    i: int,
)
    requires
        call_ensures(list_rooms, (&rooms, direct), r),
        0 <= i < rooms.len(),
        forall|p: int, q: int|
            0 <= p < q < rooms.len() ==> trimmed((#[trigger] rooms.deep_view()[p]).id) != trimmed(
                (#[trigger] rooms.deep_view()[q]).id,
            ),
    ensures
        forall|k: int|
            0 <= k < r.len() ==> (#[trigger] r.deep_view()[k]).is_direct == direct
                && rooms.deep_view().contains(r.deep_view()[k]),
        rooms@[i].is_direct == direct <==> r.deep_view().contains(rooms@[i]@),
{
    let all = rooms.deep_view();
    let out = r.deep_view();
    lemma_kind(all, direct);
    assert(all[i] == rooms@[i]@);
    assert forall|p: int, q: int| 0 <= p < q < all.len() implies room_key(
        #[trigger] all[p],
    ) != room_key(#[trigger] all[q]) by {
        assert(trimmed(all[p].id) != trimmed(all[q].id));
    }
    assert(all.contains(all[i]));
    lemma_kind_contains(all, all[i]);
}

proof fn lemma_kind(rooms: Seq<RoomInfoView>, direct: bool)
    ensures
        forall|k: int|
            0 <= k < rooms_of_kind(rooms, direct).len() ==> (#[trigger] rooms_of_kind(
                rooms,
                direct,
            )[k]).is_direct == direct && rooms.contains(rooms_of_kind(rooms, direct)[k]),
{
    let keep = |room: RoomInfoView| room.is_direct == direct;
    let some = rooms.filter(keep);
    let out = rooms_of_kind(rooms, direct);
    lemma_unique_rooms(some);
    assert forall|k: int| 0 <= k < out.len() implies (#[trigger] out[k]).is_direct == direct
        && rooms.contains(out[k]) by {
        assert(out.contains(out[k]));
        assert(some.contains(out[k]));
        let j = choose|j: int| 0 <= j < some.len() && some[j] == out[k];
        rooms.lemma_filter_pred(keep, j);
        rooms.lemma_filter_contains_rev(keep, some[j]);
    }
}

proof fn lemma_kind_contains(rooms: Seq<RoomInfoView>, room: RoomInfoView)
    requires
        distinct_rooms(rooms),
        rooms.contains(room),
    ensures
        rooms_of_kind(rooms, room.is_direct).contains(room),
        !rooms_of_kind(rooms, !room.is_direct).contains(room),
{
    let b = BackendView {
        rooms,
        messages: Map::empty(),
        public_rooms: Seq::empty(),
        pending_verification: None,
        connection_status: Seq::empty(),
        sync_generation: 0,
    };
    lemma_room_is_listed_once(b, room);
}

/// The items of the two lists of rooms: the first opens the dialog for a new one; each further one
/// opens, or leaves, a room of the client that belongs there, and says its name; and each such room
/// has its item.
pub proof fn lemma_sidebar_lists_the_rooms(
    app: AvernusAppView,
    b: BackendView,
    room: RoomInfoView,
    k: int,
)
    requires
        app.active_sidebar == Some("Direct Messages"@) || app.active_sidebar == Some("Rooms"@),
        forall|p: int, q: int|
            0 <= p < q < b.rooms.len() ==> trimmed((#[trigger] b.rooms[p]).id) != trimmed(
                (#[trigger] b.rooms[q]).id,
            ),
        b.rooms.contains(room),
        room.is_direct == (app.active_sidebar == Some("Direct Messages"@)),
    ensures
        screen_of(app, b).secondary matches Some(sidebar) && {
            &&& sidebar.items.len() > 1
            &&& sidebar.items[0].action == Some(
                ActionView::OpenDialog {
                    dialog: if room.is_direct {
                        DialogType::StartConversation
                    } else {
                        DialogType::NewRoom
                    },
                },
            )
            &&& exists|i: int|
                1 <= i < sidebar.items.len() && is_item_of(#[trigger] sidebar.items[i], room)
            &&& 1 <= k < sidebar.items.len() ==> exists|j: int|
                0 <= j < b.rooms.len() && #[trigger] b.rooms[j].is_direct == room.is_direct
                    && is_item_of(sidebar.items[k], b.rooms[j])
        },
{
    reveal_strlit("Direct Messages");
    reveal_strlit("Rooms");
    reveal_strlit("Settings");
    reveal_strlit("Space: Discover");
    reveal_strlit(" (");
    let direct = room.is_direct;
    assert("Direct Messages"@.len() == 15 && "Rooms"@.len() == 5 && "Settings"@.len() == 8);
    assert("Space: Discover"@[0] == 'S' && "Direct Messages"@[0] == 'D');
    assert(distinct_rooms(b.rooms)) by {
        assert forall|p: int, q: int| 0 <= p < q < b.rooms.len() implies room_key(
            #[trigger] b.rooms[p],
        ) != room_key(#[trigger] b.rooms[q]) by {
            assert(trimmed(b.rooms[p].id) != trimmed(b.rooms[q].id));
        }
    }
    lemma_kind_contains(b.rooms, room);
    lemma_kind(b.rooms, direct);
    let listed = rooms_of_kind(b.rooms, direct);
    let items = screen_of(app, b).secondary->0.items;
    let i = choose|i: int| 0 <= i < listed.len() && listed[i] == room;
    assert(items.len() == listed.len() + 1);
    assert(items[i + 1] == room_item(room));
    lemma_item_of(room);
    if 1 <= k < items.len() {
        let other = listed[k - 1];
        assert(items[k] == room_item(other));
        lemma_item_of(other);
        let j = choose|j: int| 0 <= j < b.rooms.len() && b.rooms[j] == other;
        assert(b.rooms[j].is_direct == direct);
    }
}

/// Whether an item opens the room `room`, offers to leave it, and says its name.
pub open spec fn is_item_of(item: MenuItemView, room: RoomInfoView) -> bool {
    &&& item.action == Some(ActionView::SelectRoom { room_id: room.id })
    &&& item.leave == Some(ActionView::LeaveRoom { room_id: room.id })
    &&& (room.display_name + " ("@).is_prefix_of(item.label)
}

proof fn lemma_item_of(room: RoomInfoView)
    ensures
        is_item_of(room_item(room), room),
{
    reveal_strlit(" (");
    let label = room_item(room).label;
    let head = room.display_name + " ("@;
    assert(head =~= label.subrange(0, head.len() as int));
}

/// Where the client has no room of the kind, the list says so and nothing in it can be clicked but
/// what makes a new one.
pub proof fn lemma_empty_sidebar_says_so(app: AvernusAppView, b: BackendView)
    requires
        app.active_sidebar == Some("Direct Messages"@) || app.active_sidebar == Some("Rooms"@),
        forall|j: int|
            0 <= j < b.rooms.len() ==> (#[trigger] b.rooms[j]).is_direct != (app.active_sidebar
                == Some("Direct Messages"@)),
    ensures
        screen_of(app, b).secondary matches Some(sidebar) && sidebar.items.len() == 2
            && sidebar.items[1].action is None && sidebar.items[1].leave is None && (
        app.active_sidebar == Some("Rooms"@) ==> sidebar.items[0].label == "+ New room"@
            && sidebar.items[1].label == "Loading rooms..."@) && (app.active_sidebar == Some(
            "Direct Messages"@,
        ) ==> sidebar.items[0].label == "+ Start conversation"@ && sidebar.items[1].label
            == "Loading chats..."@),
{
    reveal_strlit("Direct Messages");
    reveal_strlit("Rooms");
    reveal_strlit("Settings");
    reveal_strlit("Space: Discover");
    assert("Direct Messages"@.len() == 15 && "Rooms"@.len() == 5 && "Settings"@.len() == 8);
    assert("Space: Discover"@[0] == 'S' && "Direct Messages"@[0] == 'D');
    let direct = app.active_sidebar == Some("Direct Messages"@);
    lemma_kind(b.rooms, direct);
    let listed = rooms_of_kind(b.rooms, direct);
    if listed.len() > 0 {
        let room = listed[0];
        assert(room.is_direct == direct);
        let j = choose|j: int| 0 <= j < b.rooms.len() && b.rooms[j] == room;
        assert(b.rooms[j].is_direct != direct);
    }
}

/// The room that is open shows its messages, all of them in their order, with their words and
/// their senders, of which the user alone is not named. Its title begins with its name.
pub proof fn lemma_open_room_shows_its_messages(
    app: AvernusAppView,
    b: BackendView,
    id: Seq<char>,
    history: Seq<MatrixMessageView>,
)
    requires
        app.active_item == Some(id),
        app.active_sidebar != Some("Settings"@),
        app.active_sidebar != Some("Space: Discover"@),
        b.messages.contains_key(id) ==> history == b.messages[id],
        !b.messages.contains_key(id) ==> history.len() == 0,
    ensures
        screen_of(app, b).content matches ContentView::Room { pane } && {
            &&& pane.messages.len() == history.len()
            &&& forall|i: int|
                0 <= i < history.len() ==> {
                    let row = #[trigger] pane.messages[i];
                    &&& row.body == history[i].body
                    &&& history[i].sender == "you"@ ==> row.sender is None
                    &&& history[i].sender != "you"@ ==> row.sender == Some(history[i].sender)
                }
            &&& pane.notice is Some <==> history.len() == 0
            &&& pane.details_shown == app.show_room_details
            &&& app.last_message_count.contains_key(id) ==> pane.scroll_to_bottom == (
            history.len() > app.last_message_count[id])
            &&& !app.last_message_count.contains_key(id) ==> pane.scroll_to_bottom == (
            history.len() > 0)
            &&& forall|j: int|
                0 <= j < b.rooms.len() && (#[trigger] b.rooms[j]).id == id && (forall|h: int|
                    0 <= h < j ==> (#[trigger] b.rooms[h]).id != id) ==> (b.rooms[j].display_name
                    + " ("@).is_prefix_of(pane.title)
            &&& (forall|j: int| 0 <= j < b.rooms.len() ==> (#[trigger] b.rooms[j]).id != id) ==> (
            id + " ("@).is_prefix_of(pane.title)
        },
{
    reveal_strlit("Direct Messages");
    reveal_strlit("Rooms");
    reveal_strlit("Settings");
    reveal_strlit("Space: Discover");
    assert("Direct Messages"@.len() == 15 && "Rooms"@.len() == 5 && "Settings"@.len() == 8);
    assert("Space: Discover"@[0] == 'S' && "Direct Messages"@[0] == 'D');
    if !b.messages.contains_key(id) {
        assert(history =~= Seq::<MatrixMessageView>::empty());
    }
    let pane = screen_of(app, b).content->Room_pane;
    let name = name_of_room(b.rooms, id);
    lemma_title(name, id);
    assert forall|j: int|
        0 <= j < b.rooms.len() && (#[trigger] b.rooms[j]).id == id && (forall|h: int|
            0 <= h < j ==> (#[trigger] b.rooms[h]).id != id) implies (b.rooms[j].display_name
        + " ("@).is_prefix_of(pane.title) by {
        lemma_name_of_room(b.rooms, id, j);
    }
    if forall|j: int| 0 <= j < b.rooms.len() ==> (#[trigger] b.rooms[j]).id != id {
        lemma_name_of_room(b.rooms, id, b.rooms.len() as int);
    }
}

proof fn lemma_title(name: Seq<char>, id: Seq<char>)
    ensures
        (name + " ("@).is_prefix_of(room_title(name, id)),
{
    reveal_strlit(" (");
    let title = room_title(name, id);
    let head = name + " ("@;
    assert(head =~= title.subrange(0, head.len() as int));
}

proof fn lemma_name_of_room(rooms: Seq<RoomInfoView>, id: Seq<char>, j: int)
    requires
        0 <= j <= rooms.len(),
        forall|h: int| 0 <= h < j ==> (#[trigger] rooms[h]).id != id,
        j < rooms.len() ==> rooms[j].id == id,
    ensures
        name_of_room(rooms, id) == if j < rooms.len() {
            rooms[j].display_name
        } else {
            id
        },
    decreases rooms.len(),
{
    if j > 0 {
        let rest = rooms.drop_first();
        assert(rooms[0].id != id);
        assert forall|h: int| 0 <= h < j - 1 implies (#[trigger] rest[h]).id != id by {
            assert(rest[h] == rooms[h + 1]);
        }
        lemma_name_of_room(rest, id, j - 1);
    }
}

/// The discover panel shows the rooms that were found, in their order, each with its topic, and
/// tells those that are joined. Each is joined by its alias or else by its id.
pub proof fn lemma_discover_panel_shows_what_was_found(app: AvernusAppView, b: BackendView)
    requires
        app.active_sidebar == Some("Space: Discover"@),
    ensures
        screen_of(app, b).secondary is None,
        screen_of(app, b).content matches ContentView::Discover { pane } && {
            &&& pane.rooms.len() == b.public_rooms.len()
            &&& pane.notice is Some <==> b.public_rooms.len() == 0
            &&& forall|i: int|
                0 <= i < pane.rooms.len() ==> {
                    let row = #[trigger] pane.rooms[i];
                    let room = b.public_rooms[i];
                    &&& row.room_id == room.room_id
                    &&& room.name matches Some(name) ==> row.title == name
                    &&& room.name is None && room.alias is Some ==> row.title == room.alias->0
                    &&& room.name is None && room.alias is None ==> row.title
                        == "Public room"@
                    &&& room.topic matches Some(topic) ==> row.topic == topic
                    &&& room.topic is None ==> row.topic == "No description"@
                    &&& room.alias matches Some(alias) ==> row.alias == alias
                    &&& room.alias is None ==> row.alias == room.room_id
                    &&& row.joined <==> exists|j: int|
                        0 <= j < b.rooms.len() && (#[trigger] b.rooms[j]).id == room.room_id
                    &&& row.joined ==> row.button == "Joined"@
                    &&& !row.joined ==> row.button == "Join"@
                    &&& joins_room(app, row.action, room)
                }
        },
{
    reveal_strlit("Settings");
    reveal_strlit("Space: Discover");
    assert("Settings"@.len() == 8 && "Space: Discover"@.len() == 15);
}

/// Whether an action asks to join the room `room`, by its alias or else by its id.
pub open spec fn joins_room(
    app: AvernusAppView,
    action: ActionView,
    room: PublicRoomSearchResultView,
) -> bool {
    acted(app, action).request matches Some(request) && (request matches RequestView::Join {
        room: wanted,
    } && (room.alias matches Some(alias) ==> wanted == alias) && (room.alias is None ==> wanted
        == room.room_id))
}

/// A verification that waits lies over the window before any dialog. A dialog lies over it
/// otherwise, where one is open, and only the search lists the rooms that were found; each of them
/// is joined by its alias or else by its id.
pub proof fn lemma_what_lies_over_the_window(app: AvernusAppView, b: BackendView)
    ensures
        b.pending_verification matches Some(pending) ==> (screen_of(app, b).modal matches Some(
            ModalView::Verification { pane },
        ) && (pane matches VerificationPaneView::Challenge { mismatch, confirm, .. } && acted(
            app,
            mismatch,
        ).request == Some(
            RequestView::RejectVerification { user_id: pending.user_id, flow_id: pending.flow_id },
        ) && acted(app, confirm).request == Some(
            RequestView::ConfirmVerification { user_id: pending.user_id, flow_id: pending.flow_id },
        ))),
        b.pending_verification is None && app.active_dialog is None ==> screen_of(
            app,
            b,
        ).modal is None,
        b.pending_verification is None && app.active_dialog is Some ==> (screen_of(
            app,
            b,
        ).modal matches Some(ModalView::Dialog { pane }) && (app.active_dialog != Some(
            DialogType::DiscoverAndJoin,
        ) ==> pane.results.len() == 0) && (app.active_dialog == Some(DialogType::DiscoverAndJoin)
            ==> pane.results.len() == b.public_rooms.len() && forall|i: int|
            0 <= i < pane.results.len() ==> (#[trigger] pane.results[i]).room_id
                == b.public_rooms[i].room_id && joins_room(
                app,
                pane.results[i].action,
                b.public_rooms[i],
            ) && (b.public_rooms[i].name matches Some(name) ==> pane.results[i].label == name))),
{
}

/// The menus lead to what they say: the direct chats, the rooms, the settings, the discover panel
/// and each space of the user.
pub proof fn lemma_menus_lead_to_what_they_say(app: AvernusAppView, b: BackendView)
    ensures
        ({
            let screen = screen_of(app, b);
            &&& screen.main_menu.len() == 2
            &&& opens(screen.main_menu[0], "Direct Messages"@, "Direct Messages"@)
            &&& opens(screen.main_menu[1], "Rooms"@, "Rooms"@)
            &&& opens(screen.settings_item, "Settings"@, "Settings"@)
            &&& screen.spaces_menu.len() == app.joined_spaces.len() + 1
            &&& opens(screen.spaces_menu[0], "Discover"@, "Space: Discover"@)
            &&& forall|i: int|
                0 <= i < app.joined_spaces.len() ==> opens(
                    #[trigger] screen.spaces_menu[i + 1],
                    app.joined_spaces[i].name,
                    "Space: "@ + app.joined_spaces[i].id,
                ) && screen.spaces_menu[i + 1].icon == Some(app.joined_spaces[i].icon)
        }),
{
    let screen = screen_of(app, b);
    assert forall|i: int| 0 <= i < app.joined_spaces.len() implies opens(
        #[trigger] screen.spaces_menu[i + 1],
        app.joined_spaces[i].name,
        "Space: "@ + app.joined_spaces[i].id,
    ) && screen.spaces_menu[i + 1].icon == Some(app.joined_spaces[i].icon) by {}
}

/// Whether an item has the label `label` and opens the sidebar `key`.
pub open spec fn opens(item: MenuItemView, label: Seq<char>, key: Seq<char>) -> bool {
    &&& item.label == label
    &&& item.action matches Some(ActionView::OpenSidebar { key: k })
    &&& k == key
}

/// The settings tell how the session stands and offer to sign in; the other sidebars tell it in
/// their title. Details are shown of an open room only, on the tab that was chosen.
pub proof fn lemma_settings_and_details(app: AvernusAppView, b: BackendView)
    ensures
        app.active_sidebar == Some("Settings"@) ==> screen_of(app, b).content
            == (ContentView::Settings { status: "Logged in status: "@ + b.connection_status }) && (
        screen_of(app, b).secondary matches Some(sidebar) && sidebar.items.len() == 1
            && sidebar.items[0].action == Some(
            ActionView::OpenDialog { dialog: DialogType::AccountSignIn },
        )),
        app.active_sidebar == Some("Rooms"@) ==> (screen_of(app, b).secondary matches Some(sidebar)
            && sidebar.title == "Rooms"@ + " ("@ + b.connection_status + ")"@),
        app.active_sidebar == Some("Direct Messages"@) ==> (screen_of(
            app,
            b,
        ).secondary matches Some(sidebar) && sidebar.title == "Direct Messages"@ + " ("@
            + b.connection_status + ")"@),
        app.active_sidebar is None ==> screen_of(app, b).secondary is None,
        screen_of(app, b).details is Some <==> app.show_room_details && app.active_item is Some,
        screen_of(app, b).details matches Some(pane) ==> {
            &&& app.room_details_tab == RoomDetailsTab::Members <==> pane is Members
            &&& app.room_details_tab == RoomDetailsTab::Details <==> pane is Details
        },
        app.active_item is None && app.active_sidebar is None ==> screen_of(
            app,
            b,
        ).content is Empty,
{
    reveal_strlit("Direct Messages");
    reveal_strlit("Rooms");
    reveal_strlit("Settings");
    reveal_strlit("Space: Discover");
    assert("Direct Messages"@.len() == 15 && "Rooms"@.len() == 5 && "Settings"@.len() == 8);
    assert("Space: Discover"@[0] == 'S' && "Direct Messages"@[0] == 'D');
}

/// An id in ASCII is shown as it is up to twelve characters, and else by its first twelve and three
/// dots.
pub proof fn lemma_long_ids_are_cut(id: &str, r: Option<String>)
    requires
        call_ensures(shorten, (id,), r),
        forall|i: int| 0 <= i < id@.len() ==> #[trigger] id@[i] <= '\u{7f}',
    ensures
        r is Some,
        id@.len() <= 12 ==> r->0@ == id@,
        id@.len() > 12 ==> r->0@ == id@.take(12) + "..."@,
{
    lemma_ascii_is_shortened(id@);
}

/// A room is shown by its name and, where its id is in ASCII, the first twelve characters of that.
pub proof fn lemma_titles_of_rooms(app: AvernusAppView, b: BackendView, id: Seq<char>)
    requires
        app.active_item == Some(id),
        app.active_sidebar is None,
        id.len() > 12,
        forall|i: int| 0 <= i < id.len() ==> #[trigger] id[i] <= '\u{7f}',
        b.rooms.len() > 0 && b.rooms[0].id == id,
    ensures
        screen_of(app, b).content matches ContentView::Room { pane } && pane.title
            == b.rooms[0].display_name + " ("@ + (id.take(12) + "..."@) + ")"@,
{
    lemma_ascii_is_shortened(id);
    lemma_name_of_room(b.rooms, id, 0);
}

/// Each dialog says what it is for, on its title, in its input and on its button; the search says
/// what to type as long as nothing was found.
pub proof fn lemma_dialogs_say_what_they_are_for(app: AvernusAppView, b: BackendView)
    requires
        b.pending_verification is None,
        app.active_dialog is Some,
    ensures
        screen_of(app, b).modal matches Some(ModalView::Dialog { pane }) && {
            let dialog = app.active_dialog->0;
            &&& dialog is StartConversation ==> pane.title == "Start Conversation"@ && pane.submit
                == "Start Chat"@ && pane.placeholder
                == "Enter Matrix User ID (e.g., @user:matrix.org)..."@
            &&& dialog is NewRoom ==> pane.title == "Create New Room"@ && pane.submit
                == "Create Room"@ && pane.placeholder == "Enter room name..."@
            &&& dialog is DiscoverAndJoin ==> pane.title == "Discover / Join Room or Space"@
                && pane.submit == "Search"@ && pane.placeholder
                == "Search public rooms or paste a Room ID / Alias (e.g., #room:matrix.org)..."@
            &&& dialog is AccountSignIn ==> pane.title == "Sign In with Matrix"@ && pane.submit
                == "Open Browser to Sign In"@ && pane.placeholder
                == "Enter Homeserver URL (e.g., https://matrix.org)..."@
            &&& pane.notice is Some <==> dialog is DiscoverAndJoin && b.public_rooms.len() == 0
        },
{
}

/// The tab of the members lists one who is online; the other says that the room is encrypted.
pub proof fn lemma_tabs_of_the_details(app: AvernusAppView, b: BackendView)
    requires
        app.show_room_details,
        app.active_item is Some,
    ensures
        screen_of(app, b).details matches Some(pane) && {
            &&& app.room_details_tab is Members ==> (pane matches DetailsPaneView::Members {
                heading,
                members,
            } && heading == "Room Members"@ && members.len() == 1 && members[0].is_online
                && members[0].name == "Active User"@ && members[0].role == "Member"@)
            &&& app.room_details_tab is Details ==> (pane matches DetailsPaneView::Details {
                heading,
                text,
            } && heading == "ENCRYPTION"@ && text == "🔒 End-to-End Encrypted"@)
        },
{
}

/// The window draws the messages of the room that is open, row for row, and remembers how many it
/// drew of this room.
pub proof fn lemma_window_draws_the_messages(
    app: &mut AvernusApp,
    backend: MatrixBackend,
    r: Screen,
    id: String,
    history: Seq<MatrixMessageView>,
    i: int,
)
    requires
        can_draw(old(app)@, backend@),
        call_ensures(AvernusApp::render, (app, &backend), r),
        old(app).active_item == Some(id),
        old(app).active_sidebar is None,
        backend.messages@.contains_key(id@),
        history == backend.messages@[id@],
        0 <= i < history.len(),
    ensures
        r.content matches Content::Room { pane } && pane.messages.len() == history.len()
            && pane.messages@[i].body@ == history[i].body && (history[i].sender != "you"@ ==> (
        pane.messages@[i].sender matches Some(sender) && sender@ == history[i].sender)) && (
        history[i].sender == "you"@ ==> pane.messages@[i].sender is None),
        final(app).active_item.deep_view() == old(app).active_item.deep_view(),
        final(app).active_sidebar is None,
        final(app).active_dialog == old(app).active_dialog,
        history.len() <= usize::MAX ==> final(app).last_message_count@.contains_key(id@)
            && final(app).last_message_count@[id@] == history.len(),
        forall|other: Seq<char>|
            other != id@ ==> (#[trigger] final(app).last_message_count@.contains_key(other)
                == old(app).last_message_count@.contains_key(other)),
{
    assert(old(app)@.active_item == Some(id@));
    lemma_open_room_shows_its_messages(old(app)@, backend@, id@, history);
    if let Content::Room { pane } = r.content {
        assert(r@.content->Room_pane == pane@);
        assert(pane.messages.deep_view().len() == pane.messages@.len());
        assert(pane.messages.deep_view()[i] == pane.messages@[i]@);
    }
}

/// The window draws a sidebar whose items do what they stand for.
pub proof fn lemma_window_draws_the_sidebar(
    app: &mut AvernusApp,
    backend: MatrixBackend,
    r: Screen,
    k: int,
    room: RoomInfoView,
)
    requires
        can_draw(old(app)@, backend@),
        call_ensures(AvernusApp::render, (app, &backend), r),
        old(app)@.active_sidebar == Some("Rooms"@),
        forall|p: int, q: int|
            0 <= p < q < backend@.rooms.len() ==> trimmed((#[trigger] backend@.rooms[p]).id)
                != trimmed((#[trigger] backend@.rooms[q]).id),
        backend@.rooms.contains(room),
        !room.is_direct,
        r.secondary is Some,
        1 <= k < r.secondary->0.items.len(),
    ensures
        r.secondary->0.items@[k].action matches Some(action) && (action matches Action::SelectRoom {
            room_id,
        } && (r.secondary->0.items@[k].leave matches Some(leave) && (leave matches
            Action::LeaveRoom { room_id: left } && left@ == room_id@)) && exists|j: int|
            0 <= j < backend@.rooms.len() && (#[trigger] backend@.rooms[j]).id == room_id@
                && !backend@.rooms[j].is_direct),
{
    reveal_strlit("Direct Messages");
    reveal_strlit("Rooms");
    assert("Direct Messages"@.len() == 15 && "Rooms"@.len() == 5);
    lemma_sidebar_lists_the_rooms(old(app)@, backend@, room, k);
    let items = r.secondary->0.items;
    assert(r@.secondary->0.items == items.deep_view());
    assert(items.deep_view().len() == items@.len());
    assert(items@.len() == items.len());
    assert(items.deep_view()[k] == items@[k]@);
    let j = choose|j: int|
        0 <= j < backend@.rooms.len() && #[trigger] backend@.rooms[j].is_direct == room.is_direct
            && is_item_of(items.deep_view()[k], backend@.rooms[j]);
    assert(backend@.rooms[j].id == items@[k]@.action->0->SelectRoom_room_id);
}

/// The rooms of a kind stand in the order of the client: one more room at the end of the client's
/// rooms is one more at the end of its own kind's, and of the other's nothing changes.
pub proof fn lemma_kinds_keep_the_order(rooms: Seq<RoomInfoView>, room: RoomInfoView)
    requires
        forall|j: int|
            0 <= j < rooms.len() ==> trimmed((#[trigger] rooms[j]).id) != trimmed(room.id),
    ensures
        rooms_of_kind(rooms.push(room), room.is_direct) == rooms_of_kind(
            rooms,
            room.is_direct,
        ).push(room),
        rooms_of_kind(rooms.push(room), !room.is_direct) == rooms_of_kind(rooms, !room.is_direct),
        rooms_of_kind(Seq::empty(), room.is_direct).len() == 0,
{
    reveal(Seq::filter);
    let direct = room.is_direct;
    let keep = |r: RoomInfoView| r.is_direct == direct;
    let some = rooms.filter(keep);
    assert(rooms.push(room).drop_last() =~= rooms);
    assert(rooms.push(room).filter(keep) == some.push(room));
    assert(some.push(room).drop_last() =~= some);
    lemma_unique_rooms(some);
    if lists_key(some, room_key(room)) {
        let i = choose|i: int|
            0 <= i < some.len() && room_key(#[trigger] some[i]) == room_key(room);
        assert(some.contains(some[i]));
        rooms.lemma_filter_contains_rev(keep, some[i]);
        let j = choose|j: int| 0 <= j < rooms.len() && rooms[j] == some[i];
        assert(trimmed(rooms[j].id) != trimmed(room.id));
    }
    assert(lists_key(unique_rooms(some), room_key(room)) == lists_key(some, room_key(room)));
}

/// The sidebar of a space is empty so far, under the name of its key and the state of the session.
pub proof fn lemma_other_sidebars_are_empty(app: AvernusAppView, b: BackendView, key: Seq<char>)
    requires
        app.active_sidebar == Some(key),
        key != "Direct Messages"@ && key != "Rooms"@ && key != "Settings"@ && key
            != "Space: Discover"@,
    ensures
        screen_of(app, b).secondary matches Some(sidebar) && sidebar.items.len() == 0
            && sidebar.title == key + " ("@ + b.connection_status + ")"@,
{
}

/// What the window says where there is nothing else to show, and what a verification says.
pub proof fn lemma_notices(app: AvernusAppView, b: BackendView)
    ensures
        screen_of(app, b).content matches ContentView::Room { pane } ==> (pane.notice matches Some(
            text,
        ) ==> text == "No messages in this room yet."@),
        screen_of(app, b).content matches ContentView::Discover { pane } ==> pane.placeholder
            == "Search public rooms or paste #room:server"@ && (pane.notice matches Some(text)
            ==> text == "Search by room name, topic, or keyword."@),
        screen_of(app, b).modal matches Some(ModalView::Dialog { pane }) ==> (
        pane.notice matches Some(text) ==> text
            == "Search for public rooms by name, topic, or keyword."@),
        screen_of(app, b).modal matches Some(ModalView::Verification { pane }) ==> (pane matches
            VerificationPaneView::Challenge { title, text, .. } && title == "Verify this device"@
            && text
            == "Compare the emoji pairs with the other session and respond to the exact same challenge."@),
        app.active_sidebar == Some("Settings"@) ==> (screen_of(app, b).secondary matches Some(
            sidebar,
        ) && sidebar.title == "Settings"@ && sidebar.items[0].label == "Account Sign In"@),
{
    reveal_strlit("Direct Messages");
    reveal_strlit("Rooms");
    reveal_strlit("Settings");
    reveal_strlit("Space: Discover");
    assert("Direct Messages"@.len() == 15 && "Rooms"@.len() == 5 && "Settings"@.len() == 8);
    assert("Space: Discover"@.len() == 15);
}

/// The discover panel draws the rooms that were found, row for row, by their names and topics, and
/// a click on one asks to join it.
pub proof fn lemma_discover_panel_draws_the_rooms(
    app: AvernusApp,
    backend: MatrixBackend,
    pane: DiscoverPane,
    i: int,
    clicking: &mut AvernusApp,
    clicked: Outcome,
)
    requires
        call_ensures(AvernusApp::render_discover_panel, (&app, &backend), pane),
        0 <= i < pane.rooms.len(),
        call_ensures(AvernusApp::act, (clicking, pane.rooms@[i].action), clicked),
    ensures
        pane.rooms.len() == backend.public_rooms.len(),
        ({
            let row = pane.rooms@[i];
            let room = backend.public_rooms@[i];
            &&& row.room_id@ == room.room_id@
            &&& room.name matches Some(name) ==> row.title@ == name@
            &&& room.name is None && room.alias is Some ==> row.title@ == room.alias->0@
            &&& room.topic matches Some(topic) ==> row.topic@ == topic@
            &&& clicked.request matches Some(request)
            &&& request matches Request::Join { room: wanted }
            &&& room.alias is Some ==> wanted@ == room.alias->0@
            &&& room.alias is None ==> wanted@ == room.room_id@
        }),
{
    assert(pane@.rooms == pane.rooms.deep_view());
    assert(pane.rooms.deep_view().len() == pane.rooms@.len());
    assert(backend.public_rooms.deep_view().len() == backend.public_rooms@.len());
    assert(pane.rooms@.len() == pane.rooms.len());
    assert(pane.rooms.deep_view()[i] == pane.rooms@[i]@);
    assert(backend.public_rooms.deep_view()[i] == backend.public_rooms@[i]@);
}

} // verus!
