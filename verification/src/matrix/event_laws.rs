//! What the client makes of what is reported to it and asked of it.

use super::client::MatrixBackend;
use super::login::LoginFlow;
use super::protocol::Command;
use super::session::EndStep;
use super::tasks::{Task, TaskFlow};
use super::types::{MatrixBridgeEvent, RoomInfo, VerificationEmoji};
use vstd::prelude::*;

verus! {

/// An event of another generation than the current one is not passed on and changes nothing,
/// whatever it reports; one of the current generation is passed on.
pub proof fn lemma_only_current_events_count(
    backend: &mut MatrixBackend,
    event: MatrixBridgeEvent,
    r: bool,
    made_under: u64,
)
    requires
        call_ensures(MatrixBackend::apply_event, (backend, event), r),
        match event {
            MatrixBridgeEvent::Connected { generation } => generation == made_under,
            MatrixBridgeEvent::SyncRooms { generation, .. } => generation == made_under,
            MatrixBridgeEvent::PublicRoomsDiscovered { generation, .. } => generation == made_under,
            MatrixBridgeEvent::RoomHistory { generation, .. } => generation == made_under,
            MatrixBridgeEvent::NewMessage { generation, .. } => generation == made_under,
            MatrixBridgeEvent::VerificationChallenge { generation, .. } => generation == made_under,
            MatrixBridgeEvent::ConnectionFailed { generation, .. } => generation == made_under,
        },
    ensures
        r == (made_under == old(backend).sync_generation),
        final(backend).sync_generation == old(backend).sync_generation,
        !r ==> final(backend).rooms.deep_view() == old(backend).rooms.deep_view()
            && final(backend).messages@ == old(backend).messages@
            && final(backend).public_rooms.deep_view() == old(backend).public_rooms.deep_view()
            && final(backend).pending_verification.deep_view()
            == old(backend).pending_verification.deep_view() && final(backend).connection_status@
            == old(backend).connection_status@,
{
}

/// A session that is up is shown as connected, and that is all that changes.
pub proof fn lemma_connection_is_shown(
    backend: &mut MatrixBackend,
    event: MatrixBridgeEvent,
    r: bool,
)
    requires
        call_ensures(MatrixBackend::apply_event, (backend, event), r),
        event == (MatrixBridgeEvent::Connected { generation: old(backend).sync_generation }),
    ensures
        final(backend).connection_status@ == "Connected"@,
        final(backend).rooms.deep_view() == old(backend).rooms.deep_view(),
        final(backend).messages@ == old(backend).messages@,
        final(backend).public_rooms.deep_view() == old(backend).public_rooms.deep_view(),
        final(backend).pending_verification.deep_view()
            == old(backend).pending_verification.deep_view(),
{
}

/// A failure is shown with what went wrong, and no verification waits any longer. The rooms and
/// their messages stay.
pub proof fn lemma_failure_is_shown(
    backend: &mut MatrixBackend,
    event: MatrixBridgeEvent,
    r: bool,
    error: String,
)
    requires
        call_ensures(MatrixBackend::apply_event, (backend, event), r),
        event == (MatrixBridgeEvent::ConnectionFailed {
            generation: old(backend).sync_generation,
            error,
        }),
    ensures
        final(backend).connection_status@ == "Error: "@ + error@,
        final(backend).pending_verification is None,
        final(backend).rooms.deep_view() == old(backend).rooms.deep_view(),
        final(backend).messages@ == old(backend).messages@,
        final(backend).public_rooms.deep_view() == old(backend).public_rooms.deep_view(),
{
}

/// A challenge waits for the user with its own ids and emoji, in their order, in place of any that
/// waited before. Nothing else changes.
pub proof fn lemma_challenge_waits(
    backend: &mut MatrixBackend,
    event: MatrixBridgeEvent,
    r: bool,
    user_id: String,
    flow_id: String,
    emojis: Vec<VerificationEmoji>,
)
    requires
        call_ensures(MatrixBackend::apply_event, (backend, event), r),
        event == (MatrixBridgeEvent::VerificationChallenge {
            generation: old(backend).sync_generation,
            user_id,
            flow_id,
            emojis,
        }),
    ensures
        final(backend).pending_verification matches Some(pending) && pending.user_id@ == user_id@
            && pending.flow_id@ == flow_id@ && pending.emojis.len() == emojis.len() && forall|
            i: int,
        |
            0 <= i < emojis.len() ==> (#[trigger] pending.emojis@[i]).symbol@ == emojis@[i].symbol@
                && pending.emojis@[i].description@ == emojis@[i].description@,
        final(backend).rooms.deep_view() == old(backend).rooms.deep_view(),
        final(backend).messages@ == old(backend).messages@,
        final(backend).public_rooms.deep_view() == old(backend).public_rooms.deep_view(),
        final(backend).connection_status@ == old(backend).connection_status@,
{
    let pending = final(backend).pending_verification->0;
    assert(final(backend)@.pending_verification->0 == pending@);
    assert(pending.emojis.deep_view() == emojis.deep_view());
    assert(pending.emojis.deep_view().len() == pending.emojis@.len());
    assert(emojis.deep_view().len() == emojis@.len());
    assert forall|i: int| 0 <= i < emojis.len() implies (
    #[trigger] pending.emojis@[i]).symbol@ == emojis@[i].symbol@
        && pending.emojis@[i].description@ == emojis@[i].description@ by {
        assert(pending.emojis.deep_view()[i] == pending.emojis@[i]@);
        assert(emojis.deep_view()[i] == emojis@[i]@);
    }
}

/// A user who says that the emoji match has the verification confirmed, and one who says that they
/// do not has it rejected: the verification with the ids that were given, which then no longer
/// waits. To close it answers nothing. None of the three changes anything else.
pub proof fn lemma_emoji_are_answered(
    confirmer: &mut MatrixBackend,
    rejecter: &mut MatrixBackend,
    closer: &mut MatrixBackend,
    user_id: String,
    flow_id: String,
    yes: (TaskFlow, Vec<Command>),
    no: (TaskFlow, Vec<Command>),
)
    requires
        call_ensures(
            MatrixBackend::confirm_verification_challenge,
            (confirmer, user_id, flow_id),
            yes,
        ),
        call_ensures(
            MatrixBackend::mismatch_verification_challenge,
            (rejecter, user_id, flow_id),
            no,
        ),
        call_ensures(MatrixBackend::dismiss_verification, (closer,), ()),
    ensures
        yes.0.task matches Task::Respond { user_id: u, flow_id: f, confirm } && confirm && u@
            == user_id@ && f@ == flow_id@,
        no.0.task matches Task::Respond { user_id: u, flow_id: f, confirm } && !confirm && u@
            == user_id@ && f@ == flow_id@,
        yes.0.generation == old(confirmer).sync_generation,
        no.0.generation == old(rejecter).sync_generation,
        final(confirmer).pending_verification is None,
        final(rejecter).pending_verification is None,
        final(closer).pending_verification is None,
        final(confirmer).sync_generation == old(confirmer).sync_generation,
        final(rejecter).sync_generation == old(rejecter).sync_generation,
        final(closer).sync_generation == old(closer).sync_generation,
        final(confirmer).rooms.deep_view() == old(confirmer).rooms.deep_view(),
        final(rejecter).rooms.deep_view() == old(rejecter).rooms.deep_view(),
        final(closer).rooms.deep_view() == old(closer).rooms.deep_view(),
        final(confirmer).messages@ == old(confirmer).messages@,
        final(rejecter).messages@ == old(rejecter).messages@,
        final(closer).messages@ == old(closer).messages@,
{
}

/// A request of another device is answered under the generation that it came in under, with its own
/// ids.
pub proof fn lemma_request_is_taken_up(
    generation: u64,
    user_id: String,
    flow_id: String,
    r: (TaskFlow, Vec<Command>),
)
    requires
        call_ensures(
            MatrixBackend::answer_verification_request,
            (generation, user_id, flow_id),
            r,
        ),
    ensures
        r.0.generation == generation,
        r.0.task matches Task::AnswerRequest { user_id: u, flow_id: f } && u@ == user_id@ && f@
            == flow_id@,
        r.1.len() == 1,
        r.1@[0] matches Command::FindVerificationRequest { user_id: u, flow_id: f } && u@
            == user_id@ && f@ == flow_id@,
{
    assert(r.1.deep_view().len() == r.1@.len());
    assert(r.1.deep_view()[0] == r.1@[0]@);
}

/// A room that is left is off the list with its messages, and all other rooms and messages stay.
pub proof fn lemma_room_is_forgotten(
    backend: &mut MatrixBackend,
    room_id: String,
    r: (TaskFlow, Vec<Command>),
    other: RoomInfo,
)
    requires
        call_ensures(MatrixBackend::leave_room, (backend, room_id), r),
        other.id@ != room_id@,
    ensures
        forall|i: int|
            0 <= i < final(backend).rooms.len() ==> (#[trigger] final(backend).rooms@[i]).id@
                != room_id@,
        final(backend).rooms.deep_view().contains(other@)
            == old(backend).rooms.deep_view().contains(other@),
        !final(backend).messages@.contains_key(room_id@),
        final(backend).messages@.contains_key(other.id@)
            == old(backend).messages@.contains_key(other.id@),
        old(backend).messages@.contains_key(other.id@) ==> final(backend).messages@[other.id@]
            == old(backend).messages@[other.id@],
{
    let b = old(backend)@;
    let rest = final(backend).rooms.deep_view();
    super::client_laws::lemma_left_room_is_gone(b, room_id@, other@);
    assert(rest.len() == final(backend).rooms@.len());
    assert forall|i: int| 0 <= i < final(backend).rooms.len() implies (
    #[trigger] final(backend).rooms@[i]).id@ != room_id@ by {
        assert(rest[i] == final(backend).rooms@[i]@);
        b.rooms.lemma_filter_pred(
            |room: super::types::RoomInfoView| room.id != room_id@,
            i,
        );
    }
}

/// After a logout, as after the end of a stale session, the client shows no room, no message and no
/// verification, says that it is offline, and no longer takes in what was under way. What a search
/// found stays.
pub proof fn lemma_logout_forgets_the_account(
    backend: &mut MatrixBackend,
    stale: &mut MatrixBackend,
    exists: bool,
    r: Vec<EndStep>,
    s: Vec<EndStep>,
)
    requires
        call_ensures(MatrixBackend::logout, (backend, exists), r),
        call_ensures(MatrixBackend::reset_stale_encryption_session, (stale, exists), s),
    ensures
        final(backend).rooms.len() == 0 && final(stale).rooms.len() == 0,
        forall|id: Seq<char>|
            !(#[trigger] final(backend).messages@.contains_key(id))
                && !final(stale).messages@.contains_key(id),
        final(backend).pending_verification is None && final(stale).pending_verification is None,
        final(backend).connection_status@ == "Offline"@ && final(stale).connection_status@
            == "Offline"@,
        final(backend).sync_generation != old(backend).sync_generation,
        final(stale).sync_generation != old(stale).sync_generation,
        final(backend).public_rooms.deep_view() == old(backend).public_rooms.deep_view(),
        r.deep_view() == s.deep_view(),
        r.len() > 0 && r@[r.len() - 1] is DropClient,
{
    assert(final(backend).rooms.deep_view().len() == final(backend).rooms@.len());
    assert(final(stale).rooms.deep_view().len() == final(stale).rooms@.len());
    assert(r.deep_view().len() == r@.len());
    assert(r.deep_view()[r.len() - 1] == r@[r.len() - 1]@);
}

/// A client begins offline, with nothing known and nothing waiting.
pub proof fn lemma_client_begins_offline(r: MatrixBackend)
    requires
        call_ensures(MatrixBackend::new, (), r),
    ensures
        r.rooms.len() == 0,
        r.public_rooms.len() == 0,
        r.pending_verification is None,
        r.connection_status@ == "Offline"@,
        forall|id: Seq<char>| !(#[trigger] r.messages@.contains_key(id)),
{
    assert(r.rooms.deep_view().len() == r.rooms@.len());
    assert(r.public_rooms.deep_view().len() == r.public_rooms@.len());
}

/// Every login begins the next generation and leaves what is shown as it is: the generation changes
/// by one step, which brings it back only after all others.
pub proof fn lemma_login_begins_a_generation(
    restorer: &mut MatrixBackend,
    typist: &mut MatrixBackend,
    browser: &mut MatrixBackend,
    user: String,
    password: String,
    homeserver: String,
    restored: (LoginFlow, Vec<Command>),
    typed: (LoginFlow, Vec<Command>),
    browsed: (LoginFlow, Vec<Command>),
)
    requires
        call_ensures(MatrixBackend::restore_saved_session, (restorer,), restored),
        call_ensures(MatrixBackend::start_sync, (typist, user, password), typed),
        call_ensures(MatrixBackend::start_sso_login, (browser, homeserver), browsed),
    ensures
        restored.0.generation == final(restorer).sync_generation,
        typed.0.generation == final(typist).sync_generation,
        browsed.0.generation == final(browser).sync_generation,
        old(restorer).sync_generation < u64::MAX ==> final(restorer).sync_generation
            == old(restorer).sync_generation + 1,
        old(typist).sync_generation < u64::MAX ==> final(typist).sync_generation
            == old(typist).sync_generation + 1,
        old(browser).sync_generation < u64::MAX ==> final(browser).sync_generation
            == old(browser).sync_generation + 1,
        old(restorer).sync_generation == u64::MAX ==> final(restorer).sync_generation == 0,
        final(restorer).rooms.deep_view() == old(restorer).rooms.deep_view(),
        final(typist).rooms.deep_view() == old(typist).rooms.deep_view(),
        final(browser).rooms.deep_view() == old(browser).rooms.deep_view(),
        final(restorer).messages@ == old(restorer).messages@,
        final(typist).messages@ == old(typist).messages@,
        final(browser).messages@ == old(browser).messages@,
{
}

} // verus!
