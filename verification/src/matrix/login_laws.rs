//! What holds of every session, whatever it is answered.

use super::login::{
    browser_start, login_after, login_turn, password_start, restore_start, stopping, LoginFlowView,
    LoginPhaseView,
};
use super::protocol::{emits, fits, lemma_emitted, CommandView, ReplyView, StopReason};
use super::types::MatrixBridgeEventView;
use super::verification::{trust_step, TrustStep};
use vstd::prelude::*;

verus! {

/// The flow after the answers `replies`.
pub open spec fn login_run(flow: LoginFlowView, replies: Seq<ReplyView>) -> LoginFlowView
    decreases replies.len(),
{
    if replies.len() == 0 {
        flow
    } else {
        login_after(login_run(flow, replies.drop_last()), replies.last())
    }
}

/// Whether every event that `steps` reports is of the generation `generation`.
pub open spec fn events_of(steps: Seq<CommandView>, generation: u64) -> bool {
    forall|i: int|
        #![trigger steps[i]]
        0 <= i < steps.len() ==> (steps[i] matches CommandView::Emit { event }
            ==> event.generation() == generation)
}

/// A session keeps its generation, and every event that it reports is of that generation.
pub proof fn lemma_login_reports_its_generation(flow: LoginFlowView, reply: ReplyView)
    ensures
        login_after(flow, reply).generation == flow.generation,
        events_of(login_turn(flow, reply).steps, flow.generation),
{
}

/// The same of the first steps of a session.
pub proof fn lemma_login_starts_with_its_generation(
    generation: u64,
    input: Seq<char>,
    password: Seq<char>,
    homeserver: Seq<char>,
)
    ensures
        restore_start(generation).flow.generation == generation,
        events_of(restore_start(generation).steps, generation),
        password_start(generation, input, password).flow.generation == generation,
        events_of(password_start(generation, input, password).steps, generation),
        browser_start(generation, homeserver).flow.generation == generation,
        events_of(browser_start(generation, homeserver).steps, generation),
{
}

/// Rooms and the connection are reported only right after the generation was read and was still
/// that of the session.
pub proof fn lemma_reports_are_current(
    flow: LoginFlowView,
    reply: ReplyView,
    event: MatrixBridgeEventView,
)
    requires
        emits(login_turn(flow, reply).steps, event),
        event !is ConnectionFailed,
    ensures
        reply == (ReplyView::Generation { current: flow.generation }),
        event is SyncRooms || event is Connected,
{
    lemma_emitted(login_turn(flow, reply).steps, event);
}

/// A session that learns of a later generation ends without a word.
pub proof fn lemma_superseded_login_stops(flow: LoginFlowView, current: u64)
    requires
        current != flow.generation,
    ensures
        login_turn(flow, ReplyView::Generation { current }) == stopping(StopReason::Superseded),
{
}

/// A session that has ended stays so and does nothing more.
pub proof fn lemma_stopped_login_stays(flow: LoginFlowView, reply: ReplyView)
    requires
        flow.phase is Stopped,
    ensures
        login_after(flow, reply).phase is Stopped,
        login_turn(flow, reply).steps.len() == 1,
        login_turn(flow, reply).steps[0] is Stop,
{
}

/// Whether the device of the session has been trusted.
pub open spec fn past_trust(phase: LoginPhaseView) -> bool {
    match phase {
        LoginPhaseView::RoomsGate
        | LoginPhaseView::FirstRooms
        | LoginPhaseView::ConnectGate { .. }
        | LoginPhaseView::SyncGate
        | LoginPhaseView::Syncing
        | LoginPhaseView::NextRooms
        | LoginPhaseView::ReportGate { .. } => true,
        _ => false,
    }
}

/// Whether `reply` settles that the device can be trusted.
pub open spec fn passes_trust(flow: LoginFlowView, reply: ReplyView) -> bool {
    match (flow.phase, reply) {
        (LoginPhaseView::Trusting { question }, ReplyView::Flag { yes }) => trust_step(
            question,
            yes,
        ) == TrustStep::Trusted,
        _ => false,
    }
}

/// The rooms of an account, its messages and its connection are reached only through a device that
/// can be trusted: a session that reaches them has passed the trust check on the way.
pub proof fn lemma_rooms_need_trust(flow: LoginFlowView, replies: Seq<ReplyView>)
    requires
        !past_trust(flow.phase),
        past_trust(login_run(flow, replies).phase),
    ensures
        exists|k: int|
            0 <= k < replies.len() && passes_trust(
                login_run(flow, #[trigger] replies.take(k)),
                replies[k],
            ),
    decreases replies.len(),
{
    if replies.len() > 0 {
        let front = replies.drop_last();
        let n = front.len() as int;
        let before = login_run(flow, front);
        assert(replies.take(n) =~= front);
        if past_trust(before.phase) {
            lemma_rooms_need_trust(flow, front);
            let k = choose|k: int|
                0 <= k < front.len() && passes_trust(
                    login_run(flow, #[trigger] front.take(k)),
                    front[k],
                );
            assert(replies.take(k) =~= front.take(k));
            assert(replies[k] == front[k]);
        } else {
            assert(passes_trust(before, replies.last()));
            assert(passes_trust(login_run(flow, replies.take(n)), replies[n]));
        }
    }
}

/// A report of rooms or of the connection comes from a session past the trust check.
pub proof fn lemma_reports_are_past_trust(
    flow: LoginFlowView,
    reply: ReplyView,
    event: MatrixBridgeEventView,
)
    requires
        emits(login_turn(flow, reply).steps, event),
        event !is ConnectionFailed,
    ensures
        past_trust(flow.phase),
{
    lemma_emitted(login_turn(flow, reply).steps, event);
}

/// No session begins past the trust check.
pub proof fn lemma_login_starts_before_trust(
    generation: u64,
    input: Seq<char>,
    password: Seq<char>,
    homeserver: Seq<char>,
)
    ensures
        !past_trust(restore_start(generation).flow.phase),
        !past_trust(password_start(generation, input, password).flow.phase),
        !past_trust(browser_start(generation, homeserver).flow.phase),
{
}

/// A session that reports rooms or the connection has passed the trust check on the way.
pub proof fn lemma_connected_session_was_trusted(
    flow: LoginFlowView,
    replies: Seq<ReplyView>,
    reply: ReplyView,
    event: MatrixBridgeEventView,
)
    requires
        !past_trust(flow.phase),
        emits(login_turn(login_run(flow, replies), reply).steps, event),
        event !is ConnectionFailed,
    ensures
        exists|k: int|
            0 <= k < replies.len() && passes_trust(
                login_run(flow, #[trigger] replies.take(k)),
                replies[k],
            ),
{
    lemma_reports_are_past_trust(login_run(flow, replies), reply, event);
    lemma_rooms_need_trust(flow, replies);
}

/// A client is kept, its session saved, and its messages and verification requests taken in only
/// at the moment in which its device turns out to be trusted.
pub proof fn lemma_client_is_kept_when_trusted(flow: LoginFlowView, reply: ReplyView, i: int)
    requires
        0 <= i < login_turn(flow, reply).steps.len(),
        ({
            let step = login_turn(flow, reply).steps[i];
            step is KeepClient || step is PersistSession || step is ListenForMessages
                || step is HandleVerificationRequests
        }),
    ensures
        passes_trust(flow, reply),
{
}

/// How often the store is reset over the answers `replies`.
pub open spec fn store_resets(flow: LoginFlowView, replies: Seq<ReplyView>) -> nat
    decreases replies.len(),
{
    if replies.len() == 0 {
        0
    } else {
        let before = login_run(flow, replies.drop_last());
        let now: nat = if login_turn(before, replies.last()).steps.contains(
            CommandView::ResetStore,
        ) {
            1
        } else {
            0
        };
        store_resets(flow, replies.drop_last()) + now
    }
}

/// Whether a flow may still reset the store.
spec fn may_reset(flow: LoginFlowView) -> bool {
    flow.login !is Restored && match flow.phase {
        LoginPhaseView::Loading => true,
        LoginPhaseView::Building { again, .. } => !again,
        _ => false,
    }
}

proof fn lemma_resets_left(flow: LoginFlowView, reply: ReplyView)
    ensures
        login_after(flow, reply).login == flow.login,
        may_reset(login_after(flow, reply)) ==> may_reset(flow),
        login_turn(flow, reply).steps.contains(CommandView::ResetStore) ==> may_reset(flow)
            && !may_reset(login_after(flow, reply)),
{
    let steps = login_turn(flow, reply).steps;
    if steps.contains(CommandView::ResetStore) {
        let i = choose|i: int| 0 <= i < steps.len() && steps[i] == CommandView::ResetStore;
        assert(steps[i] == CommandView::ResetStore);
    }
}

/// A session resets the store at most once, and never where it is restored.
pub proof fn lemma_store_is_reset_once(flow: LoginFlowView, replies: Seq<ReplyView>)
    ensures
        store_resets(flow, replies) <= 1,
        flow.login is Restored ==> store_resets(flow, replies) == 0,
{
    lemma_resets_bounded(flow, replies);
}

proof fn lemma_resets_bounded(flow: LoginFlowView, replies: Seq<ReplyView>)
    ensures
        login_run(flow, replies).login == flow.login,
        store_resets(flow, replies) <= 1,
        store_resets(flow, replies) == 1 ==> !may_reset(login_run(flow, replies)),
        flow.login is Restored ==> store_resets(flow, replies) == 0,
    decreases replies.len(),
{
    if replies.len() > 0 {
        lemma_resets_bounded(flow, replies.drop_last());
        lemma_resets_left(login_run(flow, replies.drop_last()), replies.last());
    }
}

/// Whether the parts of a flow fit each other.
pub open spec fn login_wf(flow: LoginFlowView) -> bool {
    match flow.phase {
        LoginPhaseView::Loading | LoginPhaseView::Restoring => flow.login is Restored,
        LoginPhaseView::Building { session, .. } => (flow.login is Restored) == (session is Some),
        LoginPhaseView::Checking => flow.login is Password,
        LoginPhaseView::BrowserGate => flow.login is Browser,
        LoginPhaseView::LoggingIn => flow.login !is Restored,
        _ => true,
    }
}

/// Whether a flow in `phase` waits for an answer like `reply`.
pub open spec fn login_awaits(phase: LoginPhaseView, reply: ReplyView) -> bool {
    match phase {
        LoginPhaseView::Loading => reply is Text,
        LoginPhaseView::Building { .. }
        | LoginPhaseView::Restoring
        | LoginPhaseView::LoggingIn => reply is Outcome,
        LoginPhaseView::Checking | LoginPhaseView::Trusting { .. } | LoginPhaseView::Syncing => {
            reply is Flag
        },
        LoginPhaseView::BrowserGate
        | LoginPhaseView::RoomsGate
        | LoginPhaseView::ConnectGate { .. }
        | LoginPhaseView::SyncGate
        | LoginPhaseView::ReportGate { .. } => reply is Generation,
        LoginPhaseView::FirstRooms | LoginPhaseView::NextRooms => reply is Rooms,
        LoginPhaseView::Stopped => false,
    }
}

/// Every session begins with its parts fitting each other, and waits for the answer to its last
/// step.
pub proof fn lemma_login_starts_well(
    generation: u64,
    input: Seq<char>,
    password: Seq<char>,
    homeserver: Seq<char>,
    answer: ReplyView,
)
    ensures
        ({
            let r = restore_start(generation);
            login_wf(r.flow) && fits(r.steps.last(), answer) == login_awaits(r.flow.phase, answer)
        }),
        ({
            let p = password_start(generation, input, password);
            login_wf(p.flow) && fits(p.steps.last(), answer) == login_awaits(p.flow.phase, answer)
        }),
        ({
            let b = browser_start(generation, homeserver);
            login_wf(b.flow) && fits(b.steps.last(), answer) == login_awaits(b.flow.phase, answer)
        }),
{
}

/// A session that is answered as it asked never stumbles over the answer, and then waits for the
/// answer to its last step.
pub proof fn lemma_login_answered_as_asked(
    flow: LoginFlowView,
    reply: ReplyView,
    answer: ReplyView,
)
    requires
        login_wf(flow),
        login_awaits(flow.phase, reply),
    ensures
        login_wf(login_after(flow, reply)),
        !login_turn(flow, reply).steps.contains(
            CommandView::Stop { reason: StopReason::Unexpected },
        ),
        fits(login_turn(flow, reply).steps.last(), answer) == login_awaits(
            login_after(flow, reply).phase,
            answer,
        ),
{
}

/// A session that is up goes on until a later generation begins: whatever its syncs come to, it
/// does not end on its own.
pub proof fn lemma_sync_goes_on(flow: LoginFlowView, reply: ReplyView)
    requires
        flow.phase is SyncGate || flow.phase is Syncing || flow.phase is NextRooms
            || flow.phase is ReportGate,
        login_awaits(flow.phase, reply),
        reply matches ReplyView::Generation { current } ==> current == flow.generation,
    ensures
        ({
            let next = login_after(flow, reply).phase;
            next is SyncGate || next is Syncing || next is NextRooms || next is ReportGate
        }),
{
}

} // verus!
