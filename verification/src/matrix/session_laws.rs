//! How a session comes up, and what its steps are for.

use super::identifiers::{
    homeserver_name, identity_of, lemma_identity_makes_up_the_user_id, login_user_id,
    server_name_fault, sso_server_of, user_id_fault, LoginIdentityView,
};
use super::login::{
    browser_start, login_after, login_turn, password_start, restore_start, Login, LoginFlow,
    LoginFlowView, LoginPhase, LoginPhaseView, LoginView,
};
use super::protocol::{Command, CommandView, Reply, ReplyView, StopReason};
use super::session::{session_of_json, SavedSessionView};
use super::types::{MatrixBridgeEvent, MatrixBridgeEventView};
use super::verification::TrustQuestion;
use crate::text::{after_first, contains_text, first_of, lemma_first_of};
use vstd::prelude::*;

verus! {

proof fn lemma_step_at(flow: &mut LoginFlow, reply: Reply, r: Vec<Command>, i: int)
    requires
        call_ensures(LoginFlow::step, (flow, reply), r),
        0 <= i < r.len(),
    ensures
        r@.len() == login_turn(old(flow)@, reply@).steps.len(),
        r@[i]@ == login_turn(old(flow)@, reply@).steps[i],
{
    assert(r.deep_view().len() == r@.len());
    assert(r.deep_view()[i] == r@[i]@);
}

/// A session logs in with the name and the password that it was given, and only where the client is
/// not logged in already; it opens the browser only under the current generation; and it restores
/// just the session that was saved.
pub proof fn lemma_login_uses_what_it_was_given(
    flow: &mut LoginFlow,
    reply: Reply,
    r: Vec<Command>,
    i: int,
)
    requires
        call_ensures(LoginFlow::step, (flow, reply), r),
        0 <= i < r.len(),
    ensures
        r@[i] matches Command::LogIn { localpart, password, device_name } ==> (old(flow).login
            matches Login::Password { localpart: l, password: p } && localpart@ == l@ && password@
            == p@ && device_name@ == "Avernus GPUI"@ && old(flow).phase is Checking && reply
            == (Reply::Flag { yes: false })),
        r@[i] matches Command::LogInWithBrowser { device_name } ==> device_name@
            == "Avernus GPUI"@ && old(flow).phase is BrowserGate && reply == (Reply::Generation {
            current: old(flow).generation,
        }),
        r@[i] matches Command::RestoreSession { session } ==> (old(flow).phase matches
            LoginPhase::Building { session: Some(saved), .. } && session@ == saved@
            && old(flow).login is Restored),
        r@[i] matches Command::BuildClient { server_name } ==> server_name@
            == final(flow).server_name@,
        final(flow)@.login == old(flow)@.login,
        old(flow).phase !is Loading ==> final(flow).server_name@ == old(flow).server_name@,
{
    lemma_step_at(flow, reply, r, i);
}

/// A client is kept, its session saved and its messages taken in only where it is not logged in and
/// so has nothing to set up, where cross-signing is set up, or where it could be set up. Messages
/// of a restored session are timed in seconds, and the requests of other devices are handled but
/// for a login through the browser.
pub proof fn lemma_client_is_kept_for_a_reason(
    flow: &mut LoginFlow,
    reply: Reply,
    r: Vec<Command>,
    i: int,
)
    requires
        call_ensures(LoginFlow::step, (flow, reply), r),
        0 <= i < r.len(),
    ensures
        r@[i] is KeepClient || r@[i] is PersistSession || r@[i] is ListenForMessages || r@[i] is
            HandleVerificationRequests ==> (old(flow).phase matches LoginPhase::Trusting {
            question,
        } && (reply matches Reply::Flag { yes } && {
            ||| question is LoggedIn && !yes
            ||| question is Complete && yes
            ||| question is Bootstrapped && yes
        })),
        r@[i] matches Command::ListenForMessages { in_seconds } ==> in_seconds == (
        old(flow).login is Restored),
        r@[i] is HandleVerificationRequests ==> old(flow).login !is Browser,
        r@[i] is AskCrossSigning ==> old(flow).phase == (LoginPhase::Trusting {
            question: TrustQuestion::LoggedIn,
        }) && reply == (Reply::Flag { yes: true }),
        r@[i] is BootstrapCrossSigning ==> old(flow).phase == (LoginPhase::Trusting {
            question: TrustQuestion::Complete,
        }) && reply == (Reply::Flag { yes: false }),
{
    lemma_step_at(flow, reply, r, i);
}

/// The client is logged out only where its device cannot be trusted. The saved session is forgotten
/// only then or where it cannot be restored. The store is reset only for a login that finds the
/// store of another account, and not twice.
pub proof fn lemma_session_is_given_up_for_a_reason(
    flow: &mut LoginFlow,
    reply: Reply,
    r: Vec<Command>,
    i: int,
)
    requires
        call_ensures(LoginFlow::step, (flow, reply), r),
        0 <= i < r.len(),
    ensures
        r@[i] is LogOut ==> old(flow).phase == (LoginPhase::Trusting {
            question: TrustQuestion::Bootstrapped,
        }) && reply == (Reply::Flag { yes: false }),
        r@[i] is ClearSession ==> {
            ||| old(flow).phase == (LoginPhase::Trusting { question: TrustQuestion::Bootstrapped })
                && reply == (Reply::Flag { yes: false })
            ||| old(flow).phase is Restoring && (reply matches Reply::Outcome { result }
                && result is Err)
        },
        r@[i] is ResetStore ==> old(flow).login !is Restored && (old(flow).phase matches
            LoginPhase::Building { again, .. } && !again) && (reply matches Reply::Outcome {
            result,
        } && (result matches Err(error) && contains_text(
            error@,
            "the account in the store doesn't match"@,
        ))),
{
    lemma_step_at(flow, reply, r, i);
}

/// A session syncs and collects rooms only under the current generation or after a sync that
/// worked, waits five seconds after one that did not, and reports the rooms that it collected.
pub proof fn lemma_sync_steps(flow: &mut LoginFlow, reply: Reply, r: Vec<Command>, i: int)
    requires
        call_ensures(LoginFlow::step, (flow, reply), r),
        0 <= i < r.len(),
    ensures
        r@[i] is SyncOnce ==> old(flow).phase is SyncGate && reply == (Reply::Generation {
            current: old(flow).generation,
        }),
        r@[i] is CollectRooms ==> {
            ||| old(flow).phase is RoomsGate && reply == (Reply::Generation {
                current: old(flow).generation,
            })
            ||| old(flow).phase is Syncing && reply == (Reply::Flag { yes: true })
        },
        r@[i] matches Command::Sleep { seconds } ==> seconds == 5 && old(flow).phase is Syncing
            && reply == (Reply::Flag { yes: false }),
        r@[i] matches Command::Emit { event } ==> {
            ||| event matches MatrixBridgeEvent::ConnectionFailed { generation, .. } && generation
                == old(flow).generation
            ||| event matches MatrixBridgeEvent::Connected { generation } && generation
                == old(flow).generation && old(flow).phase is ConnectGate
            ||| event matches MatrixBridgeEvent::SyncRooms { generation, rooms } && generation
                == old(flow).generation && {
                ||| old(flow).phase matches LoginPhase::ConnectGate { rooms: held }
                    && rooms.deep_view() == held.deep_view()
                ||| old(flow).phase matches LoginPhase::ReportGate { rooms: held }
                    && rooms.deep_view() == held.deep_view()
            }
        },
{
    lemma_step_at(flow, reply, r, i);
}

/// A failure is reported with what went wrong: the words of the client, set off where they are
/// about the saved session, or that the device is not to be trusted.
pub proof fn lemma_failure_says_why(
    flow: &mut LoginFlow,
    reply: Reply,
    r: Vec<Command>,
    i: int,
    generation: u64,
    error: String,
)
    requires
        call_ensures(LoginFlow::step, (flow, reply), r),
        0 <= i < r.len(),
        r@[i] == (Command::Emit {
            event: MatrixBridgeEvent::ConnectionFailed { generation, error },
        }),
    ensures
        final(flow).phase is Stopped,
        ({
            ||| (old(flow).phase is Building || old(flow).phase is LoggingIn) && (reply matches
                Reply::Outcome { result } && (result matches Err(fault) && error@ == fault@))
            ||| old(flow).phase is Restoring && (reply matches Reply::Outcome { result } && (
            result matches Err(fault) && error@ == "Saved Matrix session is stale or invalid: "@
                + fault@))
            ||| old(flow).phase == (LoginPhase::Trusting { question: TrustQuestion::Bootstrapped })
                && reply == (Reply::Flag { yes: false }) && error@
                == "Matrix device trust state was stale; please log in again to reset the encryption session."@
        }),
{
    lemma_step_at(flow, reply, r, i);
    assert(r@[i]@ == (CommandView::Emit {
        event: MatrixBridgeEventView::ConnectionFailed { generation, error: error@ },
    }));
}

/// Every failure is reported: of a client that cannot be built, unless the store is to be reset for
/// it, of a login and of a session that cannot be restored.
pub proof fn lemma_failure_is_reported(flow: LoginFlowView, error: Seq<char>)
    requires
        flow.phase is LoggingIn || flow.phase is Restoring || (flow.phase matches
            LoginPhaseView::Building { again, .. } && (again || flow.login is Restored
            || !contains_text(error, "the account in the store doesn't match"@))),
    ensures
        ({
            let turn = login_turn(flow, ReplyView::Outcome { result: Err(error) });
            let n = turn.steps.len() as int;
            &&& turn.phase is Stopped
            &&& n >= 2
            &&& turn.steps[n - 2] matches CommandView::Emit { event }
            &&& event is ConnectionFailed
            &&& turn.steps[n - 1] is Stop
            &&& flow.phase is Restoring ==> turn.steps[0] == CommandView::ClearSession
        }),
{
}

/// A login that finds the store of another account resets the store and tries the same server
/// again.
pub proof fn lemma_store_of_another_account_is_reset(flow: LoginFlowView, error: Seq<char>)
    requires
        flow.login !is Restored,
        flow.phase matches LoginPhaseView::Building { again, .. } && !again,
        contains_text(error, "the account in the store doesn't match"@),
    ensures
        login_turn(flow, ReplyView::Outcome { result: Err(error) }).steps == seq![
            CommandView::ResetStore,
            CommandView::BuildClient { server_name: flow.server_name },
        ],
        login_after(flow, ReplyView::Outcome { result: Err(error) }).phase
            == (LoginPhaseView::Building { session: None, again: true }),
{
}

/// A session with a password: the account that is typed as a whole user id is logged in at its own
/// server under its own name with the password that is typed.
pub proof fn lemma_password_login(
    generation: u64,
    local: Seq<char>,
    server: Seq<char>,
    password: Seq<char>,
)
    requires
        !local.contains(':'),
        user_id_fault("@"@ + local + ":"@ + server) is None,
    ensures
        ({
            let start = password_start(generation, "@"@ + local + ":"@ + server, password);
            let done = ReplyView::Outcome { result: Ok::<(), Seq<char>>(()) };
            let no = ReplyView::Flag { yes: false };
            let f1 = login_after(start.flow, done);
            let f2 = login_after(f1, no);
            &&& start.steps == seq![CommandView::BuildClient { server_name: server }]
            &&& login_turn(start.flow, done).steps == seq![
                CommandView::SetSessionCallbacks,
                CommandView::AskLoggedIn,
            ]
            &&& login_turn(f1, no).steps == seq![
                CommandView::LogIn {
                    localpart: local,
                    password,
                    device_name: "Avernus GPUI"@,
                },
            ]
            &&& login_turn(f1, ReplyView::Flag { yes: true }).steps == seq![
                CommandView::AskLoggedIn,
            ]
            &&& login_turn(f2, done).steps == seq![CommandView::AskLoggedIn]
            &&& login_after(f2, done).phase == (LoginPhaseView::Trusting {
                question: TrustQuestion::LoggedIn,
            })
        }),
{
    reveal_strlit("@");
    reveal_strlit(":");
    let id = "@"@ + local + ":"@ + server;
    assert(id[0] == '@');
    lemma_identity_makes_up_the_user_id(id);
    let identity = identity_of(id)->Ok_0;
    lemma_first_of(id, ':');
    let n = local.len() as int;
    assert(id[n + 1] == ':');
    assert(first_of(id, ':') == n + 1) by {
        let k = first_of(id, ':');
        if k < n + 1 {
            assert(k > 0);
            assert(local[k - 1] == id[k]);
            assert(local.contains(local[k - 1]));
        }
    }
    assert(identity.server_name =~= server);
    assert(identity.localpart =~= local);
}

/// A session whose account cannot be made out fails at once and says so.
pub proof fn lemma_unknown_account_fails(
    generation: u64,
    input: Seq<char>,
    password: Seq<char>,
    homeserver: Seq<char>,
)
    ensures
        user_id_fault(login_user_id(input)) is Some ==> {
            let start = password_start(generation, input, password);
            &&& start.flow.phase is Stopped
            &&& start.steps.len() == 2
            &&& start.steps[0] matches CommandView::Emit { event }
            &&& event matches MatrixBridgeEventView::ConnectionFailed { generation: g, error }
            &&& g == generation
            &&& identity_of(input) == Err::<LoginIdentityView, Seq<char>>(error)
            &&& start.steps[1] is Stop
        },
        server_name_fault(homeserver_name(homeserver)) is Some ==> {
            let start = browser_start(generation, homeserver);
            &&& start.flow.phase is Stopped
            &&& start.steps.len() == 2
            &&& start.steps[0] matches CommandView::Emit { event }
            &&& event matches MatrixBridgeEventView::ConnectionFailed { generation: g, error }
            &&& g == generation
            &&& sso_server_of(homeserver) == Err::<Seq<char>, Seq<char>>(error)
            &&& start.steps[1] is Stop
        },
{
}

/// A session through the browser: the server that is named is asked, and the browser opens as long
/// as no later generation has begun.
pub proof fn lemma_browser_login(generation: u64, homeserver: Seq<char>, current: u64)
    requires
        sso_server_of(homeserver) is Ok,
    ensures
        ({
            let start = browser_start(generation, homeserver);
            let done = ReplyView::Outcome { result: Ok::<(), Seq<char>>(()) };
            let f1 = login_after(start.flow, done);
            let read = ReplyView::Generation { current };
            &&& start.steps == seq![
                CommandView::BuildClient { server_name: sso_server_of(homeserver)->Ok_0 },
            ]
            &&& login_turn(start.flow, done).steps == seq![
                CommandView::SetSessionCallbacks,
                CommandView::ReadGeneration,
            ]
            &&& current == generation ==> login_turn(f1, read).steps == seq![
                CommandView::LogInWithBrowser { device_name: "Avernus GPUI"@ },
            ]
            &&& current != generation ==> login_turn(f1, read).steps == seq![
                CommandView::Stop { reason: StopReason::Superseded },
            ]
            &&& current == generation ==> login_turn(login_after(f1, read), done).steps == seq![
                CommandView::AskLoggedIn,
            ] && login_after(login_after(f1, read), done).phase == (LoginPhaseView::Trusting {
                question: TrustQuestion::LoggedIn,
            })
        }),
{
}

/// A saved session is restored at the server of its account: what the file holds is handed to the
/// client as it is. Where the file holds none, nothing is done or reported.
pub proof fn lemma_saved_session_is_restored(
    generation: u64,
    text: Seq<char>,
    session: SavedSessionView,
    local: Seq<char>,
    server: Seq<char>,
)
    requires
        session_of_json(text) == Ok::<SavedSessionView, Seq<char>>(session),
        session.user_id == "@"@ + local + ":"@ + server,
        !local.contains(':'),
    ensures
        ({
            let start = restore_start(generation);
            let read = ReplyView::Text { text: Some(text) };
            let done = ReplyView::Outcome { result: Ok::<(), Seq<char>>(()) };
            let f1 = login_after(start.flow, read);
            let f2 = login_after(f1, done);
            &&& start.steps == seq![CommandView::ReadSessionFile]
            &&& login_turn(start.flow, read).steps == seq![
                CommandView::BuildClient { server_name: server },
            ]
            &&& login_turn(f1, done).steps == seq![
                CommandView::SetSessionCallbacks,
                CommandView::RestoreSession { session },
            ]
            &&& login_turn(f2, done).steps == seq![CommandView::AskLoggedIn]
            &&& login_after(f2, done).phase == (LoginPhaseView::Trusting {
                question: TrustQuestion::LoggedIn,
            })
            &&& login_turn(start.flow, ReplyView::Text { text: None }).steps == seq![
                CommandView::Stop { reason: StopReason::NoSession },
            ]
        }),
{
    reveal_strlit("@");
    reveal_strlit(":");
    let id = session.user_id;
    lemma_first_of(id, ':');
    let n = local.len() as int;
    assert(id[n + 1] == ':');
    assert(first_of(id, ':') == n + 1) by {
        let k = first_of(id, ':');
        if k < n + 1 {
            if k > 0 {
                assert(local[k - 1] == id[k]);
                assert(local.contains(local[k - 1]));
            }
        }
    }
    assert(after_first(id, ':') =~= server);
}

/// A file that holds no session leaves nothing to restore.
pub proof fn lemma_unreadable_session_is_no_session(generation: u64, text: Seq<char>)
    requires
        session_of_json(text) is Err,
    ensures
        login_turn(restore_start(generation).flow, ReplyView::Text { text: Some(text) }).steps
            == seq![CommandView::Stop { reason: StopReason::NoSession }],
{
}

/// A device that is logged in is trusted where cross-signing is set up or can be set up, and the
/// session then goes on to its rooms; otherwise the login is undone: the client is logged out, the
/// saved session forgotten, and the failure reported.
pub proof fn lemma_trust_decides(flow: LoginFlowView)
    requires
        flow.phase == (LoginPhaseView::Trusting { question: TrustQuestion::LoggedIn }),
    ensures
        ({
            let yes = ReplyView::Flag { yes: true };
            let no = ReplyView::Flag { yes: false };
            let f1 = login_after(flow, yes);
            let f2 = login_after(f1, no);
            let undone = login_turn(f2, no);
            &&& login_turn(flow, yes).steps == seq![CommandView::AskCrossSigning]
            &&& login_turn(f1, no).steps == seq![CommandView::BootstrapCrossSigning]
            &&& keeps_client(flow.login, login_turn(flow, no).steps)
            &&& keeps_client(flow.login, login_turn(f1, yes).steps)
            &&& keeps_client(flow.login, login_turn(f2, yes).steps)
            &&& login_after(flow, no).phase is RoomsGate
            &&& login_after(f1, yes).phase is RoomsGate
            &&& login_after(f2, yes).phase is RoomsGate
            &&& undone.phase is Stopped
            &&& undone.steps.len() == 4
            &&& undone.steps[0] == CommandView::LogOut
            &&& undone.steps[1] == CommandView::ClearSession
            &&& undone.steps[2] matches CommandView::Emit { event }
            &&& event is ConnectionFailed
            &&& undone.steps[3] is Stop
        }),
{
    let yes = ReplyView::Flag { yes: true };
    let no = ReplyView::Flag { yes: false };
    let f1 = login_after(flow, yes);
    let f2 = login_after(f1, no);
    let steps = login_turn(flow, no).steps;
    assert(login_turn(f1, yes).steps == steps);
    assert(login_turn(f2, yes).steps == steps);
    match flow.login {
        LoginView::Restored => {
            assert(steps[0] == CommandView::HandleVerificationRequests);
            assert(steps[1] == CommandView::PersistSession);
            assert(steps[2] == CommandView::KeepClient);
            assert(steps[3] == (CommandView::ListenForMessages { in_seconds: true }));
        },
        LoginView::Password { .. } => {
            assert(steps[0] == CommandView::HandleVerificationRequests);
            assert(steps[1] == CommandView::PersistSession);
            assert(steps[2] == (CommandView::ListenForMessages { in_seconds: false }));
            assert(steps[3] == CommandView::KeepClient);
        },
        LoginView::Browser => {
            assert(steps[0] == CommandView::PersistSession);
            assert(steps[1] == CommandView::KeepClient);
            assert(steps[2] == (CommandView::ListenForMessages { in_seconds: false }));
        },
    }
}

/// Whether the session is saved, the client kept and its messages taken in, and the generation then
/// read; and, but for a login through the browser, the requests of other devices handled.
pub open spec fn keeps_client(login: LoginView, steps: Seq<CommandView>) -> bool {
    &&& steps.contains(CommandView::PersistSession)
    &&& steps.contains(CommandView::KeepClient)
    &&& steps.contains(CommandView::ListenForMessages { in_seconds: login is Restored })
    &&& login !is Browser ==> steps.contains(CommandView::HandleVerificationRequests)
        && steps.len() == 5
    &&& login is Browser ==> steps.len() == 4
    &&& steps.last() == CommandView::ReadGeneration
}

/// A session that is up syncs again and again: each sync under its own generation, the rooms after
/// each that works, a pause after each that does not.
pub proof fn lemma_session_keeps_in_sync(flow: LoginFlowView)
    ensures
        ({
            let read = ReplyView::Generation { current: flow.generation };
            let yes = ReplyView::Flag { yes: true };
            let no = ReplyView::Flag { yes: false };
            &&& flow.phase is RoomsGate ==> login_turn(flow, read).steps == seq![
                CommandView::CollectRooms,
            ] && login_after(flow, read).phase is FirstRooms
            &&& flow.phase is SyncGate ==> login_turn(flow, read).steps == seq![
                CommandView::SyncOnce,
            ] && login_after(flow, read).phase is Syncing
            &&& flow.phase is Syncing ==> login_turn(flow, yes).steps == seq![
                CommandView::CollectRooms,
            ] && login_after(flow, yes).phase is NextRooms
            &&& flow.phase is Syncing ==> login_turn(flow, no).steps == seq![
                CommandView::Sleep { seconds: 5 },
                CommandView::ReadGeneration,
            ] && login_after(flow, no).phase is SyncGate
        }),
{
}

/// What begins a session is what it was asked for with: the saved session, the password, or the
/// browser.
pub proof fn lemma_login_begins_as_asked(
    generation: u64,
    input: &str,
    password: String,
    homeserver: &str,
    restored: (LoginFlow, Vec<Command>),
    typed: (LoginFlow, Vec<Command>),
    browsed: (LoginFlow, Vec<Command>),
)
    requires
        call_ensures(LoginFlow::restore, (generation,), restored),
        call_ensures(LoginFlow::with_password, (generation, input, password), typed),
        call_ensures(LoginFlow::with_browser, (generation, homeserver), browsed),
    ensures
        restored.0.login is Restored,
        restored.1.len() == 1 && restored.1@[0] is ReadSessionFile,
        typed.0.login matches Login::Password { password: p, .. } && p@ == password@,
        browsed.0.login is Browser,
        restored.0.generation == generation,
        typed.0.generation == generation,
        browsed.0.generation == generation,
{
    assert(restored.1.deep_view().len() == restored.1@.len());
    assert(restored.1.deep_view()[0] == restored.1@[0]@);
}

/// A session that is overtaken at any point where it looks ends there and then, without a report.
pub proof fn lemma_overtaken_session_is_silent(flow: LoginFlowView, current: u64)
    requires
        current != flow.generation,
    ensures
        login_turn(flow, ReplyView::Generation { current }).steps == seq![
            CommandView::Stop { reason: StopReason::Superseded },
        ],
        login_after(flow, ReplyView::Generation { current }).phase is Stopped,
{
}

} // verus!
