//! Setting up a session and keeping it in sync.

use super::client::MatrixBackend;
use super::identifiers::{identity_of, login_identity, sso_server_name, sso_server_of};
use super::protocol::{Command, CommandView, Reply, ReplyView, StopReason};
use super::rooms::{listed, JoinedRoomView};
use super::session::{saved_in, SavedSession, SavedSessionView};
use super::types::{text_view, MatrixBridgeEvent, MatrixBridgeEventView, RoomInfo, RoomInfoView};
use super::verification::{trust_step, TrustQuestion, TrustStep};
use crate::text::{after_first, after_first_char, contains, contains_text, joined};
use vstd::prelude::*;

verus! {

/// How a session begins.
pub enum Login {
    /// From the saved session.
    Restored,
    /// With a password.
    Password { localpart: String, password: String },
    /// Through the browser.
    Browser,
}

/// The contents of a [`Login`].
#[verifier::ext_equal]
pub enum LoginView {
    Restored,
    Password { localpart: Seq<char>, password: Seq<char> },
    Browser,
}

impl View for Login {
    type V = LoginView;

    open spec fn view(&self) -> LoginView {
        match *self {
            Login::Restored => LoginView::Restored,
            Login::Password { localpart, password } => LoginView::Password {
                localpart: localpart@,
                password: password@,
            },
            Login::Browser => LoginView::Browser,
        }
    }
}

impl DeepView for Login {
    type V = LoginView;

    open spec fn deep_view(&self) -> LoginView {
        self@
    }
}

/// What a login waits for.
pub enum LoginPhase {
    /// The text of the session file.
    Loading,
    /// A client; `again` says that the store was reset for it.
    Building { session: Option<SavedSession>, again: bool },
    /// The restored session.
    Restoring,
    /// Whether the client is logged in already.
    Checking,
    /// The generation, before the browser opens.
    BrowserGate,
    /// The login.
    LoggingIn,
    /// Whether the device can be trusted.
    Trusting { question: TrustQuestion },
    /// The generation, before the first rooms are collected.
    RoomsGate,
    /// The first rooms.
    FirstRooms,
    /// The generation, before the session is up.
    ConnectGate { rooms: Vec<RoomInfo> },
    /// The generation, before the next sync.
    SyncGate,
    /// A sync.
    Syncing,
    /// The rooms after a sync.
    NextRooms,
    /// The generation, before the rooms are reported.
    ReportGate { rooms: Vec<RoomInfo> },
    /// Nothing more.
    Stopped,
}

/// The contents of a [`LoginPhase`].
#[verifier::ext_equal]
pub enum LoginPhaseView {
    Loading,
    Building { session: Option<SavedSessionView>, again: bool },
    Restoring,
    Checking,
    BrowserGate,
    LoggingIn,
    Trusting { question: TrustQuestion },
    RoomsGate,
    FirstRooms,
    ConnectGate { rooms: Seq<RoomInfoView> },
    SyncGate,
    Syncing,
    NextRooms,
    ReportGate { rooms: Seq<RoomInfoView> },
    Stopped,
}

impl View for LoginPhase {
    type V = LoginPhaseView;

    open spec fn view(&self) -> LoginPhaseView {
        match *self {
            LoginPhase::Loading => LoginPhaseView::Loading,
            LoginPhase::Building { session, again } => LoginPhaseView::Building {
                session: session.deep_view(),
                again,
            },
            LoginPhase::Restoring => LoginPhaseView::Restoring,
            LoginPhase::Checking => LoginPhaseView::Checking,
            LoginPhase::BrowserGate => LoginPhaseView::BrowserGate,
            LoginPhase::LoggingIn => LoginPhaseView::LoggingIn,
            LoginPhase::Trusting { question } => LoginPhaseView::Trusting { question },
            LoginPhase::RoomsGate => LoginPhaseView::RoomsGate,
            LoginPhase::FirstRooms => LoginPhaseView::FirstRooms,
            LoginPhase::ConnectGate { rooms } => LoginPhaseView::ConnectGate {
                rooms: rooms.deep_view(),
            },
            LoginPhase::SyncGate => LoginPhaseView::SyncGate,
            LoginPhase::Syncing => LoginPhaseView::Syncing,
            LoginPhase::NextRooms => LoginPhaseView::NextRooms,
            LoginPhase::ReportGate { rooms } => LoginPhaseView::ReportGate {
                rooms: rooms.deep_view(),
            },
            LoginPhase::Stopped => LoginPhaseView::Stopped,
        }
    }
}

impl DeepView for LoginPhase {
    type V = LoginPhaseView;

    open spec fn deep_view(&self) -> LoginPhaseView {
        self@
    }
}

/// A session from its login to its end.
pub struct LoginFlow {
    /// The sync generation of the session.
    pub generation: u64,
    /// How the session begins.
    pub login: Login,
    /// The server to log in at, once it is known.
    pub server_name: String,
    /// What the session waits for.
    pub phase: LoginPhase,
}

/// The contents of a [`LoginFlow`].
#[verifier::ext_equal]
pub struct LoginFlowView {
    pub generation: u64,
    pub login: LoginView,
    pub server_name: Seq<char>,
    pub phase: LoginPhaseView,
}

impl View for LoginFlow {
    type V = LoginFlowView;

    open spec fn view(&self) -> LoginFlowView {
        LoginFlowView {
            generation: self.generation,
            login: self.login@,
            server_name: self.server_name@,
            phase: self.phase@,
        }
    }
}

impl DeepView for LoginFlow {
    type V = LoginFlowView;

    open spec fn deep_view(&self) -> LoginFlowView {
        self@
    }
}

/// The name that a device of this client gets.
pub open spec fn device_name() -> Seq<char> {
    "Avernus GPUI"@
}

/// What a client says that is built over the store of another account.
pub open spec fn other_account() -> Seq<char> {
    "the account in the store doesn't match"@
}

/// Why a session ends whose device cannot be trusted.
pub open spec fn stale_trust() -> Seq<char> {
    "Matrix device trust state was stale; please log in again to reset the encryption session."@
}

/// What a flow waits for next and the steps to take until then.
#[verifier::ext_equal]
pub struct LoginTurn {
    pub phase: LoginPhaseView,
    pub steps: Seq<CommandView>,
}

/// The end of a flow.
pub open spec fn stopping(reason: StopReason) -> LoginTurn {
    LoginTurn { phase: LoginPhaseView::Stopped, steps: seq![CommandView::Stop { reason }] }
}

/// The end of a flow that could not connect.
pub open spec fn failing(generation: u64, error: Seq<char>) -> LoginTurn {
    LoginTurn {
        phase: LoginPhaseView::Stopped,
        steps: seq![
            CommandView::Emit {
                event: MatrixBridgeEventView::ConnectionFailed { generation, error },
            },
            CommandView::Stop { reason: StopReason::ConnectionFailed },
        ],
    }
}

/// A turn that asks one question.
pub open spec fn asking(phase: LoginPhaseView, step: CommandView) -> LoginTurn {
    LoginTurn { phase, steps: seq![step] }
}

/// The question of the trust check as a step.
pub open spec fn trust_command(question: TrustQuestion) -> CommandView {
    match question {
        TrustQuestion::LoggedIn => CommandView::AskLoggedIn,
        TrustQuestion::Complete => CommandView::AskCrossSigning,
        TrustQuestion::Bootstrapped => CommandView::BootstrapCrossSigning,
    }
}

/// The turn that asks `question` of the trust check.
pub open spec fn trusting(question: TrustQuestion) -> LoginTurn {
    asking(LoginPhaseView::Trusting { question }, trust_command(question))
}

/// What follows a client that is built: the session file is tied to it, and the session is
/// restored, or the login begins.
pub open spec fn built(login: LoginView, session: Option<SavedSessionView>) -> LoginTurn {
    let callbacks = CommandView::SetSessionCallbacks;
    match login {
        LoginView::Restored => match session {
            Some(session) => LoginTurn {
                phase: LoginPhaseView::Restoring,
                steps: seq![callbacks, CommandView::RestoreSession { session }],
            },
            None => stopping(StopReason::NoSession),
        },
        LoginView::Password { .. } => LoginTurn {
            phase: LoginPhaseView::Checking,
            steps: seq![callbacks, CommandView::AskLoggedIn],
        },
        LoginView::Browser => LoginTurn {
            phase: LoginPhaseView::BrowserGate,
            steps: seq![callbacks, CommandView::ReadGeneration],
        },
    }
}

/// What follows a client that could not be built. A login may find the store of another account,
/// and then resets the store once and tries again.
pub open spec fn not_built(flow: LoginFlowView, again: bool, error: Seq<char>) -> LoginTurn {
    if flow.login !is Restored && !again && contains_text(error, other_account()) {
        LoginTurn {
            phase: LoginPhaseView::Building { session: None, again: true },
            steps: seq![
                CommandView::ResetStore,
                CommandView::BuildClient { server_name: flow.server_name },
            ],
        }
    } else {
        failing(flow.generation, error)
    }
}

/// What follows a device that can be trusted.
pub open spec fn trusted(login: LoginView) -> LoginTurn {
    LoginTurn {
        phase: LoginPhaseView::RoomsGate,
        steps: match login {
            LoginView::Restored => seq![
                CommandView::HandleVerificationRequests,
                CommandView::PersistSession,
                CommandView::KeepClient,
                CommandView::ListenForMessages { in_seconds: true },
                CommandView::ReadGeneration,
            ],
            LoginView::Password { .. } => seq![
                CommandView::HandleVerificationRequests,
                CommandView::PersistSession,
                CommandView::ListenForMessages { in_seconds: false },
                CommandView::KeepClient,
                CommandView::ReadGeneration,
            ],
            LoginView::Browser => seq![
                CommandView::PersistSession,
                CommandView::KeepClient,
                CommandView::ListenForMessages { in_seconds: false },
                CommandView::ReadGeneration,
            ],
        },
    }
}

/// What follows a device that cannot be trusted: the login is undone.
pub open spec fn untrusted(generation: u64) -> LoginTurn {
    LoginTurn {
        phase: LoginPhaseView::Stopped,
        steps: seq![
            CommandView::LogOut,
            CommandView::ClearSession,
            CommandView::Emit {
                event: MatrixBridgeEventView::ConnectionFailed { generation, error: stale_trust() },
            },
            CommandView::Stop { reason: StopReason::ConnectionFailed },
        ],
    }
}

/// What follows an answer of the trust check.
pub open spec fn trust_turn(flow: LoginFlowView, question: TrustQuestion, yes: bool) -> LoginTurn {
    match trust_step(question, yes) {
        TrustStep::Ask { question } => trusting(question),
        TrustStep::Trusted => trusted(flow.login),
        TrustStep::Untrusted => untrusted(flow.generation),
    }
}

/// What follows a generation that was read at a gate: a flow of an earlier generation ends.
pub open spec fn gate_turn(flow: LoginFlowView, current: u64) -> LoginTurn {
    let generation = flow.generation;
    if current != generation {
        stopping(StopReason::Superseded)
    } else {
        match flow.phase {
            LoginPhaseView::BrowserGate => asking(
                LoginPhaseView::LoggingIn,
                CommandView::LogInWithBrowser { device_name: device_name() },
            ),
            LoginPhaseView::RoomsGate => asking(
                LoginPhaseView::FirstRooms,
                CommandView::CollectRooms,
            ),
            LoginPhaseView::ConnectGate { rooms } => LoginTurn {
                phase: LoginPhaseView::SyncGate,
                steps: seq![
                    CommandView::Emit {
                        event: MatrixBridgeEventView::SyncRooms { generation, rooms },
                    },
                    CommandView::Emit { event: MatrixBridgeEventView::Connected { generation } },
                    CommandView::ReadGeneration,
                ],
            },
            LoginPhaseView::SyncGate => asking(LoginPhaseView::Syncing, CommandView::SyncOnce),
            LoginPhaseView::ReportGate { rooms } => LoginTurn {
                phase: LoginPhaseView::SyncGate,
                steps: seq![
                    CommandView::Emit {
                        event: MatrixBridgeEventView::SyncRooms { generation, rooms },
                    },
                    CommandView::ReadGeneration,
                ],
            },
            _ => stopping(StopReason::Unexpected),
        }
    }
}

/// The rooms as the sidebar lists them.
pub open spec fn listed_rooms(rooms: Seq<JoinedRoomView>) -> Seq<RoomInfoView> {
    rooms.map_values(|room: JoinedRoomView| listed(room))
}

/// What follows the answer `reply`.
pub open spec fn login_turn(flow: LoginFlowView, reply: ReplyView) -> LoginTurn {
    match (flow.phase, reply) {
        (LoginPhaseView::Loading, ReplyView::Text { text }) => match saved_in(text) {
            None => stopping(StopReason::NoSession),
            Some(session) => asking(
                LoginPhaseView::Building { session: Some(session), again: false },
                CommandView::BuildClient { server_name: after_first(session.user_id, ':') },
            ),
        },
        (LoginPhaseView::Building { session, again }, ReplyView::Outcome { result }) => {
            match result {
                Ok(_) => built(flow.login, session),
                Err(error) => not_built(flow, again, error),
            }
        },
        (LoginPhaseView::Restoring, ReplyView::Outcome { result }) => match result {
            Ok(_) => trusting(TrustQuestion::LoggedIn),
            Err(error) => LoginTurn {
                phase: LoginPhaseView::Stopped,
                steps: seq![CommandView::ClearSession] + failing(
                    flow.generation,
                    "Saved Matrix session is stale or invalid: "@ + error,
                ).steps,
            },
        },
        (LoginPhaseView::Checking, ReplyView::Flag { yes }) => if yes {
            trusting(TrustQuestion::LoggedIn)
        } else {
            match flow.login {
                LoginView::Password { localpart, password } => asking(
                    LoginPhaseView::LoggingIn,
                    CommandView::LogIn { localpart, password, device_name: device_name() },
                ),
                _ => stopping(StopReason::Unexpected),
            }
        },
        (LoginPhaseView::LoggingIn, ReplyView::Outcome { result }) => match result {
            Ok(_) => trusting(TrustQuestion::LoggedIn),
            Err(error) => failing(flow.generation, error),
        },
        (LoginPhaseView::Trusting { question }, ReplyView::Flag { yes }) => trust_turn(
            flow,
            question,
            yes,
        ),
        (LoginPhaseView::FirstRooms, ReplyView::Rooms { rooms }) => asking(
            LoginPhaseView::ConnectGate { rooms: listed_rooms(rooms) },
            CommandView::ReadGeneration,
        ),
        (LoginPhaseView::Syncing, ReplyView::Flag { yes }) => if yes {
            asking(LoginPhaseView::NextRooms, CommandView::CollectRooms)
        } else {
            LoginTurn {
                phase: LoginPhaseView::SyncGate,
                steps: seq![CommandView::Sleep { seconds: 5 }, CommandView::ReadGeneration],
            }
        },
        (LoginPhaseView::NextRooms, ReplyView::Rooms { rooms }) => asking(
            LoginPhaseView::ReportGate { rooms: listed_rooms(rooms) },
            CommandView::ReadGeneration,
        ),
        (_, ReplyView::Generation { current }) => gate_turn(flow, current),
        _ => stopping(StopReason::Unexpected),
    }
}

/// The flow after the answer `reply`.
pub open spec fn login_after(flow: LoginFlowView, reply: ReplyView) -> LoginFlowView {
    LoginFlowView {
        server_name: match (flow.phase, reply) {
            (LoginPhaseView::Loading, ReplyView::Text { text }) => match saved_in(text) {
                None => flow.server_name,
                Some(session) => after_first(session.user_id, ':'),
            },
            _ => flow.server_name,
        },
        phase: login_turn(flow, reply).phase,
        ..flow
    }
}

/// The beginning of a flow.
#[verifier::ext_equal]
pub struct LoginStart {
    pub flow: LoginFlowView,
    pub steps: Seq<CommandView>,
}

/// A flow that begins at the server `server` or fails at once.
pub open spec fn login_at(
    generation: u64,
    login: LoginView,
    server: Result<Seq<char>, Seq<char>>,
) -> LoginStart {
    match server {
        Ok(server_name) => LoginStart {
            flow: LoginFlowView {
                generation,
                login,
                server_name,
                phase: LoginPhaseView::Building { session: None, again: false },
            },
            steps: seq![CommandView::BuildClient { server_name }],
        },
        Err(error) => LoginStart {
            flow: LoginFlowView {
                generation,
                login,
                server_name: Seq::empty(),
                phase: LoginPhaseView::Stopped,
            },
            steps: failing(generation, error).steps,
        },
    }
}

/// The beginning of a session that is restored.
pub open spec fn restore_start(generation: u64) -> LoginStart {
    LoginStart {
        flow: LoginFlowView {
            generation,
            login: LoginView::Restored,
            server_name: Seq::empty(),
            phase: LoginPhaseView::Loading,
        },
        steps: seq![CommandView::ReadSessionFile],
    }
}

/// The beginning of a session with a password.
pub open spec fn password_start(
    generation: u64,
    input: Seq<char>,
    password: Seq<char>,
) -> LoginStart {
    match identity_of(input) {
        Ok(identity) => login_at(
            generation,
            LoginView::Password { localpart: identity.localpart, password },
            Ok(identity.server_name),
        ),
        Err(error) => login_at(
            generation,
            LoginView::Password { localpart: Seq::empty(), password },
            Err(error),
        ),
    }
}

/// The beginning of a session through the browser.
pub open spec fn browser_start(generation: u64, homeserver: Seq<char>) -> LoginStart {
    login_at(generation, LoginView::Browser, sso_server_of(homeserver))
}

fn stop(reason: StopReason) -> (r: Vec<Command>)
    ensures
        r.deep_view() == stopping(reason).steps,
{
    let r = vec![Command::Stop { reason }];
    assert(r.deep_view() =~= stopping(reason).steps);
    r
}

fn fail(generation: u64, error: String) -> (r: Vec<Command>)
    ensures
        r.deep_view() == failing(generation, error@).steps,
{
    let r = vec![
        Command::Emit { event: MatrixBridgeEvent::ConnectionFailed { generation, error } },
        Command::Stop { reason: StopReason::ConnectionFailed },
    ];
    assert(r.deep_view() =~= failing(generation, error@).steps);
    r
}

fn ask(step: Command) -> (r: Vec<Command>)
    ensures
        r.deep_view() == seq![step@],
{
    let r = vec![step];
    assert(r.deep_view() =~= seq![step@]);
    r
}

fn ask_trust(question: TrustQuestion) -> (r: Vec<Command>)
    ensures
        r.deep_view() == trusting(question).steps,
{
    match question {
        TrustQuestion::LoggedIn => ask(Command::AskLoggedIn),
        TrustQuestion::Complete => ask(Command::AskCrossSigning),
        TrustQuestion::Bootstrapped => ask(Command::BootstrapCrossSigning),
    }
}

impl LoginFlow {
    /// A flow that begins at the server `server` or fails at once, and its first steps.
    fn begin(generation: u64, login: Login, server: Result<String, String>) -> (r: (
        LoginFlow,
        Vec<Command>,
    ))
        ensures
            r.0@ == login_at(generation, login@, text_view(server)).flow,
            r.1.deep_view() == login_at(generation, login@, text_view(server)).steps,
    {
        match server {
            Ok(server_name) => {
                let steps = ask(Command::BuildClient { server_name: server_name.clone() });
                let phase = LoginPhase::Building { session: None, again: false };
                (LoginFlow { generation, login, server_name, phase }, steps)
            },
            Err(error) => {
                let steps = fail(generation, error);
                let server_name = String::new();
                (LoginFlow { generation, login, server_name, phase: LoginPhase::Stopped }, steps)
            },
        }
    }

    /// A session that is restored, and its first steps.
    pub fn restore(generation: u64) -> (r: (LoginFlow, Vec<Command>))
        ensures
            r.0@ == restore_start(generation).flow,
            r.1.deep_view() == restore_start(generation).steps,
    {
        let flow = LoginFlow {
            generation,
            login: Login::Restored,
            server_name: String::new(),
            phase: LoginPhase::Loading,
        };
        (flow, ask(Command::ReadSessionFile))
    }

    /// A session with a password, and its first steps.
    pub fn with_password(generation: u64, input: &str, password: String) -> (r: (
        LoginFlow,
        Vec<Command>,
    ))
        ensures
            r.0@ == password_start(generation, input@, password@).flow,
            r.1.deep_view() == password_start(generation, input@, password@).steps,
    {
        match login_identity(input) {
            Ok(identity) => {
                let login = Login::Password { localpart: identity.localpart, password };
                Self::begin(generation, login, Ok(identity.server_name))
            },
            Err(error) => {
                let login = Login::Password { localpart: String::new(), password };
                Self::begin(generation, login, Err(error))
            },
        }
    }

    /// A session through the browser, and its first steps.
    pub fn with_browser(generation: u64, homeserver: &str) -> (r: (LoginFlow, Vec<Command>))
        ensures
            r.0@ == browser_start(generation, homeserver@).flow,
            r.1.deep_view() == browser_start(generation, homeserver@).steps,
    {
        Self::begin(generation, Login::Browser, sso_server_name(homeserver))
    }

    /// The steps that follow a client that is built.
    fn client_built(&mut self, session: Option<SavedSession>) -> (r: Vec<Command>)
        ensures
            final(self)@ == (LoginFlowView {
                phase: built(old(self)@.login, session.deep_view()).phase,
                ..old(self)@
            }),
            r.deep_view() == built(old(self)@.login, session.deep_view()).steps,
    {
        let (phase, steps) = match &self.login {
            Login::Restored => match session {
                Some(session) => (
                    LoginPhase::Restoring,
                    vec![Command::SetSessionCallbacks, Command::RestoreSession { session }],
                ),
                None => (LoginPhase::Stopped, stop(StopReason::NoSession)),
            },
            Login::Password { .. } => (
                LoginPhase::Checking,
                vec![Command::SetSessionCallbacks, Command::AskLoggedIn],
            ),
            Login::Browser => (
                LoginPhase::BrowserGate,
                vec![Command::SetSessionCallbacks, Command::ReadGeneration],
            ),
        };
        self.phase = phase;
        assert(steps.deep_view() =~= built(old(self)@.login, session.deep_view()).steps);
        steps
    }

    /// The steps that follow a client that could not be built.
    fn client_not_built(&mut self, again: bool, error: String) -> (r: Vec<Command>)
        ensures
            final(self)@ == (LoginFlowView {
                phase: not_built(old(self)@, again, error@).phase,
                ..old(self)@
            }),
            r.deep_view() == not_built(old(self)@, again, error@).steps,
    {
        let restored: bool = matches!(self.login, Login::Restored);
        if !restored && !again && contains(
            error.as_str(),
            "the account in the store doesn't match",
        ) {
            self.phase = LoginPhase::Building { session: None, again: true };
            let steps = vec![
                Command::ResetStore,
                Command::BuildClient { server_name: self.server_name.clone() },
            ];
            assert(steps.deep_view() =~= not_built(old(self)@, again, error@).steps);
            steps
        } else {
            self.phase = LoginPhase::Stopped;
            fail(self.generation, error)
        }
    }

    /// The steps that follow an answer of the trust check.
    fn trust_answered(&mut self, question: TrustQuestion, yes: bool) -> (r: Vec<Command>)
        ensures
            final(self)@ == (LoginFlowView {
                phase: trust_turn(old(self)@, question, yes).phase,
                ..old(self)@
            }),
            r.deep_view() == trust_turn(old(self)@, question, yes).steps,
    {
        match MatrixBackend::ensure_cross_signing_bootstrapped(question, yes) {
            TrustStep::Ask { question } => {
                self.phase = LoginPhase::Trusting { question };
                ask_trust(question)
            },
            TrustStep::Trusted => {
                self.phase = LoginPhase::RoomsGate;
                let steps = match &self.login {
                    Login::Restored => vec![
                        Command::HandleVerificationRequests,
                        Command::PersistSession,
                        Command::KeepClient,
                        Command::ListenForMessages { in_seconds: true },
                        Command::ReadGeneration,
                    ],
                    Login::Password { .. } => vec![
                        Command::HandleVerificationRequests,
                        Command::PersistSession,
                        Command::ListenForMessages { in_seconds: false },
                        Command::KeepClient,
                        Command::ReadGeneration,
                    ],
                    Login::Browser => vec![
                        Command::PersistSession,
                        Command::KeepClient,
                        Command::ListenForMessages { in_seconds: false },
                        Command::ReadGeneration,
                    ],
                };
                assert(steps.deep_view() =~= trusted(old(self)@.login).steps);
                steps
            },
            TrustStep::Untrusted => {
                self.phase = LoginPhase::Stopped;
                let error =
                    "Matrix device trust state was stale; please log in again to reset the encryption session.".to_owned();
                let event = MatrixBridgeEvent::ConnectionFailed {
                    generation: self.generation,
                    error,
                };
                let steps = vec![
                    Command::LogOut,
                    Command::ClearSession,
                    Command::Emit { event },
                    Command::Stop { reason: StopReason::ConnectionFailed },
                ];
                assert(steps.deep_view() =~= untrusted(old(self)@.generation).steps);
                steps
            },
        }
    }

    /// The steps that follow a generation that was read while the flow waited for `phase`.
    fn generation_read(&mut self, phase: LoginPhase, current: u64) -> (r: Vec<Command>)
        ensures
            final(self)@ == (LoginFlowView {
                phase: gate_turn(LoginFlowView { phase: phase@, ..old(self)@ }, current).phase,
                ..old(self)@
            }),
            r.deep_view() == gate_turn(
                LoginFlowView { phase: phase@, ..old(self)@ },
                current,
            ).steps,
    {
        let generation: u64 = self.generation;
        let ghost turn = gate_turn(LoginFlowView { phase: phase@, ..self@ }, current);
        if current != generation {
            self.phase = LoginPhase::Stopped;
            return stop(StopReason::Superseded);
        }
        match phase {
            LoginPhase::BrowserGate => {
                self.phase = LoginPhase::LoggingIn;
                ask(Command::LogInWithBrowser { device_name: "Avernus GPUI".to_owned() })
            },
            LoginPhase::RoomsGate => {
                self.phase = LoginPhase::FirstRooms;
                ask(Command::CollectRooms)
            },
            LoginPhase::ConnectGate { rooms } => {
                self.phase = LoginPhase::SyncGate;
                let steps = vec![
                    Command::Emit { event: MatrixBridgeEvent::SyncRooms { generation, rooms } },
                    Command::Emit { event: MatrixBridgeEvent::Connected { generation } },
                    Command::ReadGeneration,
                ];
                assert(steps.deep_view() =~= turn.steps);
                steps
            },
            LoginPhase::SyncGate => {
                self.phase = LoginPhase::Syncing;
                ask(Command::SyncOnce)
            },
            LoginPhase::ReportGate { rooms } => {
                self.phase = LoginPhase::SyncGate;
                let steps = vec![
                    Command::Emit { event: MatrixBridgeEvent::SyncRooms { generation, rooms } },
                    Command::ReadGeneration,
                ];
                assert(steps.deep_view() =~= turn.steps);
                steps
            },
            _ => {
                self.phase = LoginPhase::Stopped;
                stop(StopReason::Unexpected)
            },
        }
    }

    /// Takes the answer to the last step and gives the next steps.
    pub fn step(&mut self, reply: Reply) -> (r: Vec<Command>)
        ensures
            final(self)@ == login_after(old(self)@, reply@),
            r.deep_view() == login_turn(old(self)@, reply@).steps,
    {
        let ghost flow = self@;
        let ghost turn = login_turn(flow, reply@);
        let mut phase = LoginPhase::Stopped;
        std::mem::swap(&mut phase, &mut self.phase);
        match (phase, reply) {
            (LoginPhase::Loading, Reply::Text { text }) => match MatrixBackend::load_session(text) {
                None => stop(StopReason::NoSession),
                Some(session) => {
                    let server_name = after_first_char(session.user_id.as_str(), ':').to_owned();
                    self.server_name = server_name.clone();
                    self.phase = LoginPhase::Building { session: Some(session), again: false };
                    ask(Command::BuildClient { server_name })
                },
            },
            (LoginPhase::Building { session, again }, Reply::Outcome { result }) => match result {
                Ok(_) => self.client_built(session),
                Err(error) => self.client_not_built(again, error),
            },
            (LoginPhase::Restoring, Reply::Outcome { result }) => match result {
                Ok(_) => {
                    self.phase = LoginPhase::Trusting { question: TrustQuestion::LoggedIn };
                    ask_trust(TrustQuestion::LoggedIn)
                },
                Err(error) => {
                    let error = joined(
                        "Saved Matrix session is stale or invalid: ",
                        error.as_str(),
                    );
                    let event = MatrixBridgeEvent::ConnectionFailed {
                        generation: self.generation,
                        error,
                    };
                    let steps = vec![
                        Command::ClearSession,
                        Command::Emit { event },
                        Command::Stop { reason: StopReason::ConnectionFailed },
                    ];
                    assert(steps.deep_view() =~= turn.steps);
                    steps
                },
            },
            (LoginPhase::Checking, Reply::Flag { yes }) => if yes {
                self.phase = LoginPhase::Trusting { question: TrustQuestion::LoggedIn };
                ask_trust(TrustQuestion::LoggedIn)
            } else {
                match &self.login {
                    Login::Password { localpart, password } => {
                        let step = Command::LogIn {
                            localpart: localpart.clone(),
                            password: password.clone(),
                            device_name: "Avernus GPUI".to_owned(),
                        };
                        self.phase = LoginPhase::LoggingIn;
                        ask(step)
                    },
                    _ => stop(StopReason::Unexpected),
                }
            },
            (LoginPhase::LoggingIn, Reply::Outcome { result }) => match result {
                Ok(_) => {
                    self.phase = LoginPhase::Trusting { question: TrustQuestion::LoggedIn };
                    ask_trust(TrustQuestion::LoggedIn)
                },
                Err(error) => fail(self.generation, error),
            },
            (LoginPhase::Trusting { question }, Reply::Flag { yes }) => {
                self.trust_answered(question, yes)
            },
            (LoginPhase::FirstRooms, Reply::Rooms { rooms }) => {
                self.phase = LoginPhase::ConnectGate {
                    rooms: MatrixBackend::collect_joined_rooms(rooms),
                };
                ask(Command::ReadGeneration)
            },
            (LoginPhase::Syncing, Reply::Flag { yes }) => if yes {
                self.phase = LoginPhase::NextRooms;
                ask(Command::CollectRooms)
            } else {
                self.phase = LoginPhase::SyncGate;
                let steps = vec![Command::Sleep { seconds: 5 }, Command::ReadGeneration];
                assert(steps.deep_view() =~= turn.steps);
                steps
            },
            (LoginPhase::NextRooms, Reply::Rooms { rooms }) => {
                self.phase = LoginPhase::ReportGate {
                    rooms: MatrixBackend::collect_joined_rooms(rooms),
                };
                ask(Command::ReadGeneration)
            },
            (phase, Reply::Generation { current }) => self.generation_read(phase, current),
            _ => stop(StopReason::Unexpected),
        }
    }
}

} // verus!

