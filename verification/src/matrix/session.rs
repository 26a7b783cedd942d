//! The saved session: its text, its file, and the store directory around it.

use super::client::MatrixBackend;
use super::identifiers::user_id_fault;
use super::types::text_view;
use matrix_sdk::authentication::matrix::MatrixSession;
use matrix_sdk::ruma::{OwnedDeviceId, UserId};
use matrix_sdk::{SessionMeta, SessionTokens};
use vstd::prelude::*;

verus! {

/// A login that outlives the program.
pub struct SavedSession {
    pub user_id: String,
    pub device_id: String,
    pub access_token: String,
    pub refresh_token: Option<String>,
}

/// The contents of a [`SavedSession`].
#[verifier::ext_equal]
pub struct SavedSessionView {
    pub user_id: Seq<char>,
    pub device_id: Seq<char>,
    pub access_token: Seq<char>,
    pub refresh_token: Option<Seq<char>>,
}

impl View for SavedSession {
    type V = SavedSessionView;

    open spec fn view(&self) -> SavedSessionView {
        SavedSessionView {
            user_id: self.user_id@,
            device_id: self.device_id@,
            access_token: self.access_token@,
            refresh_token: self.refresh_token.deep_view(),
        }
    }
}

impl DeepView for SavedSession {
    type V = SavedSessionView;

    open spec fn deep_view(&self) -> SavedSessionView {
        self@
    }
}

impl Clone for SavedSession {
    fn clone(&self) -> (r: Self)
        ensures
            r@ == self@,
    {
        SavedSession {
            user_id: self.user_id.clone(),
            device_id: self.device_id.clone(),
            access_token: self.access_token.clone(),
            refresh_token: self.refresh_token.clone(),
        }
    }
}

/// The contents of a session or of the message why there is none.
pub open spec fn session_view(r: Result<SavedSession, String>) -> Result<
    SavedSessionView,
    Seq<char>,
> {
    match r {
        Ok(session) => Ok(session@),
        Err(error) => Err(error@),
    }
}

/// The session that the JSON text `text` holds, or the message why it holds none.
pub uninterp spec fn session_of_json(text: Seq<char>) -> Result<SavedSessionView, Seq<char>>;

/// The JSON text of a session.
pub uninterp spec fn json_of_session(session: SavedSessionView) -> Seq<char>;

/// Whether reading the text `text` gives the session `session`.
pub open spec fn holds_session(text: Seq<char>, session: SavedSessionView) -> bool {
    session_of_json(text) matches Ok(read) && read == session
}

/// What writing `session` gives where `json` is its text: a session needs a valid user id.
pub open spec fn encoded(session: SavedSessionView, json: Seq<char>) -> Result<
    Seq<char>,
    Seq<char>,
> {
    match user_id_fault(session.user_id) {
        None => Ok(json),
        Some(fault) => Err(fault.text()),
    }
}

/// Reads a session with `serde_json::from_str` as a `MatrixSession`. What it reads is named
/// [`session_of_json`]; the user id of a session that it reads is valid.
#[verifier::external_body]
fn decode_session(text: &str) -> (r: Result<SavedSession, String>)
    ensures
        session_view(r) == session_of_json(text@),
        session_view(r) is Ok ==> user_id_fault((session_view(r)->Ok_0).user_id) is None,
{
    match serde_json::from_str::<MatrixSession>(text) {
        Ok(session) => Ok(SavedSession {
            user_id: session.meta.user_id.to_string(),
            device_id: session.meta.device_id.to_string(),
            access_token: session.tokens.access_token,
            refresh_token: session.tokens.refresh_token,
        }),
        Err(error) => Err(error.to_string()),
    }
}

/// Writes a session as a `MatrixSession` with `serde_json::to_string_pretty`. The text is named
/// [`json_of_session`], and reading it gives the session back. A session whose user id is invalid
/// is no `MatrixSession`.
#[verifier::external_body]
fn encode_session(session: &SavedSession) -> (r: Result<String, String>)
    ensures
        text_view(r) == encoded(session@, json_of_session(session@)),
        text_view(r) is Ok ==> holds_session(text_view(r)->Ok_0, session@),
{
    let user_id = UserId::parse(session.user_id.as_str()).map_err(|error| error.to_string())?;
    let device_id = OwnedDeviceId::from(session.device_id.as_str());
    let tokens = SessionTokens {
        access_token: session.access_token.clone(),
        refresh_token: session.refresh_token.clone(),
    };
    let session = MatrixSession { meta: SessionMeta { user_id, device_id }, tokens };
    serde_json::to_string_pretty(&session).map_err(|error| error.to_string())
}

/// The directory that holds the session file and the encryption store.
pub open spec fn store_path() -> Seq<char> {
    "./avernus_matrix_store"@
}

/// The file that holds the session.
pub open spec fn session_path() -> Seq<char> {
    store_path() + "/session.json"@
}

/// What persisting `session` writes, or why it writes nothing.
pub open spec fn persisted(session: Option<SavedSessionView>) -> Result<Seq<char>, Seq<char>> {
    match session {
        None => Err("No active Matrix session to persist"@),
        Some(session) => encoded(session, json_of_session(session)),
    }
}

/// The session that the session file holds, where `file` is its text, if it can be read.
pub open spec fn saved_in(file: Option<Seq<char>>) -> Option<SavedSessionView> {
    match file {
        None => None,
        Some(text) => match session_of_json(text) {
            Ok(session) => Some(session),
            Err(_) => None,
        },
    }
}

/// One step of clearing the store.
pub enum StoreStep {
    /// Removes a directory and all that is under it.
    RemoveDir { path: String },
    /// Removes a file.
    RemoveFile { path: String },
    /// Makes a directory.
    CreateDir { path: String },
}

/// The contents of a [`StoreStep`].
#[verifier::ext_equal]
pub enum StoreStepView {
    RemoveDir { path: Seq<char> },
    RemoveFile { path: Seq<char> },
    CreateDir { path: Seq<char> },
}

impl View for StoreStep {
    type V = StoreStepView;

    open spec fn view(&self) -> StoreStepView {
        match *self {
            StoreStep::RemoveDir { path } => StoreStepView::RemoveDir { path: path@ },
            StoreStep::RemoveFile { path } => StoreStepView::RemoveFile { path: path@ },
            StoreStep::CreateDir { path } => StoreStepView::CreateDir { path: path@ },
        }
    }
}

impl DeepView for StoreStep {
    type V = StoreStepView;

    open spec fn deep_view(&self) -> StoreStepView {
        self@
    }
}

/// Whether `path` is the directory `dir` or lies under it.
pub open spec fn is_under(path: Seq<char>, dir: Seq<char>) -> bool {
    path == dir || (dir + "/"@).is_prefix_of(path)
}

/// The paths that exist after a step, of those that existed before it.
pub open spec fn after_step(paths: Set<Seq<char>>, step: StoreStepView) -> Set<Seq<char>> {
    match step {
        StoreStepView::RemoveDir { path } => paths.filter(|p: Seq<char>| !is_under(p, path)),
        StoreStepView::RemoveFile { path } => paths.remove(path),
        StoreStepView::CreateDir { path } => paths.insert(path),
    }
}

/// The paths that exist after some steps.
pub open spec fn after_steps(paths: Set<Seq<char>>, steps: Seq<StoreStepView>) -> Set<Seq<char>>
    decreases steps.len(),
{
    if steps.len() == 0 {
        paths
    } else {
        after_step(after_steps(paths, steps.drop_last()), steps.last())
    }
}

/// The steps that forget the session, where `exists` says whether the store is there.
pub open spec fn clearing_steps(exists: bool) -> Seq<StoreStepView> {
    let rest = seq![
        StoreStepView::RemoveFile { path: session_path() },
        StoreStepView::CreateDir { path: store_path() },
    ];
    if exists {
        seq![StoreStepView::RemoveDir { path: store_path() }] + rest
    } else {
        rest
    }
}

/// The steps that make the store at `path` ready for another account, where `exists` says whether
/// it is there.
pub open spec fn resetting_steps(path: Seq<char>, exists: bool) -> Seq<StoreStepView> {
    let rest = seq![
        StoreStepView::CreateDir { path },
        StoreStepView::RemoveFile { path: session_path() },
    ];
    if exists {
        seq![StoreStepView::RemoveDir { path }] + rest
    } else {
        rest
    }
}

/// One step of ending a session.
pub enum EndStep {
    /// A step of clearing the store.
    Store { step: StoreStep },
    /// Lets go of the client, so that none is set.
    DropClient,
}

/// The contents of an [`EndStep`].
#[verifier::ext_equal]
pub enum EndStepView {
    Store { step: StoreStepView },
    DropClient,
}

impl View for EndStep {
    type V = EndStepView;

    open spec fn view(&self) -> EndStepView {
        match *self {
            EndStep::Store { step } => EndStepView::Store { step: step@ },
            EndStep::DropClient => EndStepView::DropClient,
        }
    }
}

impl DeepView for EndStep {
    type V = EndStepView;

    open spec fn deep_view(&self) -> EndStepView {
        self@
    }
}

/// The steps that end a session, where `exists` says whether the store is there: the saved session
/// is forgotten, then the client is let go of.
pub open spec fn end_steps(exists: bool) -> Seq<EndStepView> {
    clearing_steps(exists).map_values(|step: StoreStepView| EndStepView::Store { step }).push(
        EndStepView::DropClient,
    )
}

/// What a session has outside the client's own state.
#[verifier::ext_equal]
pub struct Surroundings {
    /// Whether a client is set.
    pub has_client: bool,
    /// The paths that exist.
    pub paths: Set<Seq<char>>,
}

/// The surroundings after a step of ending a session.
pub open spec fn after_end_step(around: Surroundings, step: EndStepView) -> Surroundings {
    match step {
        EndStepView::Store { step } => Surroundings {
            paths: after_step(around.paths, step),
            ..around
        },
        EndStepView::DropClient => Surroundings { has_client: false, ..around },
    }
}

/// The surroundings after some steps of ending a session.
pub open spec fn after_end_steps(around: Surroundings, steps: Seq<EndStepView>) -> Surroundings
    decreases steps.len(),
{
    if steps.len() == 0 {
        around
    } else {
        after_end_step(after_end_steps(around, steps.drop_last()), steps.last())
    }
}

/// The tokens of a saved session.
pub struct SavedTokens {
    pub access_token: String,
    pub refresh_token: Option<String>,
}

impl MatrixBackend {
    /// The directory that holds the session file and the encryption store.
    pub fn store_dir_path() -> (r: String)
        ensures
            r@ == store_path(),
    {
        "./avernus_matrix_store".to_owned()
    }

    /// The file that holds the session.
    pub fn session_file_path() -> (r: String)
        ensures
            r@ == session_path(),
    {
        Self::store_dir_path().concat("/session.json")
    }

    /// The steps that forget the session, where `exists` says whether the store is there.
    pub fn clear_session_state(exists: bool) -> (r: Vec<StoreStep>)
        ensures
            r.deep_view() == clearing_steps(exists),
    {
        let mut steps: Vec<StoreStep> = Vec::new();
        if exists {
            steps.push(StoreStep::RemoveDir { path: Self::store_dir_path() });
        }
        steps.push(StoreStep::RemoveFile { path: Self::session_file_path() });
        steps.push(StoreStep::CreateDir { path: Self::store_dir_path() });
        assert(steps.deep_view() =~= clearing_steps(exists));
        steps
    }

    /// The steps that end a session, where `exists` says whether the store is there.
    pub fn end_session_state(exists: bool) -> (r: Vec<EndStep>)
        ensures
            r.deep_view() == end_steps(exists),
    {
        let store = Self::clear_session_state(exists);
        let ghost wanted = end_steps(exists);
        let mut steps: Vec<EndStep> = Vec::new();
        for step in it: store
            invariant
                it.seq() == store@,
                store.deep_view() == clearing_steps(exists),
                wanted == end_steps(exists),
                steps.deep_view() == wanted.take(it.index() as int),
        {
            let ghost n = it.index() as int;
            let ghost before = steps.deep_view();
            assert(clearing_steps(exists)[n] == step@);
            let end = EndStep::Store { step };
            assert(wanted[n] == end@);
            steps.push(end);
            assert(steps.deep_view() =~= before.push(end@));
            assert(wanted.take(n + 1) =~= wanted.take(n).push(wanted[n]));
        }
        let ghost before = steps.deep_view();
        steps.push(EndStep::DropClient);
        assert(steps.deep_view() =~= before.push(EndStepView::DropClient));
        assert(steps.deep_view() =~= wanted);
        steps
    }

    /// The steps that make the store at `path` ready for another account, where `exists` says
    /// whether it is there.
    pub fn reset_store_for_account(path: &str, exists: bool) -> (r: Vec<StoreStep>)
        ensures
            r.deep_view() == resetting_steps(path@, exists),
    {
        let mut steps: Vec<StoreStep> = Vec::new();
        if exists {
            steps.push(StoreStep::RemoveDir { path: path.to_owned() });
        }
        steps.push(StoreStep::CreateDir { path: path.to_owned() });
        steps.push(StoreStep::RemoveFile { path: Self::session_file_path() });
        assert(steps.deep_view() =~= resetting_steps(path@, exists));
        steps
    }

    /// The text to write to the session file for `session`, or why there is none. Loading that text
    /// gives the session back.
    pub fn persist_session(session: Option<SavedSession>) -> (r: Result<String, String>)
        ensures
            text_view(r) == persisted(session.deep_view()),
            r matches Ok(text) ==> holds_session(text@, session->0@),
    {
        match session {
            None => Err("No active Matrix session to persist".to_owned()),
            Some(session) => encode_session(&session),
        }
    }

    /// The session that the session file holds, where `file` is its text, if it can be read.
    pub fn load_session(file: Option<String>) -> (r: Option<SavedSession>)
        ensures
            r.deep_view() == saved_in(file.deep_view()),
            r matches Some(session) ==> user_id_fault(session@.user_id) is None,
    {
        match file {
            None => None,
            Some(text) => match decode_session(text.as_str()) {
                Ok(session) => Some(session),
                Err(_) => None,
            },
        }
    }

    /// The tokens that the text of the session file holds, or why it holds none.
    pub fn reload_tokens(text: &str) -> (r: Result<SavedTokens, String>)
        ensures
            match (r, session_of_json(text@)) {
                (Ok(tokens), Ok(session)) => tokens.access_token@ == session.access_token
                    && tokens.refresh_token.deep_view() == session.refresh_token,
                (Err(error), Err(fault)) => error@ == fault,
                _ => false,
            },
    {
        match decode_session(text) {
            Ok(session) => Ok(
                SavedTokens {
                    access_token: session.access_token,
                    refresh_token: session.refresh_token,
                },
            ),
            Err(error) => Err(error),
        }
    }
}

/// The session file lies in the store directory.
proof fn lemma_session_under_store()
    ensures
        is_under(session_path(), store_path()),
        session_path() != store_path(),
{
    reveal_strlit("/");
    reveal_strlit("/session.json");
    let dir = store_path();
    let file = session_path();
    assert(dir + "/"@ =~= file.subrange(0, dir.len() as int + 1));
    assert(file.len() > dir.len());
}

/// Clearing the session leaves an empty store: the directory is there, nothing is under it, and no
/// other path has changed.
pub proof fn lemma_clearing_leaves_an_empty_store(paths: Set<Seq<char>>, exists: bool)
    requires
        exists == paths.contains(store_path()),
        forall|p: Seq<char>| #[trigger]
            paths.contains(p) && is_under(p, store_path()) ==> paths.contains(store_path()),
    ensures
        ({
            let after = after_steps(paths, clearing_steps(exists));
            &&& after.contains(store_path())
            &&& forall|p: Seq<char>| #[trigger]
                after.contains(p) && is_under(p, store_path()) ==> p == store_path()
            &&& forall|p: Seq<char>|
                !is_under(p, store_path()) ==> (#[trigger] after.contains(p) == paths.contains(p))
        }),
{
    lemma_session_under_store();
    let dir = store_path();
    let steps = clearing_steps(exists);
    reveal_with_fuel(after_steps, 4);
    assert(steps.drop_last().drop_last() =~= if exists {
        seq![StoreStepView::RemoveDir { path: dir }]
    } else {
        Seq::empty()
    });
    if exists {
        assert(steps.drop_last().drop_last().drop_last() =~= Seq::<StoreStepView>::empty());
    }
}

proof fn lemma_end_steps_take_the_store_steps(around: Surroundings, steps: Seq<StoreStepView>)
    ensures
        after_end_steps(
            around,
            steps.map_values(|step: StoreStepView| EndStepView::Store { step }),
        ) == (Surroundings { paths: after_steps(around.paths, steps), ..around }),
    decreases steps.len(),
{
    let ends = steps.map_values(|step: StoreStepView| EndStepView::Store { step });
    if steps.len() > 0 {
        lemma_end_steps_take_the_store_steps(around, steps.drop_last());
        assert(ends.drop_last() =~= steps.drop_last().map_values(
            |step: StoreStepView| EndStepView::Store { step },
        ));
    }
}

/// After a session ended no client is set, the session file is gone, the store is empty, and no
/// path outside the store has changed. Ending it again changes nothing.
pub proof fn lemma_ended_session(around: Surroundings, exists: bool)
    requires
        exists == around.paths.contains(store_path()),
        forall|p: Seq<char>| #[trigger]
            around.paths.contains(p) && is_under(p, store_path()) ==> around.paths.contains(
                store_path(),
            ),
    ensures
        ({
            let after = after_end_steps(around, end_steps(exists));
            &&& !after.has_client
            &&& after.paths == after_steps(around.paths, clearing_steps(exists))
            &&& after.paths.contains(store_path())
            &&& !after.paths.contains(session_path())
            &&& forall|p: Seq<char>| #[trigger]
                after.paths.contains(p) && is_under(p, store_path()) ==> p == store_path()
            &&& forall|p: Seq<char>|
                !is_under(p, store_path()) ==> (#[trigger] after.paths.contains(p)
                    == around.paths.contains(p))
            &&& after_end_steps(after, end_steps(true)) == after
        }),
{
    lemma_session_under_store();
    let dir = store_path();
    let after = after_end_steps(around, end_steps(exists));
    lemma_end(around, exists);
    lemma_clearing_leaves_an_empty_store(around.paths, exists);
    lemma_end(after, true);
    lemma_clearing_leaves_an_empty_store(after.paths, true);
    let again = after_end_steps(after, end_steps(true));
    assert forall|p: Seq<char>| again.paths.contains(p) == after.paths.contains(p) by {
        if is_under(p, dir) && p != dir {
            assert(!after.paths.contains(p));
            assert(!again.paths.contains(p));
        }
    }
    assert(again.paths =~= after.paths);
}

proof fn lemma_end(around: Surroundings, exists: bool)
    ensures
        after_end_steps(around, end_steps(exists)) == (Surroundings {
            has_client: false,
            paths: after_steps(around.paths, clearing_steps(exists)),
        }),
{
    let store = clearing_steps(exists).map_values(
        |step: StoreStepView| EndStepView::Store { step },
    );
    lemma_end_steps_take_the_store_steps(around, clearing_steps(exists));
    assert(end_steps(exists).drop_last() =~= store);
}

/// Making the store ready for another account leaves an empty store as clearing the session does.
pub proof fn lemma_resetting_is_clearing(paths: Set<Seq<char>>, exists: bool)
    requires
        exists == paths.contains(store_path()),
    ensures
        after_steps(paths, resetting_steps(store_path(), exists)) == after_steps(
            paths,
            clearing_steps(exists),
        ),
{
    reveal_strlit("/session.json");
    let dir = store_path();
    assert(session_path() != dir);
    let a = resetting_steps(dir, exists);
    let b = clearing_steps(exists);
    reveal_with_fuel(after_steps, 4);
    let first: Seq<StoreStepView> = if exists {
        seq![StoreStepView::RemoveDir { path: dir }]
    } else {
        Seq::empty()
    };
    assert(a.drop_last().drop_last() =~= first);
    assert(b.drop_last().drop_last() =~= first);
    assert(after_steps(paths, a) =~= after_steps(paths, b));
}

} // verus!
