//! What becomes of the saved session and of the store around it.

use super::client::MatrixBackend;
use super::identifiers::user_id_fault;
use super::session::{EndStep, SavedSession, SavedTokens, StoreStep};
use vstd::prelude::*;

verus! {

/// What is saved is loaded again: the account, the device and the tokens. A session with a valid
/// user id can be saved.
pub proof fn lemma_saved_session_comes_back(
    session: SavedSession,
    saved: Result<String, String>,
    loaded: Option<SavedSession>,
    tokens: Result<SavedTokens, String>,
    text: &str,
)
    requires
        call_ensures(MatrixBackend::persist_session, (Some(session),), saved),
        user_id_fault(session.user_id@) is None,
        saved is Ok ==> call_ensures(MatrixBackend::load_session, (Some(saved->Ok_0),), loaded),
        saved is Ok ==> text@ == saved->Ok_0@,
        call_ensures(MatrixBackend::reload_tokens, (text,), tokens),
    ensures
        saved is Ok,
        loaded matches Some(back) && back.user_id@ == session.user_id@ && back.device_id@
            == session.device_id@ && back.access_token@ == session.access_token@
            && back.refresh_token.deep_view() == session.refresh_token.deep_view(),
        tokens matches Ok(t) && t.access_token@ == session.access_token@
            && t.refresh_token.deep_view() == session.refresh_token.deep_view(),
{
}

/// Without a session nothing is saved, and without a file nothing is loaded.
pub proof fn lemma_nothing_to_save_or_load(
    saved: Result<String, String>,
    loaded: Option<SavedSession>,
)
    requires
        call_ensures(MatrixBackend::persist_session, (None::<SavedSession>,), saved),
        call_ensures(MatrixBackend::load_session, (None::<String>,), loaded),
    ensures
        saved matches Err(error) && error@ == "No active Matrix session to persist"@,
        loaded is None,
{
}

/// The session file is `session.json` in the store.
pub proof fn lemma_where_the_session_is(dir: String, file: String)
    requires
        call_ensures(MatrixBackend::store_dir_path, (), dir),
        call_ensures(MatrixBackend::session_file_path, (), file),
    ensures
        dir@ == "./avernus_matrix_store"@,
        file@ == dir@ + "/session.json"@,
{
}

/// To forget the session is to remove the store, where it is there, and the session file, and then
/// to make the store anew; to end the session is that and to let go of the client; to make a store
/// ready for another account is the same for its directory.
pub proof fn lemma_steps_of_forgetting(
    exists: bool,
    path: &str,
    file: String,
    dir: String,
    cleared: Vec<StoreStep>,
    ended: Vec<EndStep>,
    reset: Vec<StoreStep>,
)
    requires
        call_ensures(MatrixBackend::store_dir_path, (), dir),
        call_ensures(MatrixBackend::session_file_path, (), file),
        call_ensures(MatrixBackend::clear_session_state, (exists,), cleared),
        call_ensures(MatrixBackend::end_session_state, (exists,), ended),
        call_ensures(MatrixBackend::reset_store_for_account, (path, exists), reset),
    ensures
        exists ==> cleared.len() == 3 && removes_dir(cleared@[0], dir@) && removes_file(
            cleared@[1],
            file@,
        ) && makes_dir(cleared@[2], dir@),
        !exists ==> cleared.len() == 2 && removes_file(cleared@[0], file@) && makes_dir(
            cleared@[1],
            dir@,
        ),
        exists ==> reset.len() == 3 && removes_dir(reset@[0], path@) && makes_dir(reset@[1], path@)
            && removes_file(reset@[2], file@),
        !exists ==> reset.len() == 2 && makes_dir(reset@[0], path@) && removes_file(
            reset@[1],
            file@,
        ),
        ended.len() == cleared.len() + 1,
        ended@[ended.len() - 1] is DropClient,
        forall|i: int|
            0 <= i < cleared.len() ==> (#[trigger] ended@[i] matches EndStep::Store { step }
                && step@ == cleared@[i]@),
{
    assert(cleared.deep_view().len() == cleared@.len());
    assert(reset.deep_view().len() == reset@.len());
    assert(ended.deep_view().len() == ended@.len());
    assert forall|i: int| 0 <= i < cleared@.len() implies cleared.deep_view()[i]
        == #[trigger] cleared@[i]@ by {}
    assert forall|i: int| 0 <= i < reset@.len() implies reset.deep_view()[i]
        == #[trigger] reset@[i]@ by {}
    assert forall|i: int| 0 <= i < ended@.len() implies ended.deep_view()[i]
        == #[trigger] ended@[i]@ by {}
    assert(cleared@[0]@ == cleared.deep_view()[0]);
    assert(cleared@[1]@ == cleared.deep_view()[1]);
    assert(reset@[0]@ == reset.deep_view()[0]);
    assert(reset@[1]@ == reset.deep_view()[1]);
    if exists {
        assert(cleared@[2]@ == cleared.deep_view()[2]);
        assert(reset@[2]@ == reset.deep_view()[2]);
    }
    assert(ended@[ended.len() - 1]@ == ended.deep_view()[ended.len() - 1]);
    assert forall|i: int| 0 <= i < cleared.len() implies (#[trigger] ended@[i] matches
        EndStep::Store { step } && step@ == cleared@[i]@) by {
        assert(ended@[i]@ == ended.deep_view()[i]);
        assert(cleared@[i]@ == cleared.deep_view()[i]);
    }
}

/// Whether a step removes the directory `dir`.
pub open spec fn removes_dir(step: StoreStep, dir: Seq<char>) -> bool {
    step matches StoreStep::RemoveDir { path } && path@ == dir
}

/// Whether a step removes the file `file`.
pub open spec fn removes_file(step: StoreStep, file: Seq<char>) -> bool {
    step matches StoreStep::RemoveFile { path } && path@ == file
}

/// Whether a step makes the directory `dir`.
pub open spec fn makes_dir(step: StoreStep, dir: Seq<char>) -> bool {
    step matches StoreStep::CreateDir { path } && path@ == dir
}

} // verus!
