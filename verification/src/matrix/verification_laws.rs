//! What the trust check and a watched comparison of emoji come to.

use super::client::MatrixBackend;
use super::types::{MatrixBridgeEvent, VerificationEmoji};
use super::verification::{SasState, SasTurn, TrustQuestion, TrustStep};
use vstd::prelude::*;

verus! {

/// A device is trusted that has nothing to set up, has it set up, or could set it up. Only one that
/// could not is not trusted, and each question leads to the next where it leaves that open.
pub proof fn lemma_trust_by_answers(question: TrustQuestion, yes: bool, r: TrustStep)
    requires
        call_ensures(MatrixBackend::ensure_cross_signing_bootstrapped, (question, yes), r),
    ensures
        r is Untrusted <==> question is Bootstrapped && !yes,
        r is Trusted <==> (question is LoggedIn && !yes) || (question is Complete && yes) || (
        question is Bootstrapped && yes),
        question is LoggedIn && yes ==> r == (TrustStep::Ask {
            question: TrustQuestion::Complete,
        }),
        question is Complete && !yes ==> r == (TrustStep::Ask {
            question: TrustQuestion::Bootstrapped,
        }),
{
}

/// The emoji of a verification become a challenge with its own ids and just these emoji; without
/// emoji there is none.
pub proof fn lemma_emoji_become_a_challenge(
    generation: u64,
    user_id: &str,
    flow_id: &str,
    emojis: Option<Vec<VerificationEmoji>>,
    r: Option<MatrixBridgeEvent>,
)
    requires
        call_ensures(
            MatrixBackend::emit_sas_challenge,
            (generation, user_id, flow_id, emojis),
            r,
        ),
    ensures
        r is Some <==> emojis is Some,
        r matches Some(event) ==> (event matches MatrixBridgeEvent::VerificationChallenge {
            generation: g,
            user_id: u,
            flow_id: f,
            emojis: shown,
        } && g == generation && u@ == user_id@ && f@ == flow_id@ && shown.deep_view()
            == emojis->0.deep_view()),
{
}

/// A watch reports the emoji once they are known and is over then. It is over without a report
/// where the comparison is given up or done, unless it began so, and goes on otherwise.
pub proof fn lemma_watch(
    generation: u64,
    user_id: &str,
    flow_id: &str,
    first: bool,
    state: SasState,
    r: SasTurn,
)
    requires
        call_ensures(
            MatrixBackend::wait_for_sas_challenge,
            (generation, user_id, flow_id, first, state),
            r,
        ),
    ensures
        r.event is Some <==> (state matches SasState::KeysExchanged { emojis } && emojis is Some),
        r.event matches Some(event) ==> (event matches MatrixBridgeEvent::VerificationChallenge {
            generation: g,
            user_id: u,
            flow_id: f,
            emojis: shown,
        } && g == generation && u@ == user_id@ && f@ == flow_id@ && (state matches
            SasState::KeysExchanged { emojis } && shown.deep_view() == emojis->0.deep_view())),
        state is KeysExchanged ==> r.over,
        state is Cancelled || state is Done ==> r.over == !first,
        state is Other ==> !r.over,
{
}

} // verus!
