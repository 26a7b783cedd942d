//! Device verification: cross-signing and the comparison of emoji.

use super::client::MatrixBackend;
use super::types::{
    MatrixBridgeEvent, MatrixBridgeEventView, VerificationEmoji, VerificationEmojiView,
};
use vstd::prelude::*;

verus! {

/// A question that decides whether the device of a session can be trusted.
#[derive(Clone, Copy, Debug, PartialEq, Eq, Structural)]
pub enum TrustQuestion {
    /// Is the client logged in?
    LoggedIn,
    /// Is cross-signing set up completely?
    Complete,
    /// Could cross-signing be set up?
    Bootstrapped,
}

/// What the answer to a [`TrustQuestion`] comes to.
#[derive(Clone, Copy, Debug, PartialEq, Eq, Structural)]
pub enum TrustStep {
    /// Another question is open.
    Ask { question: TrustQuestion },
    /// The session can go on.
    Trusted,
    /// The session has to end.
    Untrusted,
}

/// What the answer `yes` to `question` comes to. A client that is not logged in has nothing to set
/// up.
pub open spec fn trust_step(question: TrustQuestion, yes: bool) -> TrustStep {
    match question {
        TrustQuestion::LoggedIn => if yes {
            TrustStep::Ask { question: TrustQuestion::Complete }
        } else {
            TrustStep::Trusted
        },
        TrustQuestion::Complete => if yes {
            TrustStep::Trusted
        } else {
            TrustStep::Ask { question: TrustQuestion::Bootstrapped }
        },
        TrustQuestion::Bootstrapped => if yes {
            TrustStep::Trusted
        } else {
            TrustStep::Untrusted
        },
    }
}

/// What the questions come to from `question` on, where `answers` answers each.
pub open spec fn trust_verdict(
    question: TrustQuestion,
    answers: spec_fn(TrustQuestion) -> bool,
) -> TrustStep
    decreases trust_rank(question),
{
    match trust_step(question, answers(question)) {
        TrustStep::Ask { question: next } => if trust_rank(next) < trust_rank(question) {
            trust_verdict(next, answers)
        } else {
            TrustStep::Ask { question: next }
        },
        verdict => verdict,
    }
}

/// How many questions can be open from `question` on.
pub open spec fn trust_rank(question: TrustQuestion) -> nat {
    match question {
        TrustQuestion::LoggedIn => 3,
        TrustQuestion::Complete => 2,
        TrustQuestion::Bootstrapped => 1,
    }
}

/// The questions come to an end. The session has to end if and only if the client is logged in,
/// cross-signing is not set up completely, and cannot be set up.
pub proof fn lemma_trust_verdict(answers: spec_fn(TrustQuestion) -> bool)
    ensures
        trust_verdict(TrustQuestion::LoggedIn, answers) == if answers(TrustQuestion::LoggedIn)
            && !answers(TrustQuestion::Complete) && !answers(TrustQuestion::Bootstrapped) {
            TrustStep::Untrusted
        } else {
            TrustStep::Trusted
        },
{
    reveal_with_fuel(trust_verdict, 4);
}

/// How a comparison of emoji stands.
pub enum SasState {
    /// Both sides know the emoji, if they can show them.
    KeysExchanged { emojis: Option<Vec<VerificationEmoji>> },
    /// One side gave up.
    Cancelled,
    /// The comparison is over.
    Done,
    /// Anything else.
    Other,
}

/// The contents of a [`SasState`].
#[verifier::ext_equal]
pub enum SasStateView {
    KeysExchanged { emojis: Option<Seq<VerificationEmojiView>> },
    Cancelled,
    Done,
    Other,
}

impl View for SasState {
    type V = SasStateView;

    open spec fn view(&self) -> SasStateView {
        match *self {
            SasState::KeysExchanged { emojis } => SasStateView::KeysExchanged {
                emojis: emojis.deep_view(),
            },
            SasState::Cancelled => SasStateView::Cancelled,
            SasState::Done => SasStateView::Done,
            SasState::Other => SasStateView::Other,
        }
    }
}

impl DeepView for SasState {
    type V = SasStateView;

    open spec fn deep_view(&self) -> SasStateView {
        self@
    }
}

/// The challenge that the emoji `emojis` make, if there are any.
pub open spec fn sas_challenge(
    generation: u64,
    user_id: Seq<char>,
    flow_id: Seq<char>,
    emojis: Option<Seq<VerificationEmojiView>>,
) -> Option<MatrixBridgeEventView> {
    match emojis {
        Some(emojis) => Some(
            MatrixBridgeEventView::VerificationChallenge { generation, user_id, flow_id, emojis },
        ),
        None => None,
    }
}

/// What a watched comparison reports.
pub struct SasTurn {
    /// The event to report, if any.
    pub event: Option<MatrixBridgeEvent>,
    /// Whether the watch is over.
    pub over: bool,
}

/// Whether the watch over a comparison ends with `state`. The state in which the watch begins ends
/// it only when the emoji are known.
pub open spec fn ends_watch(first: bool, state: SasStateView) -> bool {
    match state {
        SasStateView::KeysExchanged { .. } => true,
        SasStateView::Cancelled | SasStateView::Done => !first,
        SasStateView::Other => false,
    }
}

/// What `state` makes a watch report.
pub open spec fn watch_report(
    generation: u64,
    user_id: Seq<char>,
    flow_id: Seq<char>,
    state: SasStateView,
) -> Option<MatrixBridgeEventView> {
    match state {
        SasStateView::KeysExchanged { emojis } => sas_challenge(
            generation,
            user_id,
            flow_id,
            emojis,
        ),
        _ => None,
    }
}

/// All that a watch reports over the states `states`, the first of which is the one it begins in.
pub open spec fn watch_reports(
    generation: u64,
    user_id: Seq<char>,
    flow_id: Seq<char>,
    first: bool,
    states: Seq<SasStateView>,
) -> Seq<MatrixBridgeEventView>
    decreases states.len(),
{
    if states.len() == 0 {
        Seq::empty()
    } else {
        let now = match watch_report(generation, user_id, flow_id, states.first()) {
            Some(event) => seq![event],
            None => Seq::empty(),
        };
        if ends_watch(first, states.first()) {
            now
        } else {
            now + watch_reports(generation, user_id, flow_id, false, states.drop_first())
        }
    }
}

/// A watch reports at most one challenge, which is of its verification and generation.
pub proof fn lemma_watch_reports_once(
    generation: u64,
    user_id: Seq<char>,
    flow_id: Seq<char>,
    first: bool,
    states: Seq<SasStateView>,
)
    ensures
        watch_reports(generation, user_id, flow_id, first, states).len() <= 1,
        forall|i: int|
            0 <= i < watch_reports(generation, user_id, flow_id, first, states).len() ==> (
            #[trigger] watch_reports(generation, user_id, flow_id, first, states)[i] matches
            MatrixBridgeEventView::VerificationChallenge { generation: g, user_id: u, flow_id: f, .. }
            && g == generation && u == user_id && f == flow_id),
    decreases states.len(),
{
    if states.len() > 0 && !ends_watch(first, states.first()) {
        lemma_watch_reports_once(generation, user_id, flow_id, false, states.drop_first());
        let rest = watch_reports(generation, user_id, flow_id, false, states.drop_first());
        assert(watch_reports(generation, user_id, flow_id, first, states) =~= rest);
    }
}

/// A watch reports the first emoji that come up before it ends.
pub proof fn lemma_watch_reports_the_first_emoji(
    generation: u64,
    user_id: Seq<char>,
    flow_id: Seq<char>,
    first: bool,
    states: Seq<SasStateView>,
    k: int,
    emojis: Seq<VerificationEmojiView>,
)
    requires
        0 <= k < states.len(),
        states[k] == (SasStateView::KeysExchanged { emojis: Some(emojis) }),
        forall|j: int| 0 <= j < k ==> !ends_watch(first && j == 0, #[trigger] states[j]),
    ensures
        watch_reports(generation, user_id, flow_id, first, states) == seq![
            MatrixBridgeEventView::VerificationChallenge { generation, user_id, flow_id, emojis },
        ],
    decreases states.len(),
{
    if k > 0 {
        let rest = states.drop_first();
        assert(!ends_watch(first && 0 == 0, states[0]));
        assert forall|j: int| 0 <= j < k - 1 implies !ends_watch(
            false && j == 0,
            #[trigger] rest[j],
        ) by {
            assert(!ends_watch(first && j + 1 == 0, states[j + 1]));
        }
        lemma_watch_reports_the_first_emoji(
            generation,
            user_id,
            flow_id,
            false,
            rest,
            k - 1,
            emojis,
        );
        assert(watch_reports(generation, user_id, flow_id, first, states) =~= watch_reports(
            generation,
            user_id,
            flow_id,
            false,
            rest,
        ));
    }
}

impl MatrixBackend {
    /// What the answer `yes` to `question` comes to. The questions begin with
    /// [`TrustQuestion::LoggedIn`].
    pub fn ensure_cross_signing_bootstrapped(question: TrustQuestion, yes: bool) -> (r: TrustStep)
        ensures
            r == trust_step(question, yes),
    {
        match question {
            TrustQuestion::LoggedIn => if yes {
                TrustStep::Ask { question: TrustQuestion::Complete }
            } else {
                TrustStep::Trusted
            },
            TrustQuestion::Complete => if yes {
                TrustStep::Trusted
            } else {
                TrustStep::Ask { question: TrustQuestion::Bootstrapped }
            },
            TrustQuestion::Bootstrapped => if yes {
                TrustStep::Trusted
            } else {
                TrustStep::Untrusted
            },
        }
    }

    /// The challenge that the emoji of a verification make, if there are any.
    pub fn emit_sas_challenge(
        generation: u64,
        user_id: &str,
        flow_id: &str,
        emojis: Option<Vec<VerificationEmoji>>,
    ) -> (r: Option<MatrixBridgeEvent>)
        ensures
            r.deep_view() == sas_challenge(generation, user_id@, flow_id@, emojis.deep_view()),
    {
        match emojis {
            Some(emojis) => Some(
                MatrixBridgeEvent::VerificationChallenge {
                    generation,
                    user_id: user_id.to_owned(),
                    flow_id: flow_id.to_owned(),
                    emojis,
                },
            ),
            None => None,
        }
    }

    /// What a watch over a comparison does in `state`, where `first` says whether it begins in it.
    pub fn wait_for_sas_challenge(
        generation: u64,
        user_id: &str,
        flow_id: &str,
        first: bool,
        state: SasState,
    ) -> (r: SasTurn)
        ensures
            r.event.deep_view() == watch_report(generation, user_id@, flow_id@, state@),
            r.over == ends_watch(first, state@),
    {
        match state {
            SasState::KeysExchanged { emojis } => SasTurn {
                event: Self::emit_sas_challenge(generation, user_id, flow_id, emojis),
                over: true,
            },
            SasState::Cancelled => SasTurn { event: None, over: !first },
            SasState::Done => SasTurn { event: None, over: !first },
            SasState::Other => SasTurn { event: None, over: false },
        }
    }
}

} // verus!
