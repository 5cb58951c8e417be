//! The submission pipeline: funding, fee estimate, nonce and submit-and-wait,
//! one stage after the other, as a state machine that is fed the outcome of
//! each outside call and answers with the next call to make.
//!
//! Nonce and submission form a critical section per signer. A `SignerLane`
//! guards it: a pipeline enters the lane before it asks for a nonce and
//! leaves it when the submission is confirmed or has failed.

use vstd::prelude::*;
use crate::uint::Uint256;

verus! {

/// The balance, in wei, below which the signer's deposit is topped up, and
/// the amount of one top-up.
pub const DEPOSIT_WEI: u64 = 4_000_000_000_000_000;

/// The stages of a submission, in the order in which they run.
#[derive(Clone, Copy, Debug, PartialEq, Eq)]
pub enum Stage {
    Funding,
    FeeEstimate,
    Nonce,
    SubmitWait,
}

/// How a stage failed.
#[derive(Clone, Copy, Debug, PartialEq, Eq)]
pub enum Fault {
    /// The outside service answered with a refusal or an error.
    Rejected,
    /// No answer came within the time allowed.
    TimedOut,
    /// The caller gave the request up.
    Cancelled,
}

/// A failed submission: the stage that failed, and how.
#[derive(Clone, Copy, Debug, PartialEq, Eq)]
pub struct SubmissionError {
    pub stage: Stage,
    pub fault: Fault,
}

/// What the verification service hands back for an accepted record.
#[derive(Clone, Copy, Debug, PartialEq, Eq)]
pub struct SubmissionReceipt {
    pub batch_merkle_root: [u8; 32],
}

/// What the outside world reports to the pipeline.
#[derive(Clone, Copy, Debug, PartialEq, Eq)]
pub enum SubmissionEvent {
    /// The pipeline is asked to start.
    Begin,
    /// The signer's deposited balance.
    Balance(Uint256),
    /// The funding transfer ended, with or without a receipt.
    Funded(bool),
    /// The fee ceiling under current network conditions.
    FeeEstimated(Uint256),
    /// The signer's lane may have become free.
    SignerFree,
    /// The next nonce of the signer.
    NonceAcquired(Uint256),
    /// The record was accepted.
    Confirmed(SubmissionReceipt),
    /// The call that the pipeline waits for was refused or failed.
    Failed,
    /// The call that the pipeline waits for did not answer in time.
    TimedOut,
    /// The caller gave the request up.
    Cancelled,
}

/// What the pipeline asks the outside world to do next.
#[derive(Clone, Copy, Debug, PartialEq, Eq)]
pub enum SubmissionAction {
    QueryBalance,
    Fund { amount: Uint256 },
    EstimateFee,
    WaitForSigner,
    AcquireNonce,
    Submit { max_fee: Uint256, nonce: Uint256 },
    /// The pipeline has ended with this result.
    Finish(Result<SubmissionReceipt, SubmissionError>),
    /// The event does not belong to the current state; nothing is to be done.
    Ignore,
}

/// Where a submission stands.
#[derive(Clone, Copy, Debug, PartialEq, Eq)]
pub enum SubmissionState {
    Start,
    AwaitingBalance,
    AwaitingFunding,
    AwaitingFee,
    AwaitingSigner { max_fee: Uint256 },
    AwaitingNonce { max_fee: Uint256 },
    AwaitingConfirmation { max_fee: Uint256, nonce: Uint256 },
    Done,
}

/// The mathematical content of a signer's lane.
pub struct LaneView {
    /// A pipeline is between nonce acquisition and the end of its submission.
    pub busy: bool,
    /// The nonces of the confirmed submissions, oldest first.
    pub history: Seq<nat>,
}

/// Every nonce is greater than all nonces before it.
pub open spec fn strictly_increasing(history: Seq<nat>) -> bool {
    forall|i: int, j: int| 0 <= i < j < history.len() ==> history[i] < history[j]
}

/// A nonce may be submitted when it is greater than every confirmed one.
pub open spec fn admits(lane: LaneView, nonce: nat) -> bool {
    lane.history.len() == 0 || lane.history.last() < nonce
}

/// The amount of one top-up.
pub open spec fn deposit_amount() -> Uint256 {
    Uint256 { w0: DEPOSIT_WEI, w1: 0, w2: 0, w3: 0 }
}

/// The stage that a state belongs to, for the states that wait for an
/// outside call.
pub open spec fn stage_of(state: SubmissionState) -> Option<Stage> {
    match state {
        SubmissionState::Start => None,
        SubmissionState::AwaitingBalance => Some(Stage::Funding),
        SubmissionState::AwaitingFunding => Some(Stage::Funding),
        SubmissionState::AwaitingFee => Some(Stage::FeeEstimate),
        SubmissionState::AwaitingSigner { .. } => Some(Stage::Nonce),
        SubmissionState::AwaitingNonce { .. } => Some(Stage::Nonce),
        SubmissionState::AwaitingConfirmation { .. } => Some(Stage::SubmitWait),
        SubmissionState::Done => None,
    }
}

/// The states in which the pipeline holds the signer's lane.
pub open spec fn holds_lane(state: SubmissionState) -> bool {
    state is AwaitingNonce || state is AwaitingConfirmation
}

/// The end of a pipeline whose current stage failed: the error names that
/// stage, and the lane is given back if the pipeline held it.
pub open spec fn failure(state: SubmissionState, fault: Fault, lane: LaneView) -> (
    SubmissionState,
    SubmissionAction,
    LaneView,
) {
    match stage_of(state) {
        None => (state, SubmissionAction::Ignore, lane),
        Some(stage) => (
            SubmissionState::Done,
            SubmissionAction::Finish(Err(SubmissionError { stage, fault })),
            if holds_lane(state) {
                LaneView { busy: false, history: lane.history }
            } else {
                lane
            },
        ),
    }
}

/// The attempt to enter the signer's lane with a fee ceiling in hand.
pub open spec fn enter_lane(max_fee: Uint256, lane: LaneView) -> (
    SubmissionState,
    SubmissionAction,
    LaneView,
) {
    if lane.busy {
        (SubmissionState::AwaitingSigner { max_fee }, SubmissionAction::WaitForSigner, lane)
    } else {
        (
            SubmissionState::AwaitingNonce { max_fee },
            SubmissionAction::AcquireNonce,
            LaneView { busy: true, history: lane.history },
        )
    }
}

/// The pipeline's transition function: the state, the action and the lane
/// that follow from a state, an event and the lane before it.
pub open spec fn submission_step(state: SubmissionState, event: SubmissionEvent, lane: LaneView)
    -> (SubmissionState, SubmissionAction, LaneView) {
    match event {
        SubmissionEvent::Failed => failure(state, Fault::Rejected, lane),
        SubmissionEvent::TimedOut => failure(state, Fault::TimedOut, lane),
        SubmissionEvent::Cancelled => failure(state, Fault::Cancelled, lane),
        SubmissionEvent::Begin => if state is Start {
            (SubmissionState::AwaitingBalance, SubmissionAction::QueryBalance, lane)
        } else {
            (state, SubmissionAction::Ignore, lane)
        },
        SubmissionEvent::Balance(balance) => if state is AwaitingBalance {
            if balance@ >= DEPOSIT_WEI {
                (SubmissionState::AwaitingFee, SubmissionAction::EstimateFee, lane)
            } else {
                (
                    SubmissionState::AwaitingFunding,
                    SubmissionAction::Fund { amount: deposit_amount() },
                    lane,
                )
            }
        } else {
            (state, SubmissionAction::Ignore, lane)
        },
        SubmissionEvent::Funded(receipt) => if state is AwaitingFunding {
            if receipt {
                (SubmissionState::AwaitingFee, SubmissionAction::EstimateFee, lane)
            } else {
                failure(state, Fault::Rejected, lane)
            }
        } else {
            (state, SubmissionAction::Ignore, lane)
        },
        SubmissionEvent::FeeEstimated(max_fee) => if state is AwaitingFee {
            enter_lane(max_fee, lane)
        } else {
            (state, SubmissionAction::Ignore, lane)
        },
        SubmissionEvent::SignerFree => match state {
            SubmissionState::AwaitingSigner { max_fee } => enter_lane(max_fee, lane),
            _ => (state, SubmissionAction::Ignore, lane),
        },
        SubmissionEvent::NonceAcquired(nonce) => match state {
            SubmissionState::AwaitingNonce { max_fee } => if admits(lane, nonce@) {
                (
                    SubmissionState::AwaitingConfirmation { max_fee, nonce },
                    SubmissionAction::Submit { max_fee, nonce },
                    lane,
                )
            } else {
                failure(state, Fault::Rejected, lane)
            },
            _ => (state, SubmissionAction::Ignore, lane),
        },
        SubmissionEvent::Confirmed(receipt) => match state {
            SubmissionState::AwaitingConfirmation { max_fee, nonce } => if lane.busy && admits(
                lane,
                nonce@,
            ) {
                (
                    SubmissionState::Done,
                    SubmissionAction::Finish(Ok(receipt)),
                    LaneView { busy: false, history: lane.history.push(nonce@) },
                )
            } else {
                (
                    SubmissionState::Done,
                    SubmissionAction::Finish(
                        Err(SubmissionError { stage: Stage::Nonce, fault: Fault::Rejected }),
                    ),
                    lane,
                )
            },
            _ => (state, SubmissionAction::Ignore, lane),
        },
    }
}

/// The lane of one signer: whether a pipeline is inside the critical
/// section, and the nonce of the latest confirmed submission.
pub struct SignerLane {
    busy: bool,
    last: Option<Uint256>,
    confirmed: Ghost<Seq<nat>>,
}

impl View for SignerLane {
    type V = LaneView;

    closed spec fn view(&self) -> LaneView {
        LaneView { busy: self.busy, history: self.confirmed@ }
    }
}

impl SignerLane {
    /// The confirmed nonces are strictly increasing, and the lane remembers
    /// the latest of them.
    pub closed spec fn wf(&self) -> bool {
        &&& strictly_increasing(self.confirmed@)
        &&& match self.last {
            None => self.confirmed@.len() == 0,
            Some(n) => self.confirmed@.len() > 0 && self.confirmed@.last() == n@,
        }
    }

    /// A lane on which nothing was submitted yet.
    pub fn new() -> (lane: SignerLane)
        ensures
            lane.wf(),
            !lane@.busy,
            lane@.history == Seq::<nat>::empty(),
    {
        SignerLane { busy: false, last: None, confirmed: Ghost(Seq::empty()) }
    }

    /// Whether a pipeline is inside the critical section.
    pub fn is_busy(&self) -> (busy: bool)
        ensures
            busy == self@.busy,
    {
        self.busy
    }

    /// The nonce of the latest confirmed submission.
    pub fn last_confirmed(&self) -> (last: Option<Uint256>)
        requires
            self.wf(),
        ensures
            match last {
                None => self@.history.len() == 0,
                Some(n) => self@.history.len() > 0 && self@.history.last() == n@,
            },
    {
        self.last
    }

    /// Whether `nonce` is greater than every confirmed nonce.
    pub fn admits(&self, nonce: &Uint256) -> (ok: bool)
        requires
            self.wf(),
        ensures
            ok == admits(self@, nonce@),
    {
        match &self.last {
            None => true,
            Some(last) => last.lt(nonce),
        }
    }

    /// The confirmed nonces of a well-formed lane are strictly increasing:
    /// no two submissions of one signer share a nonce, and none is confirmed
    /// after a greater one.
    pub proof fn confirmed_nonces_increase(&self)
        requires
            self.wf(),
        ensures
            strictly_increasing(self@.history),
    {
    }
}

impl SubmissionState {
    /// Takes one event and answers with the next state and the action to
    /// perform, as `submission_step` defines them. The lane is entered, left
    /// and extended as the step demands.
    pub fn advance(self, event: SubmissionEvent, lane: &mut SignerLane) -> (next: (
        SubmissionState,
        SubmissionAction,
    ))
        requires
            old(lane).wf(),
        ensures
            final(lane).wf(),
            (next.0, next.1, final(lane)@) == submission_step(self, event, old(lane)@),
    {
        match event {
            SubmissionEvent::Failed => self.fail(Fault::Rejected, lane),
            SubmissionEvent::TimedOut => self.fail(Fault::TimedOut, lane),
            SubmissionEvent::Cancelled => self.fail(Fault::Cancelled, lane),
            SubmissionEvent::Begin => match self {
                SubmissionState::Start => (
                    SubmissionState::AwaitingBalance,
                    SubmissionAction::QueryBalance,
                ),
                _ => (self, SubmissionAction::Ignore),
            },
            SubmissionEvent::Balance(balance) => match self {
                SubmissionState::AwaitingBalance => {
                    let threshold = Uint256::from_u64(DEPOSIT_WEI);
                    if balance.lt(&threshold) {
                        (
                            SubmissionState::AwaitingFunding,
                            SubmissionAction::Fund { amount: threshold },
                        )
                    } else {
                        (SubmissionState::AwaitingFee, SubmissionAction::EstimateFee)
                    }
                },
                _ => (self, SubmissionAction::Ignore),
            },
            SubmissionEvent::Funded(receipt) => match self {
                SubmissionState::AwaitingFunding => {
                    if receipt {
                        (SubmissionState::AwaitingFee, SubmissionAction::EstimateFee)
                    } else {
                        self.fail(Fault::Rejected, lane)
                    }
                },
                _ => (self, SubmissionAction::Ignore),
            },
            SubmissionEvent::FeeEstimated(max_fee) => match self {
                SubmissionState::AwaitingFee => Self::enter(max_fee, lane),
                _ => (self, SubmissionAction::Ignore),
            },
            SubmissionEvent::SignerFree => match self {
                SubmissionState::AwaitingSigner { max_fee } => Self::enter(max_fee, lane),
                _ => (self, SubmissionAction::Ignore),
            },
            SubmissionEvent::NonceAcquired(nonce) => match self {
                SubmissionState::AwaitingNonce { max_fee } => {
                    if lane.admits(&nonce) {
                        (
                            SubmissionState::AwaitingConfirmation { max_fee, nonce },
                            SubmissionAction::Submit { max_fee, nonce },
                        )
                    } else {
                        self.fail(Fault::Rejected, lane)
                    }
                },
                _ => (self, SubmissionAction::Ignore),
            },
            SubmissionEvent::Confirmed(receipt) => match self {
                SubmissionState::AwaitingConfirmation { max_fee, nonce } => {
                    if lane.busy && lane.admits(&nonce) {
                        lane.busy = false;
                        lane.last = Some(nonce);
                        lane.confirmed = Ghost(lane.confirmed@.push(nonce@));
                        (SubmissionState::Done, SubmissionAction::Finish(Ok(receipt)))
                    } else {
                        (
                            SubmissionState::Done,
                            SubmissionAction::Finish(
                                Err(
                                    SubmissionError {
                                        stage: Stage::Nonce,
                                        fault: Fault::Rejected,
                                    },
                                ),
                            ),
                        )
                    }
                },
                _ => (self, SubmissionAction::Ignore),
            },
        }
    }

    /// Ends the pipeline with an error at its current stage and gives the
    /// lane back if the pipeline held it.
    fn fail(self, fault: Fault, lane: &mut SignerLane) -> (next: (
        SubmissionState,
        SubmissionAction,
    ))
        requires
            old(lane).wf(),
        ensures
            final(lane).wf(),
            (next.0, next.1, final(lane)@) == failure(self, fault, old(lane)@),
    {
        let stage = match self {
            SubmissionState::Start => {
                return (self, SubmissionAction::Ignore);
            },
            SubmissionState::Done => {
                return (self, SubmissionAction::Ignore);
            },
            SubmissionState::AwaitingBalance => Stage::Funding,
            SubmissionState::AwaitingFunding => Stage::Funding,
            SubmissionState::AwaitingFee => Stage::FeeEstimate,
            SubmissionState::AwaitingSigner { .. } => Stage::Nonce,
            SubmissionState::AwaitingNonce { .. } => {
                lane.busy = false;
                Stage::Nonce
            },
            SubmissionState::AwaitingConfirmation { .. } => {
                lane.busy = false;
                Stage::SubmitWait
            },
        };
        (SubmissionState::Done, SubmissionAction::Finish(Err(SubmissionError { stage, fault })))
    }

    /// Enters the lane if it is free, and waits for it otherwise.
    fn enter(max_fee: Uint256, lane: &mut SignerLane) -> (next: (
        SubmissionState,
        SubmissionAction,
    ))
        requires
            old(lane).wf(),
        ensures
            final(lane).wf(),
            (next.0, next.1, final(lane)@) == enter_lane(max_fee, old(lane)@),
    {
        if lane.busy {
            (SubmissionState::AwaitingSigner { max_fee }, SubmissionAction::WaitForSigner)
        } else {
            lane.busy = true;
            (SubmissionState::AwaitingNonce { max_fee }, SubmissionAction::AcquireNonce)
        }
    }
}

/// The event that the end of a funding transfer stands for. A transfer that
/// came back with a receipt, given here by its transaction hash, has paid;
/// one that came back without a receipt has failed.
pub fn deposit_to_batcher(receipt: Option<[u8; 32]>) -> (event: SubmissionEvent)
    ensures
        event == SubmissionEvent::Funded(receipt is Some),
{
    SubmissionEvent::Funded(receipt.is_some())
}

/// Whatever the state and the event, a step keeps the confirmed nonces
/// strictly increasing: the history is left as it was, or it grows by one
/// nonce that is greater than every nonce confirmed before.
pub proof fn step_keeps_nonces_increasing(
    state: SubmissionState,
    event: SubmissionEvent,
    lane: LaneView,
)
    requires
        strictly_increasing(lane.history),
    ensures
        strictly_increasing(submission_step(state, event, lane).2.history),
        submission_step(state, event, lane).2.history == lane.history || exists|nonce: nat|
            {
                &&& #[trigger] lane.history.push(nonce) == submission_step(
                    state,
                    event,
                    lane,
                ).2.history
                &&& forall|i: int| 0 <= i < lane.history.len() ==> lane.history[i] < nonce
            },
{
    let after = submission_step(state, event, lane).2.history;
    if after != lane.history {
        match (state, event) {
            (
                SubmissionState::AwaitingConfirmation { max_fee, nonce },
                SubmissionEvent::Confirmed(receipt),
            ) => {
                assert(after == lane.history.push(nonce@));
                assert forall|i: int| 0 <= i < lane.history.len() implies lane.history[i]
                    < nonce@ by {
                    if i < lane.history.len() - 1 {
                        assert(lane.history[i] < lane.history[lane.history.len() - 1]);
                    }
                }
            },
            _ => {
                assert(after =~= lane.history);
            },
        }
    }
}

/// Two submissions of one signer that were both confirmed, one after the
/// other, carry nonces in strictly increasing order.
pub proof fn successive_confirmations_increase(
    first: SubmissionState,
    second: SubmissionState,
    receipt1: SubmissionReceipt,
    receipt2: SubmissionReceipt,
    lane: LaneView,
)
    requires
        first matches SubmissionState::AwaitingConfirmation { .. },
        second matches SubmissionState::AwaitingConfirmation { .. },
        submission_step(first, SubmissionEvent::Confirmed(receipt1), lane).1
            == SubmissionAction::Finish(Ok(receipt1)),
        submission_step(
            second,
            SubmissionEvent::Confirmed(receipt2),
            LaneView {
                busy: true,
                history: submission_step(first, SubmissionEvent::Confirmed(receipt1), lane).2.history,
            },
        ).1 == SubmissionAction::Finish(Ok(receipt2)),
    ensures
        first->AwaitingConfirmation_nonce@ < second->AwaitingConfirmation_nonce@,
{
}

} // verus!
