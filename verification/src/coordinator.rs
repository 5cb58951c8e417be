//! The request coordinator: the state machine of one request, from the
//! claim to the response. It asks for a proof, has the proof re-verified,
//! runs the submission pipeline where the claim was proved right and the
//! endpoint asks for it, and answers exactly once. The outside calls are
//! made by the caller, who feeds their outcomes back as events.

use vstd::prelude::*;
use crate::orchestrator::{
    read_output, read_public_output, FailureCause, ProgramId, ProofJob, ProverError, ProvingOutcome,
    PublicResult,
};
use crate::submission::{
    submission_step, Fault, LaneView, SignerLane, Stage, SubmissionAction, SubmissionError,
    SubmissionEvent, SubmissionReceipt, SubmissionState,
};
use crate::text::{append_decimal, decimal_text};
use crate::types::ProofResponse;
use crate::uint::Uint256;

verus! {

/// The answer of the guessing endpoints.
#[derive(Clone, Debug, PartialEq, Eq)]
pub struct Response {
    /// The guess is the secret.
    pub success: bool,
    pub message: String,
    /// The verdict is backed by a proof that passed re-verification.
    pub proof_verified: bool,
    /// The proof was accepted by the verification service.
    pub on_chain_verified: bool,
}

/// The mathematical content of a `Response`.
pub struct ResponseView {
    pub success: bool,
    pub message: Seq<char>,
    pub proof_verified: bool,
    pub on_chain_verified: bool,
}

impl View for Response {
    type V = ResponseView;

    open spec fn view(&self) -> ResponseView {
        ResponseView {
            success: self.success,
            message: self.message@,
            proof_verified: self.proof_verified,
            on_chain_verified: self.on_chain_verified,
        }
    }
}

/// What a request asks for.
#[derive(Clone, Copy, Debug, PartialEq, Eq)]
pub enum Request {
    /// Prove the guess; do not submit.
    GuessLocal { guess: u32 },
    /// Prove the guess and, if it is right, submit the proof.
    GuessFull { guess: u32 },
    /// Prove the grid claim and, if it is valid, submit the proof.
    Grid,
}

/// How a request ended.
#[derive(Clone, Copy, Debug, PartialEq, Eq)]
pub enum Conclusion {
    /// No secret was set; nothing was proved.
    NoSecret,
    /// An endpoint or a credential is not configured; nothing was proved.
    NotConfigured,
    /// There is no checked proof.
    Failed(ProverError),
    /// A checked proof says that the claim is wrong.
    Unmatched,
    /// A checked proof says that the claim is right; no submission was
    /// asked for.
    MatchedLocal,
    /// A checked proof says that the claim is right, and the proof was
    /// accepted by the verification service.
    Anchored(SubmissionReceipt),
    /// A checked proof says that the claim is right, but the submission
    /// failed.
    NotAnchored(SubmissionError),
}

/// The answer to a request.
#[derive(Clone, Debug, PartialEq, Eq)]
pub enum Reply {
    Guess(Response),
    Grid(ProofResponse),
}

/// The mathematical content of a `Reply`.
pub enum ReplyView {
    Guess(ResponseView),
    Grid(ProofResponse),
}

impl View for Reply {
    type V = ReplyView;

    open spec fn view(&self) -> ReplyView {
        match self {
            Reply::Guess(response) => ReplyView::Guess(response@),
            Reply::Grid(response) => ReplyView::Grid(*response),
        }
    }
}

/// What the outside world reports to a request.
#[derive(Clone, Debug, PartialEq, Eq)]
pub enum Event {
    /// The proving capability has ended.
    ProvingFinished(ProvingOutcome),
    /// The proof was re-verified; the flag says whether it passed.
    Reverified(bool),
    /// An event of the submission pipeline.
    Pipeline(SubmissionEvent),
}

/// The mathematical content of an `Event`.
pub enum EventView {
    ProvingFinished { produced: Result<Seq<u8>, FailureCause>, proof: Seq<u8> },
    Reverified(bool),
    Pipeline(SubmissionEvent),
}

impl View for Event {
    type V = EventView;

    open spec fn view(&self) -> EventView {
        match self {
            Event::ProvingFinished(outcome) => EventView::ProvingFinished {
                produced: outcome.produced(),
                proof: match outcome {
                    ProvingOutcome::Failed(_) => Seq::empty(),
                    ProvingOutcome::Produced { proof, .. } => proof@,
                },
            },
            Event::Reverified(passed) => EventView::Reverified(*passed),
            Event::Pipeline(event) => EventView::Pipeline(*event),
        }
    }
}

/// What a request asks the outside world to do next.
#[derive(Clone, Debug, PartialEq, Eq)]
pub enum Action {
    /// Run the proving capability on this program and input.
    Prove { program: ProgramId, input: Vec<u8> },
    /// Verify the proof that was just produced against the verification key.
    Reverify,
    /// A step of the submission pipeline that needs nothing from the request.
    Pipeline(SubmissionAction),
    /// Submit the proof with this fee ceiling and nonce, and wait.
    Submit { proof: Vec<u8>, max_fee: Uint256, nonce: Uint256 },
    /// Answer the caller. The request has ended.
    Respond(Reply),
    /// The event does not belong to the current state; nothing is to be done.
    Ignore,
}

/// The mathematical content of an `Action`.
pub enum ActionView {
    Prove { program: ProgramId, input: Seq<u8> },
    Reverify,
    Pipeline(SubmissionAction),
    Submit { proof: Seq<u8>, max_fee: Uint256, nonce: Uint256 },
    Respond(ReplyView),
    Ignore,
}

impl View for Action {
    type V = ActionView;

    open spec fn view(&self) -> ActionView {
        match self {
            Action::Prove { program, input } => ActionView::Prove {
                program: *program,
                input: input@,
            },
            Action::Reverify => ActionView::Reverify,
            Action::Pipeline(action) => ActionView::Pipeline(*action),
            Action::Submit { proof, max_fee, nonce } => ActionView::Submit {
                proof: proof@,
                max_fee: *max_fee,
                nonce: *nonce,
            },
            Action::Respond(reply) => ActionView::Respond(reply@),
            Action::Ignore => ActionView::Ignore,
        }
    }
}

/// Where a request stands.
#[derive(Clone, Debug, PartialEq, Eq)]
pub enum RequestState {
    /// The secret was read and the job prepared; the proof is awaited.
    SecretChecked { request: Request, job: ProofJob },
    /// A proof with a well-formed public output is being re-verified.
    Reverifying { request: Request, result: PublicResult, proof: Vec<u8> },
    /// The claim was proved right; the proof is on its way through the
    /// submission pipeline. The proof is held until it is handed out for
    /// submission.
    Submitting { request: Request, proof: Vec<u8>, pipeline: SubmissionState },
    /// The caller was answered.
    Responded,
}

/// The mathematical content of a `RequestState`.
pub enum StateView {
    SecretChecked { request: Request, job: ProofJob },
    Reverifying { request: Request, result: PublicResult, proof: Seq<u8> },
    Submitting { request: Request, proof: Seq<u8>, pipeline: SubmissionState },
    Responded,
}

impl View for RequestState {
    type V = StateView;

    open spec fn view(&self) -> StateView {
        match self {
            RequestState::SecretChecked { request, job } => StateView::SecretChecked {
                request: *request,
                job: *job,
            },
            RequestState::Reverifying { request, result, proof } => StateView::Reverifying {
                request: *request,
                result: *result,
                proof: proof@,
            },
            RequestState::Submitting { request, proof, pipeline } => StateView::Submitting {
                request: *request,
                proof: proof@,
                pipeline: *pipeline,
            },
            RequestState::Responded => StateView::Responded,
        }
    }
}

/// The name of a cause of failed proof generation.
pub open spec fn cause_text(cause: FailureCause) -> Seq<char> {
    match cause {
        FailureCause::ResourceExhausted => "resource exhausted"@,
        FailureCause::ProgramMismatch => "program mismatch"@,
        FailureCause::InputRejected => "input rejected"@,
        FailureCause::TimedOut => "timed out"@,
        FailureCause::Cancelled => "cancelled"@,
        FailureCause::Other => "unknown cause"@,
    }
}

/// The name of a submission stage.
pub open spec fn stage_text(stage: Stage) -> Seq<char> {
    match stage {
        Stage::Funding => "funding"@,
        Stage::FeeEstimate => "fee estimate"@,
        Stage::Nonce => "nonce"@,
        Stage::SubmitWait => "submit-wait"@,
    }
}

/// The name of a fault.
pub open spec fn fault_text(fault: Fault) -> Seq<char> {
    match fault {
        Fault::Rejected => "rejected"@,
        Fault::TimedOut => "timed out"@,
        Fault::Cancelled => "cancelled"@,
    }
}

/// The message for a request that ended without a checked proof.
pub open spec fn error_text(error: ProverError) -> Seq<char> {
    match error {
        ProverError::InvalidClaim => "Invalid claim"@,
        ProverError::ProofGenerationFailed(cause) => "Proof generation failed: "@ + cause_text(
            cause,
        ),
        ProverError::ProofInvalid => "Proof failed verification"@,
    }
}

/// The message of the answer to a guess.
pub open spec fn message_text(guess: u32, conclusion: Conclusion) -> Seq<char> {
    match conclusion {
        Conclusion::NoSecret => "No secret has been set. Please set a secret first."@,
        Conclusion::NotConfigured => "Configuration is missing: RPC endpoint or signer credentials"@,
        Conclusion::Failed(error) => error_text(error),
        Conclusion::Unmatched => "Incorrect guess: "@ + decimal_text(guess as nat),
        Conclusion::MatchedLocal => "Congratulations! Your guess of "@ + decimal_text(guess as nat)
            + " bugs is correct!"@,
        Conclusion::Anchored(_) => "Congratulations! Your guess of "@ + decimal_text(guess as nat)
            + " bugs is correct and verified on-chain!"@,
        Conclusion::NotAnchored(error) => "Your guess of "@ + decimal_text(guess as nat)
            + " bugs is correct, but on-chain verification failed: "@ + stage_text(error.stage)
            + " "@ + fault_text(error.fault),
    }
}

/// A checked proof says that the claim is right.
pub open spec fn proved_right(conclusion: Conclusion) -> bool {
    conclusion is MatchedLocal || conclusion is Anchored || conclusion is NotAnchored
}

/// The request ended with a checked proof.
pub open spec fn proved(conclusion: Conclusion) -> bool {
    conclusion is Unmatched || proved_right(conclusion)
}

/// The answer to a guess. Local validity and anchoring are reported apart:
/// a failed submission leaves `success` and `proof_verified` standing.
pub open spec fn guess_response(guess: u32, conclusion: Conclusion) -> ResponseView {
    ResponseView {
        success: proved_right(conclusion),
        message: message_text(guess, conclusion),
        proof_verified: proved(conclusion),
        on_chain_verified: conclusion is Anchored,
    }
}

/// The answer to a grid claim.
pub open spec fn grid_response(conclusion: Conclusion) -> ProofResponse {
    ProofResponse {
        is_valid: proved_right(conclusion),
        verification_data: match conclusion {
            Conclusion::Anchored(receipt) => Some(receipt),
            _ => None,
        },
    }
}

/// The answer to a request that ended as `conclusion` says.
pub open spec fn reply_for(request: Request, conclusion: Conclusion) -> ReplyView {
    match request {
        Request::GuessLocal { guess } => ReplyView::Guess(guess_response(guess, conclusion)),
        Request::GuessFull { guess } => ReplyView::Guess(guess_response(guess, conclusion)),
        Request::Grid => ReplyView::Grid(grid_response(conclusion)),
    }
}

/// The end of a request: the caller is answered and the lane is untouched.
pub open spec fn conclude(request: Request, conclusion: Conclusion, lane: LaneView) -> (
    StateView,
    ActionView,
    LaneView,
) {
    (StateView::Responded, ActionView::Respond(reply_for(request, conclusion)), lane)
}

/// What follows when the proving capability has ended: a failure ends the
/// request; so does a public output that is no result for the job; a proof
/// with a well-formed result goes to re-verification.
pub open spec fn after_proving(
    request: Request,
    job: ProofJob,
    produced: Result<Seq<u8>, FailureCause>,
    proof: Seq<u8>,
    lane: LaneView,
) -> (StateView, ActionView, LaneView) {
    match produced {
        Err(cause) => conclude(
            request,
            Conclusion::Failed(ProverError::ProofGenerationFailed(cause)),
            lane,
        ),
        Ok(output) => match read_output(job, output) {
            Err(error) => conclude(request, Conclusion::Failed(error), lane),
            Ok(result) => (
                StateView::Reverifying { request, result, proof },
                ActionView::Reverify,
                lane,
            ),
        },
    }
}

/// What follows re-verification: a proof that failed it is invalid, whatever
/// its result says; a wrong claim is answered without submission; a right
/// claim is answered at once where no submission is asked for, and enters
/// the submission pipeline otherwise.
pub open spec fn after_reverification(
    request: Request,
    result: PublicResult,
    proof: Seq<u8>,
    passed: bool,
    lane: LaneView,
) -> (StateView, ActionView, LaneView) {
    if !passed {
        conclude(request, Conclusion::Failed(ProverError::ProofInvalid), lane)
    } else if !result.matched {
        conclude(request, Conclusion::Unmatched, lane)
    } else if request is GuessLocal {
        conclude(request, Conclusion::MatchedLocal, lane)
    } else {
        (
            StateView::Submitting { request, proof, pipeline: SubmissionState::AwaitingBalance },
            ActionView::Pipeline(SubmissionAction::QueryBalance),
            lane,
        )
    }
}

/// What follows an event of the submission pipeline: the pipeline takes its
/// step; its end ends the request; its call for submission hands the proof
/// out; every other action of the pipeline is passed on.
pub open spec fn after_pipeline_event(
    request: Request,
    proof: Seq<u8>,
    pipeline: SubmissionState,
    event: SubmissionEvent,
    lane: LaneView,
) -> (StateView, ActionView, LaneView) {
    let (next, action, lane_after) = submission_step(pipeline, event, lane);
    match action {
        SubmissionAction::Finish(Ok(receipt)) => conclude(
            request,
            Conclusion::Anchored(receipt),
            lane_after,
        ),
        SubmissionAction::Finish(Err(error)) => conclude(
            request,
            Conclusion::NotAnchored(error),
            lane_after,
        ),
        SubmissionAction::Submit { max_fee, nonce } => (
            StateView::Submitting { request, proof: Seq::empty(), pipeline: next },
            ActionView::Submit { proof, max_fee, nonce },
            lane_after,
        ),
        SubmissionAction::Ignore => (
            StateView::Submitting { request, proof, pipeline: next },
            ActionView::Ignore,
            lane_after,
        ),
        other => (
            StateView::Submitting { request, proof, pipeline: next },
            ActionView::Pipeline(other),
            lane_after,
        ),
    }
}

/// The transition function of a request: the state, the action and the
/// signer's lane that follow from a state, an event and the lane before it.
/// An event that does not belong to the state changes nothing.
pub open spec fn request_step(state: StateView, event: EventView, lane: LaneView) -> (
    StateView,
    ActionView,
    LaneView,
) {
    match (state, event) {
        (
            StateView::SecretChecked { request, job },
            EventView::ProvingFinished { produced, proof },
        ) => after_proving(request, job, produced, proof, lane),
        (
            StateView::Reverifying { request, result, proof },
            EventView::Reverified(passed),
        ) => after_reverification(request, result, proof, passed, lane),
        (
            StateView::Submitting { request, proof, pipeline },
            EventView::Pipeline(event),
        ) => after_pipeline_event(request, proof, pipeline, event, lane),
        _ => (state, ActionView::Ignore, lane),
    }
}

/// The name of a cause of failed proof generation.
fn cause_name(cause: FailureCause) -> (name: &'static str)
    ensures
        name@ == cause_text(cause),
{
    match cause {
        FailureCause::ResourceExhausted => "resource exhausted",
        FailureCause::ProgramMismatch => "program mismatch",
        FailureCause::InputRejected => "input rejected",
        FailureCause::TimedOut => "timed out",
        FailureCause::Cancelled => "cancelled",
        FailureCause::Other => "unknown cause",
    }
}

/// The name of a submission stage.
fn stage_name(stage: Stage) -> (name: &'static str)
    ensures
        name@ == stage_text(stage),
{
    match stage {
        Stage::Funding => "funding",
        Stage::FeeEstimate => "fee estimate",
        Stage::Nonce => "nonce",
        Stage::SubmitWait => "submit-wait",
    }
}

/// The name of a fault.
fn fault_name(fault: Fault) -> (name: &'static str)
    ensures
        name@ == fault_text(fault),
{
    match fault {
        Fault::Rejected => "rejected",
        Fault::TimedOut => "timed out",
        Fault::Cancelled => "cancelled",
    }
}

/// Writes the message of the answer to a guess.
fn message(guess: u32, conclusion: Conclusion) -> (text: String)
    ensures
        text@ == message_text(guess, conclusion),
{
    match conclusion {
        Conclusion::NoSecret => String::from_str(
            "No secret has been set. Please set a secret first.",
        ),
        Conclusion::NotConfigured => String::from_str(
            "Configuration is missing: RPC endpoint or signer credentials",
        ),
        Conclusion::Failed(error) => match error {
            ProverError::InvalidClaim => String::from_str("Invalid claim"),
            ProverError::ProofGenerationFailed(cause) => {
                let mut text = String::from_str("Proof generation failed: ");
                text.append(cause_name(cause));
                text
            },
            ProverError::ProofInvalid => String::from_str("Proof failed verification"),
        },
        Conclusion::Unmatched => {
            let mut text = String::from_str("Incorrect guess: ");
            append_decimal(&mut text, guess);
            text
        },
        Conclusion::MatchedLocal => {
            let mut text = String::from_str("Congratulations! Your guess of ");
            append_decimal(&mut text, guess);
            text.append(" bugs is correct!");
            text
        },
        Conclusion::Anchored(_) => {
            let mut text = String::from_str("Congratulations! Your guess of ");
            append_decimal(&mut text, guess);
            text.append(" bugs is correct and verified on-chain!");
            text
        },
        Conclusion::NotAnchored(error) => {
            let mut text = String::from_str("Your guess of ");
            append_decimal(&mut text, guess);
            text.append(" bugs is correct, but on-chain verification failed: ");
            text.append(stage_name(error.stage));
            text.append(" ");
            text.append(fault_name(error.fault));
            text
        },
    }
}

/// Writes the answer to a request that ended as `conclusion` says.
pub fn reply(request: Request, conclusion: Conclusion) -> (answer: Reply)
    ensures
        answer@ == reply_for(request, conclusion),
{
    let right = match conclusion {
        Conclusion::MatchedLocal => true,
        Conclusion::Anchored(_) => true,
        Conclusion::NotAnchored(_) => true,
        _ => false,
    };
    let unmatched = match conclusion {
        Conclusion::Unmatched => true,
        _ => false,
    };
    let receipt = match conclusion {
        Conclusion::Anchored(receipt) => Some(receipt),
        _ => None,
    };
    match request {
        Request::GuessLocal { guess } => Reply::Guess(
            Response {
                success: right,
                message: message(guess, conclusion),
                proof_verified: right || unmatched,
                on_chain_verified: receipt.is_some(),
            },
        ),
        Request::GuessFull { guess } => Reply::Guess(
            Response {
                success: right,
                message: message(guess, conclusion),
                proof_verified: right || unmatched,
                on_chain_verified: receipt.is_some(),
            },
        ),
        Request::Grid => Reply::Grid(ProofResponse { is_valid: right, verification_data: receipt }),
    }
}

impl RequestState {
    /// Takes one event and answers with the next state and the action to
    /// perform, as `request_step` defines them.
    pub fn advance(self, event: Event, lane: &mut SignerLane) -> (next: (RequestState, Action))
        requires
            old(lane).wf(),
        ensures
            final(lane).wf(),
            (next.0@, next.1@, final(lane)@) == request_step(self@, event@, old(lane)@),
    {
        match (self, event) {
            (
                RequestState::SecretChecked { request, job },
                Event::ProvingFinished(outcome),
            ) => match outcome {
                ProvingOutcome::Failed(cause) => (
                    RequestState::Responded,
                    Action::Respond(
                        reply(
                            request,
                            Conclusion::Failed(ProverError::ProofGenerationFailed(cause)),
                        ),
                    ),
                ),
                ProvingOutcome::Produced { public_output, proof } => {
                    match read_public_output(&job, public_output.as_slice()) {
                        Err(error) => (
                            RequestState::Responded,
                            Action::Respond(reply(request, Conclusion::Failed(error))),
                        ),
                        Ok(result) => (
                            RequestState::Reverifying { request, result, proof },
                            Action::Reverify,
                        ),
                    }
                },
            },
            (
                RequestState::Reverifying { request, result, proof },
                Event::Reverified(passed),
            ) => {
                if !passed {
                    (
                        RequestState::Responded,
                        Action::Respond(
                            reply(request, Conclusion::Failed(ProverError::ProofInvalid)),
                        ),
                    )
                } else if !result.matched {
                    (RequestState::Responded, Action::Respond(reply(request, Conclusion::Unmatched)))
                } else {
                    match request {
                        Request::GuessLocal { .. } => (
                            RequestState::Responded,
                            Action::Respond(reply(request, Conclusion::MatchedLocal)),
                        ),
                        _ => (
                            RequestState::Submitting {
                                request,
                                proof,
                                pipeline: SubmissionState::AwaitingBalance,
                            },
                            Action::Pipeline(SubmissionAction::QueryBalance),
                        ),
                    }
                }
            },
            (
                RequestState::Submitting { request, proof, pipeline },
                Event::Pipeline(event),
            ) => {
                let (next, action) = pipeline.advance(event, lane);
                match action {
                    SubmissionAction::Finish(Ok(receipt)) => (
                        RequestState::Responded,
                        Action::Respond(reply(request, Conclusion::Anchored(receipt))),
                    ),
                    SubmissionAction::Finish(Err(error)) => (
                        RequestState::Responded,
                        Action::Respond(reply(request, Conclusion::NotAnchored(error))),
                    ),
                    SubmissionAction::Submit { max_fee, nonce } => (
                        RequestState::Submitting { request, proof: Vec::new(), pipeline: next },
                        Action::Submit { proof, max_fee, nonce },
                    ),
                    SubmissionAction::Ignore => (
                        RequestState::Submitting { request, proof, pipeline: next },
                        Action::Ignore,
                    ),
                    other => (
                        RequestState::Submitting { request, proof, pipeline: next },
                        Action::Pipeline(other),
                    ),
                }
            },
            (state, _) => (state, Action::Ignore),
        }
    }
}

} // verus!
