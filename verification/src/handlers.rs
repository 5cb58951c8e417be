//! The service's endpoints: setting the secret, and the first step of each
//! kind of request. A request that needs a proof leaves here in the state
//! `SecretChecked` with the order to prove; the caller carries it on with
//! `RequestState::advance`.

use vstd::prelude::*;
use crate::coordinator::{
    conclude, reply, reply_for, request_step, Action, ActionView, Conclusion, EventView, ReplyView,
    Request, RequestState, Response, ResponseView, StateView,
};
use crate::orchestrator::{
    grid_job, guess_job, prepare_grid, prepare_guess, ProverError, PublicResult,
};
use crate::state::AppState;
use crate::store::{store_outcome, GameState, StoreError, Variant};
use crate::submission::LaneView;
use crate::types::{ProofRequest, ProofResponse};

verus! {

/// The answer to an attempt to set the secret.
pub open spec fn secret_response(stored: Result<(), StoreError>) -> ResponseView {
    ResponseView {
        success: stored is Ok,
        message: if stored is Ok {
            "Secret set successfully"@
        } else {
            "Secret is outside the admissible domain"@
        },
        proof_verified: false,
        on_chain_verified: false,
    }
}

/// The first step of a guessing request, given the secret as the store
/// holds it now. Without a secret the request is answered at once and
/// nothing is proved. A request that will need the verification service is
/// answered at once, too, if the service is not configured. Otherwise the
/// job is prepared against this secret, whatever the store holds later.
pub open spec fn guess_start(
    request: Request,
    guess: u32,
    secret: Option<u32>,
    variant: Variant,
    configured: bool,
) -> (StateView, ActionView) {
    match secret {
        None => (StateView::Responded, ActionView::Respond(reply_for(request, Conclusion::NoSecret))),
        Some(secret) => if !configured {
            (
                StateView::Responded,
                ActionView::Respond(reply_for(request, Conclusion::NotConfigured)),
            )
        } else {
            match guess_job(variant, guess, secret) {
                Err(error) => (
                    StateView::Responded,
                    ActionView::Respond(reply_for(request, Conclusion::Failed(error))),
                ),
                Ok((job, input)) => (
                    StateView::SecretChecked { request, job },
                    ActionView::Prove { program: job.program, input },
                ),
            }
        },
    }
}

/// The first step of a grid request against the true grid.
pub open spec fn grid_start(request: ProofRequest, truth: Seq<u8>, configured: bool) -> (
    StateView,
    ActionView,
) {
    if !configured {
        (
            StateView::Responded,
            ActionView::Respond(reply_for(Request::Grid, Conclusion::NotConfigured)),
        )
    } else {
        match grid_job(truth, request) {
            Err(error) => (
                StateView::Responded,
                ActionView::Respond(reply_for(Request::Grid, Conclusion::Failed(error))),
            ),
            Ok((job, input)) => (
                StateView::SecretChecked { request: Request::Grid, job },
                ActionView::Prove { program: job.program, input },
            ),
        }
    }
}

/// Sets the secret and says whether it was stored.
pub fn set_secret(store: &mut GameState, secret: u32) -> (response: Response)
    ensures
        final(store).variant() == old(store).variant(),
        response@ == secret_response(store_outcome(old(store).variant(), secret)),
        final(store).secret() == if response.success {
            Some(secret)
        } else {
            old(store).secret()
        },
        old(store).wf() ==> final(store).wf(),
{
    match store.set_secret(secret) {
        Ok(()) => Response {
            success: true,
            message: String::from_str("Secret set successfully"),
            proof_verified: false,
            on_chain_verified: false,
        },
        Err(_) => Response {
            success: false,
            message: String::from_str("Secret is outside the admissible domain"),
            proof_verified: false,
            on_chain_verified: false,
        },
    }
}

/// The first step of a guessing request.
fn start_guess(
    request: Request,
    guess: u32,
    secret: Option<u32>,
    variant: Variant,
    configured: bool,
) -> (next: (RequestState, Action))
    ensures
        (next.0@, next.1@) == guess_start(request, guess, secret, variant, configured),
{
    match secret {
        None => (RequestState::Responded, Action::Respond(reply(request, Conclusion::NoSecret))),
        Some(secret) => {
            if !configured {
                (
                    RequestState::Responded,
                    Action::Respond(reply(request, Conclusion::NotConfigured)),
                )
            } else {
                match prepare_guess(variant, guess, secret) {
                    Err(error) => (
                        RequestState::Responded,
                        Action::Respond(reply(request, Conclusion::Failed(error))),
                    ),
                    Ok((job, input)) => (
                        RequestState::SecretChecked { request, job },
                        Action::Prove { program: job.program, input },
                    ),
                }
            }
        },
    }
}

/// Starts a request to prove a guess without submitting the proof. The
/// secret is read once, here.
pub fn verify_guess_local(guess: u32, store: &GameState) -> (next: (RequestState, Action))
    ensures
        (next.0@, next.1@) == guess_start(
            Request::GuessLocal { guess },
            guess,
            store.secret(),
            store.variant(),
            true,
        ),
{
    start_guess(
        Request::GuessLocal { guess },
        guess,
        store.get_secret(),
        store.get_variant(),
        true,
    )
}

/// Starts a request to prove a guess and, if it is right, to submit the
/// proof. The secret is read once, here.
pub fn verify_guess_full(guess: u32, store: &GameState, state: &AppState) -> (next: (
    RequestState,
    Action,
))
    ensures
        (next.0@, next.1@) == guess_start(
            Request::GuessFull { guess },
            guess,
            store.secret(),
            store.variant(),
            state.configured(),
        ),
{
    start_guess(
        Request::GuessFull { guess },
        guess,
        store.get_secret(),
        store.get_variant(),
        state.is_configured(),
    )
}

/// Starts a request to prove a grid claim and, if it is valid, to submit
/// the proof.
pub fn generate_and_verify_proof(proof_req: &ProofRequest, state: &AppState) -> (next: (
    RequestState,
    Action,
))
    ensures
        (next.0@, next.1@) == grid_start(*proof_req, state.truth@, state.configured()),
{
    if !state.is_configured() {
        return (
            RequestState::Responded,
            Action::Respond(reply(Request::Grid, Conclusion::NotConfigured)),
        );
    }
    match prepare_grid(&state.truth, proof_req) {
        Err(error) => (
            RequestState::Responded,
            Action::Respond(reply(Request::Grid, Conclusion::Failed(error))),
        ),
        Ok((job, input)) => (
            RequestState::SecretChecked { request: Request::Grid, job },
            Action::Prove { program: job.program, input },
        ),
    }
}

/// A local guessing request that finds no secret is answered at once, with
/// `success` and `proof_verified` both false and the message that no secret
/// was set, and the proving capability is not asked for anything.
pub proof fn without_secret_nothing_is_proved(guess: u32, variant: Variant)
    ensures
        guess_start(Request::GuessLocal { guess }, guess, None, variant, true) == (
            StateView::Responded,
            ActionView::Respond(
                ReplyView::Guess(
                    ResponseView {
                        success: false,
                        message: "No secret has been set. Please set a secret first."@,
                        proof_verified: false,
                        on_chain_verified: false,
                    },
                ),
            ),
        ),
        !(guess_start(Request::GuessLocal { guess }, guess, None, variant, true).1 is Prove),
{
}

/// A proof that fails re-verification ends the request with the answer for
/// an invalid proof: not a success, not a verified proof, nothing
/// submitted. The verdict in its public output, match or no match, plays no
/// part, and the answer differs from the one for a proved mismatch.
pub proof fn tampered_proof_is_reported_invalid(
    request: Request,
    result: PublicResult,
    proof: Seq<u8>,
    lane: LaneView,
)
    ensures
        request_step(
            StateView::Reverifying { request, result, proof },
            EventView::Reverified(false),
            lane,
        ) == conclude(request, Conclusion::Failed(ProverError::ProofInvalid), lane),
        match reply_for(request, Conclusion::Failed(ProverError::ProofInvalid)) {
            ReplyView::Guess(response) => !response.success && !response.proof_verified
                && !response.on_chain_verified && response.message
                == "Proof failed verification"@,
            ReplyView::Grid(response) => response == (ProofResponse {
                is_valid: false,
                verification_data: None,
            }),
        },
        request !is Grid ==> reply_for(request, Conclusion::Failed(ProverError::ProofInvalid))
            != reply_for(request, Conclusion::Unmatched),
{
}

/// A request is answered exactly once: a step answers if and only if it
/// leads into the final state from another state, and the final state is
/// never left.
pub proof fn answered_exactly_once(state: StateView, event: EventView, lane: LaneView)
    ensures
        request_step(state, event, lane).1 is Respond <==> (state !is Responded && request_step(
            state,
            event,
            lane,
        ).0 is Responded),
        state is Responded ==> request_step(state, event, lane) == (
            state,
            ActionView::Ignore,
            lane,
        ),
{
}

/// The submission pipeline is entered only from re-verification, only with
/// a proof that passed it, and only for a claim that the proof says is
/// right: a valid proof of a wrong claim is never submitted. A local
/// request never enters it.
pub proof fn only_proved_matches_are_submitted(state: StateView, event: EventView, lane: LaneView)
    requires
        state !is Submitting,
        request_step(state, event, lane).0 is Submitting,
    ensures
        state matches StateView::Reverifying { request, result, .. } && result.matched
            && request !is GuessLocal,
        event == EventView::Reverified(true),
{
}

/// The signer's lane changes only through the submission pipeline: the
/// steps before it leave the lane as it is.
pub proof fn lane_changes_only_in_pipeline(state: StateView, event: EventView, lane: LaneView)
    requires
        state !is Submitting,
    ensures
        request_step(state, event, lane).2 == lane,
{
}

} // verus!
