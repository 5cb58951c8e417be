use zk_service::coordinator::{
    reply, Action, Conclusion, Event, Reply, Request, RequestState, Response,
};
use zk_service::grid::Grid;
use zk_service::handlers::{
    generate_and_verify_proof, set_secret, verify_guess_full, verify_guess_local,
};
use zk_service::orchestrator::{
    FailureCause, ProgramId, ProofJob, ProverError, ProvingOutcome, PublicResult,
};
use zk_service::puzzle::{run_equality, run_grid};
use zk_service::state::AppState;
use zk_service::store::{GameState, Variant};
use zk_service::submission::{
    Fault, SignerLane, Stage, SubmissionAction, SubmissionError, SubmissionEvent,
    SubmissionReceipt, SubmissionState, DEPOSIT_WEI,
};
use zk_service::types::{ProofRequest, ProofResponse};
use zk_service::uint::Uint256;

fn n(value: u64) -> Uint256 {
    Uint256::from_u64(value)
}

fn app_state() -> AppState {
    AppState {
        rpc_url: Some(String::from("https://ethereum-holesky-rpc.publicnode.com")),
        wallet: Some([0x11; 20]),
        truth: Grid { cells: [1, 2, 3, 4, 5, 6, 7, 8, 9, 10, 11, 12, 13, 14, 15, 16] },
    }
}

fn grid_request(solution: Vec<(u8, u8, u8)>) -> ProofRequest {
    ProofRequest {
        grid: vec![vec![1, 2, 3, 4], vec![5, 6, 0, 8], vec![9, 10, 11, 12], vec![13, 14, 15, 16]],
        solution,
    }
}

fn response(success: bool, message: &str, proof_verified: bool, on_chain_verified: bool) -> Reply {
    Reply::Guess(Response {
        success,
        message: String::from(message),
        proof_verified,
        on_chain_verified,
    })
}

fn receipt() -> SubmissionReceipt {
    SubmissionReceipt { batch_merkle_root: [0x5A; 32] }
}

/// Plays the prover: runs the program on the input that the request asks to
/// be proved and reports its public output with a proof.
fn prove(action: &Action) -> Event {
    match action {
        Action::Prove { program, input } => {
            let public_output = match program {
                ProgramId::Equality => run_equality(input),
                ProgramId::Grid => run_grid(input),
                ProgramId::Commitment { .. } => panic!("not played here"),
            };
            Event::ProvingFinished(ProvingOutcome::Produced {
                public_output,
                proof: vec![0xC0, 0xFF, 0xEE],
            })
        }
        other => panic!("no proof was asked for: {:?}", other),
    }
}

/// Plays reachable outside services from re-verification to the answer.
fn run_to_answer(state: RequestState, first: Action, lane: &mut SignerLane, nonce: u64) -> (Reply, usize) {
    let mut submissions = 0;
    let mut state = state;
    let mut action = first;
    loop {
        let event = match action {
            Action::Prove { .. } => prove(&action),
            Action::Reverify => Event::Reverified(true),
            Action::Pipeline(SubmissionAction::QueryBalance) => {
                Event::Pipeline(SubmissionEvent::Balance(n(DEPOSIT_WEI)))
            }
            Action::Pipeline(SubmissionAction::EstimateFee) => {
                Event::Pipeline(SubmissionEvent::FeeEstimated(n(1_000)))
            }
            Action::Pipeline(SubmissionAction::AcquireNonce) => {
                Event::Pipeline(SubmissionEvent::NonceAcquired(n(nonce)))
            }
            Action::Submit { ref proof, max_fee, nonce: used } => {
                assert_eq!(proof, &vec![0xC0, 0xFF, 0xEE]);
                assert_eq!(max_fee, n(1_000));
                assert_eq!(used, n(nonce));
                submissions += 1;
                Event::Pipeline(SubmissionEvent::Confirmed(receipt()))
            }
            Action::Respond(answer) => {
                assert_eq!(state, RequestState::Responded);
                return (answer, submissions);
            }
            other => panic!("unexpected action {:?}", other),
        };
        let next = state.advance(event, lane);
        state = next.0;
        action = next.1;
    }
}

#[test]
fn setting_the_secret_answers_with_success() {
    let mut store = GameState::new(Variant::Equality);
    let answer = set_secret(&mut store, 7);
    assert_eq!(
        answer,
        Response {
            success: true,
            message: String::from("Secret set successfully"),
            proof_verified: false,
            on_chain_verified: false,
        }
    );
    assert_eq!(store.get_secret(), Some(7));
    let answer = set_secret(&mut store, 99);
    assert!(answer.success);
    assert_eq!(store.get_secret(), Some(99));
}

#[test]
fn setting_a_secret_without_program_is_refused() {
    let mut store = GameState::new(Variant::Commitment);
    let answer = set_secret(&mut store, 11);
    assert_eq!(
        answer,
        Response {
            success: false,
            message: String::from("Secret is outside the admissible domain"),
            proof_verified: false,
            on_chain_verified: false,
        }
    );
    assert_eq!(store.get_secret(), None);
    assert!(set_secret(&mut store, 6).success);
    assert!(!set_secret(&mut store, 4).success);
    assert_eq!(store.get_secret(), Some(6));
}

#[test]
fn local_guess_without_secret_proves_nothing() {
    let store = GameState::new(Variant::Equality);
    let (state, action) = verify_guess_local(7, &store);
    assert_eq!(state, RequestState::Responded);
    assert_eq!(
        action,
        Action::Respond(response(
            false,
            "No secret has been set. Please set a secret first.",
            false,
            false
        ))
    );
    let commitment = GameState::new(Variant::Commitment);
    let (state, action) = verify_guess_local(7, &commitment);
    assert_eq!(state, RequestState::Responded);
    assert!(!matches!(action, Action::Prove { .. }));
}

#[test]
fn full_guess_without_secret_proves_nothing() {
    let store = GameState::new(Variant::Equality);
    let (state, action) = verify_guess_full(7, &store, &app_state());
    assert_eq!(state, RequestState::Responded);
    assert_eq!(
        action,
        Action::Respond(response(
            false,
            "No secret has been set. Please set a secret first.",
            false,
            false
        ))
    );
}

#[test]
fn local_guess_right_and_wrong() {
    let mut store = GameState::new(Variant::Equality);
    set_secret(&mut store, 7);
    let mut lane = SignerLane::new();
    let (state, action) = verify_guess_local(7, &store);
    assert_eq!(
        state,
        RequestState::SecretChecked {
            request: Request::GuessLocal { guess: 7 },
            job: ProofJob { program: ProgramId::Equality, claim: Some(7) },
        }
    );
    assert_eq!(
        action,
        Action::Prove { program: ProgramId::Equality, input: vec![7, 0, 0, 0, 7, 0, 0, 0] }
    );
    let (answer, submissions) = run_to_answer(state, action, &mut lane, 1);
    assert_eq!(
        answer,
        response(true, "Congratulations! Your guess of 7 bugs is correct!", true, false)
    );
    assert_eq!(submissions, 0);
    let (state, action) = verify_guess_local(12, &store);
    let (answer, submissions) = run_to_answer(state, action, &mut lane, 1);
    assert_eq!(answer, response(false, "Incorrect guess: 12", true, false));
    assert_eq!(submissions, 0);
    assert!(!lane.is_busy());
    assert_eq!(lane.last_confirmed(), None);
}

#[test]
fn full_guess_right_then_wrong() {
    let mut store = GameState::new(Variant::Equality);
    assert!(set_secret(&mut store, 7).success);
    let mut lane = SignerLane::new();
    let (state, action) = verify_guess_full(7, &store, &app_state());
    let (answer, submissions) = run_to_answer(state, action, &mut lane, 41);
    assert_eq!(
        answer,
        response(
            true,
            "Congratulations! Your guess of 7 bugs is correct and verified on-chain!",
            true,
            true
        )
    );
    assert_eq!(submissions, 1);
    assert_eq!(lane.last_confirmed(), Some(n(41)));
    let (state, action) = verify_guess_full(6, &store, &app_state());
    let (answer, submissions) = run_to_answer(state, action, &mut lane, 42);
    assert_eq!(answer, response(false, "Incorrect guess: 6", true, false));
    assert_eq!(submissions, 0);
    assert_eq!(lane.last_confirmed(), Some(n(41)));
    assert!(!lane.is_busy());
}

#[test]
fn two_full_guesses_use_increasing_nonces() {
    let mut store = GameState::new(Variant::Equality);
    set_secret(&mut store, 7);
    let mut lane = SignerLane::new();
    for nonce in [8u64, 9] {
        let (state, action) = verify_guess_full(7, &store, &app_state());
        let (answer, submissions) = run_to_answer(state, action, &mut lane, nonce);
        assert!(matches!(answer, Reply::Guess(ref r) if r.on_chain_verified));
        assert_eq!(submissions, 1);
    }
    assert_eq!(lane.last_confirmed(), Some(n(9)));
    // the service hands the old nonce out once more: nothing is submitted
    let (state, action) = verify_guess_full(7, &store, &app_state());
    let (state, action) = state.advance(prove(&action), &mut lane);
    assert_eq!(action, Action::Reverify);
    let (state, _) = state.advance(Event::Reverified(true), &mut lane);
    let (state, _) = state.advance(Event::Pipeline(SubmissionEvent::Balance(n(DEPOSIT_WEI))), &mut lane);
    let (state, _) = state.advance(Event::Pipeline(SubmissionEvent::FeeEstimated(n(1))), &mut lane);
    let (state, action) = state.advance(Event::Pipeline(SubmissionEvent::NonceAcquired(n(9))), &mut lane);
    assert_eq!(state, RequestState::Responded);
    assert_eq!(
        action,
        Action::Respond(response(
            true,
            "Your guess of 7 bugs is correct, but on-chain verification failed: nonce rejected",
            true,
            false
        ))
    );
    assert!(!lane.is_busy());
}

#[test]
fn request_keeps_the_secret_it_started_with() {
    let mut store = GameState::new(Variant::Equality);
    set_secret(&mut store, 7);
    let mut lane = SignerLane::new();
    let (state, action) = verify_guess_local(7, &store);
    // the secret changes while the proof is under way
    set_secret(&mut store, 8);
    let (answer, _) = run_to_answer(state, action, &mut lane, 1);
    assert!(matches!(answer, Reply::Guess(ref r) if r.success));
    let (state, action) = verify_guess_local(7, &store);
    let (answer, _) = run_to_answer(state, action, &mut lane, 1);
    assert!(matches!(answer, Reply::Guess(ref r) if !r.success));
}

#[test]
fn tampered_proof_is_answered_as_invalid() {
    let mut store = GameState::new(Variant::Equality);
    set_secret(&mut store, 7);
    let mut lane = SignerLane::new();
    for guess in [7u32, 6] {
        let (state, action) = verify_guess_full(guess, &store, &app_state());
        let (state, action) = state.advance(prove(&action), &mut lane);
        assert_eq!(action, Action::Reverify);
        let (state, action) = state.advance(Event::Reverified(false), &mut lane);
        assert_eq!(state, RequestState::Responded);
        assert_eq!(action, Action::Respond(response(false, "Proof failed verification", false, false)));
    }
    assert!(!lane.is_busy());
}

#[test]
fn proof_of_another_claim_is_answered_as_invalid() {
    let mut store = GameState::new(Variant::Equality);
    set_secret(&mut store, 7);
    let mut lane = SignerLane::new();
    let (state, _) = verify_guess_local(6, &store);
    // the public output of a run on the guess 7
    let event = Event::ProvingFinished(ProvingOutcome::Produced {
        public_output: vec![7, 0, 0, 0, 1],
        proof: vec![1],
    });
    let (state, action) = state.advance(event, &mut lane);
    assert_eq!(state, RequestState::Responded);
    assert_eq!(action, Action::Respond(response(false, "Proof failed verification", false, false)));
}

#[test]
fn failed_proving_is_answered_with_its_cause() {
    let mut store = GameState::new(Variant::Equality);
    set_secret(&mut store, 7);
    let mut lane = SignerLane::new();
    for (cause, text) in [
        (FailureCause::ResourceExhausted, "Proof generation failed: resource exhausted"),
        (FailureCause::ProgramMismatch, "Proof generation failed: program mismatch"),
        (FailureCause::InputRejected, "Proof generation failed: input rejected"),
        (FailureCause::TimedOut, "Proof generation failed: timed out"),
        (FailureCause::Cancelled, "Proof generation failed: cancelled"),
        (FailureCause::Other, "Proof generation failed: unknown cause"),
    ] {
        let (state, _) = verify_guess_full(7, &store, &app_state());
        let (state, action) =
            state.advance(Event::ProvingFinished(ProvingOutcome::Failed(cause)), &mut lane);
        assert_eq!(state, RequestState::Responded);
        assert_eq!(action, Action::Respond(response(false, text, false, false)));
    }
}

#[test]
fn commitment_variant_judges_the_claim_before_proving() {
    let mut store = GameState::new(Variant::Commitment);
    set_secret(&mut store, 7);
    let (state, action) = verify_guess_local(11, &store);
    assert_eq!(state, RequestState::Responded);
    assert_eq!(action, Action::Respond(response(false, "Invalid claim", false, false)));
    let (state, action) = verify_guess_local(6, &store);
    assert_eq!(
        state,
        RequestState::SecretChecked {
            request: Request::GuessLocal { guess: 6 },
            job: ProofJob { program: ProgramId::Commitment { secret: 7 }, claim: Some(6) },
        }
    );
    assert_eq!(
        action,
        Action::Prove { program: ProgramId::Commitment { secret: 7 }, input: vec![6, 0, 0, 0] }
    );
    let mut lane = SignerLane::new();
    let event = Event::ProvingFinished(ProvingOutcome::Produced { public_output: vec![0], proof: vec![] });
    let (state, _) = state.advance(event, &mut lane);
    let (_, action) = state.advance(Event::Reverified(true), &mut lane);
    assert_eq!(action, Action::Respond(response(false, "Incorrect guess: 6", true, false)));
}

#[test]
fn full_guess_without_configuration_fails_before_proving() {
    let mut store = GameState::new(Variant::Equality);
    set_secret(&mut store, 7);
    let text = "Configuration is missing: RPC endpoint or signer credentials";
    let mut no_rpc = app_state();
    no_rpc.rpc_url = None;
    assert!(!no_rpc.is_configured());
    let (state, action) = verify_guess_full(7, &store, &no_rpc);
    assert_eq!(state, RequestState::Responded);
    assert_eq!(action, Action::Respond(response(false, text, false, false)));
    let mut no_wallet = app_state();
    no_wallet.wallet = None;
    let (_, action) = verify_guess_full(7, &store, &no_wallet);
    assert_eq!(action, Action::Respond(response(false, text, false, false)));
    assert!(app_state().is_configured());
    // a local request needs no configuration
    let (_, action) = verify_guess_local(7, &store);
    assert!(matches!(action, Action::Prove { .. }));
}

#[test]
fn submission_failure_leaves_the_local_result_standing() {
    let mut store = GameState::new(Variant::Equality);
    set_secret(&mut store, 7);
    let mut lane = SignerLane::new();
    let (state, action) = verify_guess_full(7, &store, &app_state());
    let (state, _) = state.advance(prove(&action), &mut lane);
    let (state, action) = state.advance(Event::Reverified(true), &mut lane);
    assert_eq!(action, Action::Pipeline(SubmissionAction::QueryBalance));
    assert_eq!(
        state,
        RequestState::Submitting {
            request: Request::GuessFull { guess: 7 },
            proof: vec![0xC0, 0xFF, 0xEE],
            pipeline: SubmissionState::AwaitingBalance,
        }
    );
    let (state, action) = state.advance(Event::Pipeline(SubmissionEvent::Balance(n(0))), &mut lane);
    assert_eq!(action, Action::Pipeline(SubmissionAction::Fund { amount: n(DEPOSIT_WEI) }));
    let (state, action) = state.advance(Event::Pipeline(SubmissionEvent::Funded(true)), &mut lane);
    assert_eq!(action, Action::Pipeline(SubmissionAction::EstimateFee));
    let (state, action) = state.advance(Event::Pipeline(SubmissionEvent::TimedOut), &mut lane);
    assert_eq!(state, RequestState::Responded);
    assert_eq!(
        action,
        Action::Respond(response(
            true,
            "Your guess of 7 bugs is correct, but on-chain verification failed: fee estimate timed out",
            true,
            false
        ))
    );
}

#[test]
fn answers_name_the_stage_and_the_fault() {
    let request = Request::GuessFull { guess: 4294967295 };
    for (stage, fault, text) in [
        (Stage::Funding, Fault::Rejected, "funding rejected"),
        (Stage::FeeEstimate, Fault::TimedOut, "fee estimate timed out"),
        (Stage::Nonce, Fault::Cancelled, "nonce cancelled"),
        (Stage::SubmitWait, Fault::TimedOut, "submit-wait timed out"),
    ] {
        let answer = reply(request, Conclusion::NotAnchored(SubmissionError { stage, fault }));
        let expected = format!(
            "Your guess of 4294967295 bugs is correct, but on-chain verification failed: {}",
            text
        );
        assert_eq!(answer, response(true, &expected, true, false));
    }
    assert_eq!(
        reply(Request::GuessLocal { guess: 0 }, Conclusion::MatchedLocal),
        response(true, "Congratulations! Your guess of 0 bugs is correct!", true, false)
    );
    assert_eq!(
        reply(Request::GuessFull { guess: 10 }, Conclusion::Failed(ProverError::InvalidClaim)),
        response(false, "Invalid claim", false, false)
    );
}

#[test]
fn events_out_of_place_leave_a_request_alone() {
    let mut store = GameState::new(Variant::Equality);
    set_secret(&mut store, 7);
    let mut lane = SignerLane::new();
    let (state, _) = verify_guess_full(7, &store, &app_state());
    let waiting = state.clone();
    let (state, action) = state.advance(Event::Reverified(true), &mut lane);
    assert_eq!((state.clone(), action), (waiting.clone(), Action::Ignore));
    let (state, action) = state.advance(Event::Pipeline(SubmissionEvent::Confirmed(receipt())), &mut lane);
    assert_eq!((state, action), (waiting, Action::Ignore));
    // a request that was answered stays answered
    let (state, action) = RequestState::Responded.advance(Event::Reverified(true), &mut lane);
    assert_eq!((state, action), (RequestState::Responded, Action::Ignore));
    let reverifying = RequestState::Reverifying {
        request: Request::GuessFull { guess: 7 },
        result: PublicResult { claim_echo: Some(7), matched: true },
        proof: vec![1],
    };
    let (state, action) = reverifying
        .clone()
        .advance(Event::Pipeline(SubmissionEvent::FeeEstimated(n(1))), &mut lane);
    assert_eq!((state, action), (reverifying, Action::Ignore));
    assert!(!lane.is_busy());
}

#[test]
fn grid_claim_valid_and_anchored() {
    let mut lane = SignerLane::new();
    let request = grid_request(vec![(1, 2, 7)]);
    let (state, action) = generate_and_verify_proof(&request, &app_state());
    assert!(matches!(action, Action::Prove { program: ProgramId::Grid, .. }));
    let (answer, submissions) = run_to_answer(state, action, &mut lane, 3);
    assert_eq!(
        answer,
        Reply::Grid(ProofResponse { is_valid: true, verification_data: Some(receipt()) })
    );
    assert_eq!(submissions, 1);
}

#[test]
fn grid_claim_wrong_is_not_submitted() {
    let mut lane = SignerLane::new();
    for solution in [(1u8, 2u8, 8u8), (2, 1, 10), (4, 4, 7)] {
        let request = grid_request(vec![solution]);
        let (state, action) = generate_and_verify_proof(&request, &app_state());
        let (answer, submissions) = run_to_answer(state, action, &mut lane, 3);
        assert_eq!(answer, Reply::Grid(ProofResponse { is_valid: false, verification_data: None }));
        assert_eq!(submissions, 0);
    }
    assert_eq!(lane.last_confirmed(), None);
}

#[test]
fn grid_claim_malformed_or_unconfigured_is_answered_at_once() {
    let negative = Action::Respond(Reply::Grid(ProofResponse { is_valid: false, verification_data: None }));
    let (state, action) = generate_and_verify_proof(&grid_request(vec![]), &app_state());
    assert_eq!(state, RequestState::Responded);
    assert_eq!(action, negative);
    let mut ragged = grid_request(vec![(1, 2, 7)]);
    ragged.grid[0].push(0);
    let (_, action) = generate_and_verify_proof(&ragged, &app_state());
    assert_eq!(action, negative);
    let mut unconfigured = app_state();
    unconfigured.rpc_url = None;
    let (state, action) = generate_and_verify_proof(&grid_request(vec![(1, 2, 7)]), &unconfigured);
    assert_eq!(state, RequestState::Responded);
    assert_eq!(action, negative);
}

#[test]
fn grid_claim_valid_but_submission_fails() {
    let mut lane = SignerLane::new();
    let request = grid_request(vec![(1, 2, 7)]);
    let (state, action) = generate_and_verify_proof(&request, &app_state());
    let (state, _) = state.advance(prove(&action), &mut lane);
    let (state, _) = state.advance(Event::Reverified(true), &mut lane);
    let (state, action) = state.advance(Event::Pipeline(SubmissionEvent::Failed), &mut lane);
    assert_eq!(state, RequestState::Responded);
    assert_eq!(
        action,
        Action::Respond(Reply::Grid(ProofResponse { is_valid: true, verification_data: None }))
    );
}
