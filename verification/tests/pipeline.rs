use zk_service::orchestrator::{
    generate_and_verify_local, prepare_grid, prepare_guess, read_public_output, CheckedProof,
    FailureCause, ProgramId, ProofJob, ProverError, ProvingOutcome, PublicResult,
};
use zk_service::grid::Grid;
use zk_service::store::{GameState, StoreError, Variant};
use zk_service::submission::{
    deposit_to_batcher, Fault, SignerLane, Stage, SubmissionAction, SubmissionError,
    SubmissionEvent, SubmissionReceipt, SubmissionState, DEPOSIT_WEI,
};
use zk_service::types::ProofRequest;
use zk_service::uint::Uint256;

fn n(value: u64) -> Uint256 {
    Uint256::from_u64(value)
}

fn receipt(tag: u8) -> SubmissionReceipt {
    SubmissionReceipt { batch_merkle_root: [tag; 32] }
}

fn failed(stage: Stage, fault: Fault) -> SubmissionAction {
    SubmissionAction::Finish(Err(SubmissionError { stage, fault }))
}

/// Drives a fresh pipeline up to the point where it waits for the nonce.
fn up_to_nonce(lane: &mut SignerLane, fee: u64) -> SubmissionState {
    let (s, a) = SubmissionState::Start.advance(SubmissionEvent::Begin, lane);
    assert_eq!(a, SubmissionAction::QueryBalance);
    let (s, a) = s.advance(SubmissionEvent::Balance(n(DEPOSIT_WEI)), lane);
    assert_eq!(a, SubmissionAction::EstimateFee);
    let (s, a) = s.advance(SubmissionEvent::FeeEstimated(n(fee)), lane);
    assert_eq!(a, SubmissionAction::AcquireNonce);
    s
}

#[test]
fn store_starts_empty_and_keeps_the_last_secret() {
    let mut store = GameState::new(Variant::Equality);
    assert_eq!(store.get_secret(), None);
    assert_eq!(store.get_variant(), Variant::Equality);
    assert_eq!(store.set_secret(7), Ok(()));
    assert_eq!(store.get_secret(), Some(7));
    assert_eq!(store.set_secret(1000), Ok(()));
    assert_eq!(store.get_secret(), Some(1000));
    assert_eq!(store.set_secret(0), Ok(()));
    assert_eq!(store.get_secret(), Some(0));
}

#[test]
fn store_of_commitment_variant_refuses_values_without_program() {
    let mut store = GameState::new(Variant::Commitment);
    assert_eq!(store.set_secret(4), Err(StoreError::OutOfDomain));
    assert_eq!(store.get_secret(), None);
    assert_eq!(store.set_secret(5), Ok(()));
    assert_eq!(store.set_secret(11), Err(StoreError::OutOfDomain));
    assert_eq!(store.get_secret(), Some(5));
    assert_eq!(store.set_secret(10), Ok(()));
    assert_eq!(store.get_secret(), Some(10));
}

#[test]
fn uint256_orders_by_value() {
    let small = n(u64::MAX);
    let big = Uint256 { w0: 0, w1: 1, w2: 0, w3: 0 };
    let bigger = Uint256 { w0: 0, w1: 0, w2: 0, w3: 1 };
    assert!(small.lt(&big));
    assert!(!big.lt(&small));
    assert!(big.lt(&bigger));
    assert!(!bigger.lt(&big));
    assert!(!big.lt(&big));
    assert!(n(3).lt(&n(4)));
    assert!(!n(4).lt(&n(3)));
    assert!(Uint256 { w0: 9, w1: 1, w2: 2, w3: 3 }.lt(&Uint256 { w0: 0, w1: 2, w2: 2, w3: 3 }));
    assert!(big.same(&Uint256::from_limbs([0, 1, 0, 0])));
    assert!(!big.same(&bigger));
    assert_eq!(Uint256::from_limbs([1, 2, 3, 4]).limbs(), [1, 2, 3, 4]);
    assert_eq!(Uint256::from_limbs([1, 2, 3, 4]), Uint256 { w0: 1, w1: 2, w2: 3, w3: 4 });
    assert_eq!(n(5), Uint256 { w0: 5, w1: 0, w2: 0, w3: 0 });
}

#[test]
fn submission_runs_its_stages_in_order() {
    let mut lane = SignerLane::new();
    assert!(!lane.is_busy());
    assert_eq!(lane.last_confirmed(), None);
    let s = up_to_nonce(&mut lane, 100);
    assert_eq!(s, SubmissionState::AwaitingNonce { max_fee: n(100) });
    assert!(lane.is_busy());
    let (s, a) = s.advance(SubmissionEvent::NonceAcquired(n(3)), &mut lane);
    assert_eq!(a, SubmissionAction::Submit { max_fee: n(100), nonce: n(3) });
    assert_eq!(s, SubmissionState::AwaitingConfirmation { max_fee: n(100), nonce: n(3) });
    let (s, a) = s.advance(SubmissionEvent::Confirmed(receipt(1)), &mut lane);
    assert_eq!(a, SubmissionAction::Finish(Ok(receipt(1))));
    assert_eq!(s, SubmissionState::Done);
    assert!(!lane.is_busy());
    assert_eq!(lane.last_confirmed(), Some(n(3)));
}

#[test]
fn submission_tops_up_a_low_balance() {
    let mut lane = SignerLane::new();
    let (s, _) = SubmissionState::Start.advance(SubmissionEvent::Begin, &mut lane);
    let (s, a) = s.advance(SubmissionEvent::Balance(n(DEPOSIT_WEI - 1)), &mut lane);
    assert_eq!(a, SubmissionAction::Fund { amount: n(4_000_000_000_000_000) });
    assert_eq!(s, SubmissionState::AwaitingFunding);
    let (s, a) = s.advance(deposit_to_batcher(Some([7; 32])), &mut lane);
    assert_eq!(a, SubmissionAction::EstimateFee);
    assert_eq!(s, SubmissionState::AwaitingFee);
}

#[test]
fn submission_skips_funding_with_a_large_balance() {
    let mut lane = SignerLane::new();
    let (s, _) = SubmissionState::Start.advance(SubmissionEvent::Begin, &mut lane);
    let large = Uint256 { w0: 0, w1: 0, w2: 1, w3: 0 };
    let (s, a) = s.advance(SubmissionEvent::Balance(large), &mut lane);
    assert_eq!(a, SubmissionAction::EstimateFee);
    assert_eq!(s, SubmissionState::AwaitingFee);
}

#[test]
fn funding_without_receipt_fails_the_funding_stage() {
    assert_eq!(deposit_to_batcher(None), SubmissionEvent::Funded(false));
    assert_eq!(deposit_to_batcher(Some([0; 32])), SubmissionEvent::Funded(true));
    let mut lane = SignerLane::new();
    let (s, _) = SubmissionState::Start.advance(SubmissionEvent::Begin, &mut lane);
    let (s, _) = s.advance(SubmissionEvent::Balance(n(0)), &mut lane);
    let (s, a) = s.advance(deposit_to_batcher(None), &mut lane);
    assert_eq!(a, failed(Stage::Funding, Fault::Rejected));
    assert_eq!(s, SubmissionState::Done);
    assert!(!lane.is_busy());
}

#[test]
fn each_stage_reports_itself_on_failure_and_timeout() {
    for (event, fault) in [
        (SubmissionEvent::Failed, Fault::Rejected),
        (SubmissionEvent::TimedOut, Fault::TimedOut),
        (SubmissionEvent::Cancelled, Fault::Cancelled),
    ] {
        // balance query
        let mut lane = SignerLane::new();
        let (s, _) = SubmissionState::Start.advance(SubmissionEvent::Begin, &mut lane);
        let (_, a) = s.advance(event, &mut lane);
        assert_eq!(a, failed(Stage::Funding, fault));
        // funding transfer
        let (s, _) = SubmissionState::Start.advance(SubmissionEvent::Begin, &mut lane);
        let (s, _) = s.advance(SubmissionEvent::Balance(n(1)), &mut lane);
        let (_, a) = s.advance(event, &mut lane);
        assert_eq!(a, failed(Stage::Funding, fault));
        // fee estimate
        let (s, _) = SubmissionState::Start.advance(SubmissionEvent::Begin, &mut lane);
        let (s, _) = s.advance(SubmissionEvent::Balance(n(DEPOSIT_WEI)), &mut lane);
        let (_, a) = s.advance(event, &mut lane);
        assert_eq!(a, failed(Stage::FeeEstimate, fault));
        assert!(!lane.is_busy());
        // nonce
        let s = up_to_nonce(&mut lane, 1);
        assert!(lane.is_busy());
        let (_, a) = s.advance(event, &mut lane);
        assert_eq!(a, failed(Stage::Nonce, fault));
        assert!(!lane.is_busy());
        // submit and wait
        let s = up_to_nonce(&mut lane, 1);
        let (s, _) = s.advance(SubmissionEvent::NonceAcquired(n(1)), &mut lane);
        let (s, a) = s.advance(event, &mut lane);
        assert_eq!(a, failed(Stage::SubmitWait, fault));
        assert_eq!(s, SubmissionState::Done);
        assert!(!lane.is_busy());
        assert_eq!(lane.last_confirmed(), None);
    }
}

#[test]
fn events_out_of_place_change_nothing() {
    let mut lane = SignerLane::new();
    for state in [SubmissionState::Start, SubmissionState::Done] {
        for event in [
            SubmissionEvent::Failed,
            SubmissionEvent::TimedOut,
            SubmissionEvent::Cancelled,
            SubmissionEvent::Funded(true),
            SubmissionEvent::FeeEstimated(n(1)),
            SubmissionEvent::NonceAcquired(n(1)),
            SubmissionEvent::Confirmed(receipt(0)),
            SubmissionEvent::SignerFree,
        ] {
            assert_eq!(state.advance(event, &mut lane), (state, SubmissionAction::Ignore));
        }
    }
    let (s, a) = SubmissionState::AwaitingFee.advance(SubmissionEvent::Begin, &mut lane);
    assert_eq!((s, a), (SubmissionState::AwaitingFee, SubmissionAction::Ignore));
    let (s, a) = SubmissionState::AwaitingFee.advance(SubmissionEvent::Confirmed(receipt(0)), &mut lane);
    assert_eq!((s, a), (SubmissionState::AwaitingFee, SubmissionAction::Ignore));
    assert!(!lane.is_busy());
    assert_eq!(lane.last_confirmed(), None);
}

#[test]
fn second_pipeline_waits_while_the_lane_is_taken() {
    let mut lane = SignerLane::new();
    let first = up_to_nonce(&mut lane, 10);
    // a second request of the same signer reaches the nonce stage
    let (second, _) = SubmissionState::Start.advance(SubmissionEvent::Begin, &mut lane);
    let (second, _) = second.advance(SubmissionEvent::Balance(n(DEPOSIT_WEI)), &mut lane);
    let (second, a) = second.advance(SubmissionEvent::FeeEstimated(n(20)), &mut lane);
    assert_eq!(a, SubmissionAction::WaitForSigner);
    assert_eq!(second, SubmissionState::AwaitingSigner { max_fee: n(20) });
    let (second, a) = second.advance(SubmissionEvent::SignerFree, &mut lane);
    assert_eq!(a, SubmissionAction::WaitForSigner);
    // the first one submits with nonce 5 and is confirmed
    let (first, a) = first.advance(SubmissionEvent::NonceAcquired(n(5)), &mut lane);
    assert_eq!(a, SubmissionAction::Submit { max_fee: n(10), nonce: n(5) });
    let (_, a) = first.advance(SubmissionEvent::Confirmed(receipt(1)), &mut lane);
    assert_eq!(a, SubmissionAction::Finish(Ok(receipt(1))));
    // now the second one gets in, and its nonce must be greater
    let (second, a) = second.advance(SubmissionEvent::SignerFree, &mut lane);
    assert_eq!(a, SubmissionAction::AcquireNonce);
    let (second, a) = second.advance(SubmissionEvent::NonceAcquired(n(6)), &mut lane);
    assert_eq!(a, SubmissionAction::Submit { max_fee: n(20), nonce: n(6) });
    let (_, a) = second.advance(SubmissionEvent::Confirmed(receipt(2)), &mut lane);
    assert_eq!(a, SubmissionAction::Finish(Ok(receipt(2))));
    assert_eq!(lane.last_confirmed(), Some(n(6)));
}

#[test]
fn waiting_for_the_lane_can_time_out() {
    let mut lane = SignerLane::new();
    let _holder = up_to_nonce(&mut lane, 10);
    let (s, _) = SubmissionState::Start.advance(SubmissionEvent::Begin, &mut lane);
    let (s, _) = s.advance(SubmissionEvent::Balance(n(DEPOSIT_WEI)), &mut lane);
    let (s, _) = s.advance(SubmissionEvent::FeeEstimated(n(20)), &mut lane);
    let (s, a) = s.advance(SubmissionEvent::TimedOut, &mut lane);
    assert_eq!(a, failed(Stage::Nonce, Fault::TimedOut));
    assert_eq!(s, SubmissionState::Done);
    // the holder keeps the lane
    assert!(lane.is_busy());
}

#[test]
fn stale_and_repeated_nonces_are_refused() {
    let mut lane = SignerLane::new();
    let s = up_to_nonce(&mut lane, 1);
    let (s, _) = s.advance(SubmissionEvent::NonceAcquired(n(5)), &mut lane);
    let (_, a) = s.advance(SubmissionEvent::Confirmed(receipt(1)), &mut lane);
    assert_eq!(a, SubmissionAction::Finish(Ok(receipt(1))));
    assert!(!lane.admits(&n(5)));
    assert!(!lane.admits(&n(4)));
    assert!(lane.admits(&n(6)));
    for stale in [5u64, 4, 0] {
        let s = up_to_nonce(&mut lane, 1);
        let (s, a) = s.advance(SubmissionEvent::NonceAcquired(n(stale)), &mut lane);
        assert_eq!(a, failed(Stage::Nonce, Fault::Rejected));
        assert_eq!(s, SubmissionState::Done);
        assert!(!lane.is_busy());
        assert_eq!(lane.last_confirmed(), Some(n(5)));
    }
}

#[test]
fn failed_submission_does_not_use_up_its_nonce() {
    let mut lane = SignerLane::new();
    let s = up_to_nonce(&mut lane, 1);
    let (s, _) = s.advance(SubmissionEvent::NonceAcquired(n(5)), &mut lane);
    let (_, a) = s.advance(SubmissionEvent::Failed, &mut lane);
    assert_eq!(a, failed(Stage::SubmitWait, Fault::Rejected));
    // the same nonce is handed out again and goes through
    let s = up_to_nonce(&mut lane, 1);
    let (s, a) = s.advance(SubmissionEvent::NonceAcquired(n(5)), &mut lane);
    assert_eq!(a, SubmissionAction::Submit { max_fee: n(1), nonce: n(5) });
    let (_, a) = s.advance(SubmissionEvent::Confirmed(receipt(3)), &mut lane);
    assert_eq!(a, SubmissionAction::Finish(Ok(receipt(3))));
}

#[test]
fn confirmed_nonces_strictly_increase() {
    let mut lane = SignerLane::new();
    let mut confirmed: Vec<u64> = Vec::new();
    for nonce in [3u64, 3, 2, 7, 7, 100, 99, 101, 0, u64::MAX] {
        let s = up_to_nonce(&mut lane, 1);
        let (s, a) = s.advance(SubmissionEvent::NonceAcquired(n(nonce)), &mut lane);
        if let SubmissionAction::Submit { .. } = a {
            let (_, a) = s.advance(SubmissionEvent::Confirmed(receipt(0)), &mut lane);
            assert_eq!(a, SubmissionAction::Finish(Ok(receipt(0))));
            confirmed.push(nonce);
        }
        assert!(!lane.is_busy());
    }
    assert_eq!(confirmed, vec![3, 7, 100, 101, u64::MAX]);
    for pair in confirmed.windows(2) {
        assert!(pair[0] < pair[1]);
    }
}

#[test]
fn guess_jobs_of_the_equality_variant() {
    let (job, input) = prepare_guess(Variant::Equality, 7, 5).unwrap();
    assert_eq!(job, ProofJob { program: ProgramId::Equality, claim: Some(7) });
    assert_eq!(input, vec![7, 0, 0, 0, 5, 0, 0, 0]);
    // any guess is a claim under this variant
    let (job, input) = prepare_guess(Variant::Equality, 4_000_000_000, 0).unwrap();
    assert_eq!(job.claim, Some(4_000_000_000));
    assert_eq!(input, vec![0x00, 0x28, 0x6B, 0xEE, 0, 0, 0, 0]);
}

#[test]
fn guess_jobs_of_the_commitment_variant() {
    let (job, input) = prepare_guess(Variant::Commitment, 7, 5).unwrap();
    assert_eq!(job, ProofJob { program: ProgramId::Commitment { secret: 5 }, claim: Some(7) });
    assert_eq!(input, vec![7, 0, 0, 0]);
    assert_eq!(prepare_guess(Variant::Commitment, 4, 5), Err(ProverError::InvalidClaim));
    assert_eq!(prepare_guess(Variant::Commitment, 11, 5), Err(ProverError::InvalidClaim));
    assert_eq!(
        prepare_guess(Variant::Commitment, 7, 11),
        Err(ProverError::ProofGenerationFailed(FailureCause::ProgramMismatch))
    );
    // the claim is judged first
    assert_eq!(prepare_guess(Variant::Commitment, 11, 11), Err(ProverError::InvalidClaim));
}

#[test]
fn grid_jobs_need_a_well_shaped_request() {
    let truth = Grid { cells: [1, 2, 3, 4, 5, 6, 7, 8, 9, 10, 11, 12, 13, 14, 15, 16] };
    let request = ProofRequest {
        grid: vec![vec![1, 2, 3, 4], vec![5, 6, 0, 8], vec![9, 10, 11, 12], vec![13, 14, 15, 16]],
        solution: vec![(1, 2, 7)],
    };
    let (job, input) = prepare_grid(&truth, &request).unwrap();
    assert_eq!(job, ProofJob { program: ProgramId::Grid, claim: None });
    assert_eq!(input.len(), 35);
    assert_eq!(&input[..16], &truth.cells);
    assert_eq!(&input[16..32], &[1, 2, 3, 4, 5, 6, 0, 8, 9, 10, 11, 12, 13, 14, 15, 16]);
    assert_eq!(&input[32..], &[1, 2, 7]);
    let (grid, corrections) = request.claim().unwrap();
    assert_eq!(grid.cells[6], 0);
    assert_eq!(corrections.len(), 1);

    let mut short_row = request.clone();
    short_row.grid[2].pop();
    assert_eq!(prepare_grid(&truth, &short_row), Err(ProverError::InvalidClaim));
    let mut missing_row = request.clone();
    missing_row.grid.pop();
    assert_eq!(prepare_grid(&truth, &missing_row), Err(ProverError::InvalidClaim));
    let mut no_solution = request.clone();
    no_solution.solution.clear();
    assert_eq!(prepare_grid(&truth, &no_solution), Err(ProverError::InvalidClaim));
    let mut two = request.clone();
    two.solution.push((0, 0, 1));
    assert_eq!(prepare_grid(&truth, &two), Err(ProverError::InvalidClaim));
    assert!(two.claim().is_none());
    // a coordinate outside the grid is a claim, and a wrong one
    let mut outside = request.clone();
    outside.solution[0] = (9, 9, 7);
    assert!(prepare_grid(&truth, &outside).is_ok());
}

#[test]
fn public_output_is_read_per_program() {
    let equality = ProofJob { program: ProgramId::Equality, claim: Some(7) };
    assert_eq!(
        read_public_output(&equality, &[7, 0, 0, 0, 1]),
        Ok(PublicResult { claim_echo: Some(7), matched: true })
    );
    assert_eq!(
        read_public_output(&equality, &[7, 0, 0, 0, 0]),
        Ok(PublicResult { claim_echo: Some(7), matched: false })
    );
    // the result of another claim
    assert_eq!(read_public_output(&equality, &[8, 0, 0, 0, 1]), Err(ProverError::ProofInvalid));
    assert_eq!(read_public_output(&equality, &[7, 0, 0, 0, 3]), Err(ProverError::ProofInvalid));
    assert_eq!(read_public_output(&equality, &[1]), Err(ProverError::ProofInvalid));
    let commitment = ProofJob { program: ProgramId::Commitment { secret: 7 }, claim: Some(7) };
    assert_eq!(
        read_public_output(&commitment, &[1]),
        Ok(PublicResult { claim_echo: None, matched: true })
    );
    assert_eq!(read_public_output(&commitment, &[7, 0, 0, 0, 1]), Err(ProverError::ProofInvalid));
    let grid = ProofJob { program: ProgramId::Grid, claim: None };
    assert_eq!(
        read_public_output(&grid, &[1, 0, 0, 0]),
        Ok(PublicResult { claim_echo: None, matched: true })
    );
    assert_eq!(
        read_public_output(&grid, &[0, 0, 0, 0]),
        Ok(PublicResult { claim_echo: None, matched: false })
    );
    assert_eq!(read_public_output(&grid, &[2, 0, 0, 0]), Err(ProverError::ProofInvalid));
}

#[test]
fn checked_proof_needs_generation_and_reverification() {
    let job = ProofJob { program: ProgramId::Equality, claim: Some(7) };
    let produced = |matched: u8| ProvingOutcome::Produced {
        public_output: vec![7, 0, 0, 0, matched],
        proof: vec![0xAB, 0xCD],
    };
    assert_eq!(
        generate_and_verify_local(&job, produced(1), true),
        Ok(CheckedProof {
            result: PublicResult { claim_echo: Some(7), matched: true },
            proof: vec![0xAB, 0xCD],
        })
    );
    assert_eq!(
        generate_and_verify_local(&job, produced(0), true),
        Ok(CheckedProof {
            result: PublicResult { claim_echo: Some(7), matched: false },
            proof: vec![0xAB, 0xCD],
        })
    );
    for cause in [
        FailureCause::ResourceExhausted,
        FailureCause::ProgramMismatch,
        FailureCause::InputRejected,
        FailureCause::TimedOut,
        FailureCause::Cancelled,
        FailureCause::Other,
    ] {
        for reverified in [true, false] {
            assert_eq!(
                generate_and_verify_local(&job, ProvingOutcome::Failed(cause), reverified),
                Err(ProverError::ProofGenerationFailed(cause))
            );
        }
    }
}

#[test]
fn tampered_proof_is_invalid_whatever_it_claims() {
    let job = ProofJob { program: ProgramId::Equality, claim: Some(7) };
    for matched in [0u8, 1] {
        let outcome = ProvingOutcome::Produced {
            public_output: vec![7, 0, 0, 0, matched],
            proof: vec![1, 2, 3],
        };
        assert_eq!(
            generate_and_verify_local(&job, outcome, false),
            Err(ProverError::ProofInvalid)
        );
    }
    let garbled = ProvingOutcome::Produced { public_output: vec![1, 2], proof: vec![] };
    assert_eq!(generate_and_verify_local(&job, garbled, true), Err(ProverError::ProofInvalid));
}
