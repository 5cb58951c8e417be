//! The proof orchestrator: it turns a claim into a proving job, and the
//! outcome of proving and of the independent re-verification into a public
//! result that can be relied on, or into the error that says what went
//! wrong. Proving and re-verification themselves happen outside.

use vstd::prelude::*;
use crate::commitment::{admissible, commitment_matches, is_admissible, target_of};
use crate::grid::{corrections_valid, Grid, GRID_CELLS};
use crate::puzzle::{
    commitment_program, commitment_program_reports_match, equality_program,
    equality_program_reports_equality, grid_program, grid_program_reports_validity,
};
use crate::layout::{
    commitment_input, decode_equality_output, decode_flag_output, decode_grid_output,
    encode_commitment_input, encode_equality_input, encode_grid_input, equality_input, grid_input,
    parse_equality_output, parse_flag_output, parse_grid_output,
};
use crate::store::Variant;
use crate::types::ProofRequest;

verus! {

/// Which program a job runs.
#[derive(Clone, Copy, Debug, PartialEq, Eq)]
pub enum ProgramId {
    /// The equality program.
    Equality,
    /// The commitment program of the given secret.
    Commitment { secret: u32 },
    /// The grid program.
    Grid,
}

/// Why the proving capability produced no proof.
#[derive(Clone, Copy, Debug, PartialEq, Eq)]
pub enum FailureCause {
    ResourceExhausted,
    /// There is no program for what was asked, or not the expected one.
    ProgramMismatch,
    /// The program refused its input.
    InputRejected,
    TimedOut,
    Cancelled,
    Other,
}

/// What can go wrong between a claim and a checked public result.
#[derive(Clone, Copy, Debug, PartialEq, Eq)]
pub enum ProverError {
    /// The claim is malformed or outside the puzzle's domain. Nothing was
    /// proved.
    InvalidClaim,
    /// The proving capability produced no proof.
    ProofGenerationFailed(FailureCause),
    /// There is a proof, but it does not stand: its public output is not a
    /// result for this claim, or the proof failed re-verification.
    ProofInvalid,
}

/// The verdict that a proof carries.
#[derive(Clone, Copy, Debug, PartialEq, Eq)]
pub struct PublicResult {
    /// The guess that the program echoed, if it echoes one.
    pub claim_echo: Option<u32>,
    /// Whether the claim is right.
    pub matched: bool,
}

/// A proving job: the program to run and, for a guessing game, the guess
/// that the job is about.
#[derive(Clone, Copy, Debug, PartialEq, Eq)]
pub struct ProofJob {
    pub program: ProgramId,
    pub claim: Option<u32>,
}

/// What the proving capability handed back.
#[derive(Clone, Debug, PartialEq, Eq)]
pub enum ProvingOutcome {
    /// No proof.
    Failed(FailureCause),
    /// A proof, and the bytes on its public output.
    Produced { public_output: Vec<u8>, proof: Vec<u8> },
}

/// A public result together with the proof that backs it. It is handed out
/// only for a proof that passed re-verification.
#[derive(Clone, Debug, PartialEq, Eq)]
pub struct CheckedProof {
    pub result: PublicResult,
    pub proof: Vec<u8>,
}

/// The job and the program input for a guess, or the reason why there is
/// none. The claim is judged first: under the commitment variant a guess
/// outside the admissible domain is an invalid claim. A secret without a
/// program is a failure of proof generation, found before anything is run.
pub open spec fn guess_job(variant: Variant, guess: u32, secret: u32) -> Result<
    (ProofJob, Seq<u8>),
    ProverError,
> {
    match variant {
        Variant::Equality => Ok(
            (
                ProofJob { program: ProgramId::Equality, claim: Some(guess) },
                equality_input(guess, secret),
            ),
        ),
        Variant::Commitment => if !admissible(guess) {
            Err(ProverError::InvalidClaim)
        } else if !admissible(secret) {
            Err(ProverError::ProofGenerationFailed(FailureCause::ProgramMismatch))
        } else {
            Ok(
                (
                    ProofJob { program: ProgramId::Commitment { secret }, claim: Some(guess) },
                    commitment_input(guess),
                ),
            )
        },
    }
}

/// The job and the program input for a grid claim against the true grid, or
/// an invalid claim if the request has not the shape of one.
pub open spec fn grid_job(truth: Seq<u8>, request: ProofRequest) -> Result<
    (ProofJob, Seq<u8>),
    ProverError,
> {
    if request.well_shaped() {
        Ok(
            (
                ProofJob { program: ProgramId::Grid, claim: None },
                grid_input(truth, request.cells(), request.corrections()),
            ),
        )
    } else {
        Err(ProverError::InvalidClaim)
    }
}

/// The public result that a job's public output stands for. An output that
/// is not in the program's layout, or that echoes another guess than the
/// job's, makes the proof invalid.
pub open spec fn read_output(job: ProofJob, output: Seq<u8>) -> Result<PublicResult, ProverError> {
    match job.program {
        ProgramId::Equality => match parse_equality_output(output) {
            Some(out) => if job.claim == Some(out.guess) {
                Ok(PublicResult { claim_echo: Some(out.guess), matched: out.matched })
            } else {
                Err(ProverError::ProofInvalid)
            },
            None => Err(ProverError::ProofInvalid),
        },
        ProgramId::Commitment { .. } => match parse_flag_output(output) {
            Some(matched) => Ok(PublicResult { claim_echo: None, matched }),
            None => Err(ProverError::ProofInvalid),
        },
        ProgramId::Grid => match parse_grid_output(output) {
            Some(matched) => Ok(PublicResult { claim_echo: None, matched }),
            None => Err(ProverError::ProofInvalid),
        },
    }
}

/// What a job comes to, given what the proving capability produced (the
/// public output, or the cause of failure) and whether the proof passed
/// re-verification.
pub open spec fn checked_result(
    job: ProofJob,
    produced: Result<Seq<u8>, FailureCause>,
    reverified: bool,
) -> Result<PublicResult, ProverError> {
    match produced {
        Err(cause) => Err(ProverError::ProofGenerationFailed(cause)),
        Ok(output) => match read_output(job, output) {
            Err(e) => Err(e),
            Ok(result) => if reverified {
                Ok(result)
            } else {
                Err(ProverError::ProofInvalid)
            },
        },
    }
}

impl ProvingOutcome {
    /// What was produced: the public output, or the cause of failure.
    pub open spec fn produced(&self) -> Result<Seq<u8>, FailureCause> {
        match self {
            ProvingOutcome::Failed(cause) => Err(*cause),
            ProvingOutcome::Produced { public_output, .. } => Ok(public_output@),
        }
    }
}

/// Prepares the proving job for a guess: the job and the program input.
pub fn prepare_guess(variant: Variant, guess: u32, secret: u32) -> (prepared: Result<
    (ProofJob, Vec<u8>),
    ProverError,
>)
    ensures
        match prepared {
            Ok((job, input)) => guess_job(variant, guess, secret) == Ok::<
                (ProofJob, Seq<u8>),
                ProverError,
            >((job, input@)),
            Err(e) => guess_job(variant, guess, secret) == Err::<(ProofJob, Seq<u8>), ProverError>(
                e,
            ),
        },
{
    match variant {
        Variant::Equality => Ok(
            (
                ProofJob { program: ProgramId::Equality, claim: Some(guess) },
                encode_equality_input(guess, secret),
            ),
        ),
        Variant::Commitment => {
            if !is_admissible(guess) {
                Err(ProverError::InvalidClaim)
            } else if !is_admissible(secret) {
                Err(ProverError::ProofGenerationFailed(FailureCause::ProgramMismatch))
            } else {
                Ok(
                    (
                        ProofJob { program: ProgramId::Commitment { secret }, claim: Some(guess) },
                        encode_commitment_input(guess),
                    ),
                )
            }
        },
    }
}

/// Prepares the proving job for a grid claim: the job and the program
/// input.
pub fn prepare_grid(truth: &Grid, request: &ProofRequest) -> (prepared: Result<
    (ProofJob, Vec<u8>),
    ProverError,
>)
    ensures
        match prepared {
            Ok((job, input)) => grid_job(truth@, *request) == Ok::<
                (ProofJob, Seq<u8>),
                ProverError,
            >((job, input@)),
            Err(e) => grid_job(truth@, *request) == Err::<(ProofJob, Seq<u8>), ProverError>(e),
        },
{
    match request.claim() {
        None => Err(ProverError::InvalidClaim),
        Some((current, corrections)) => Ok(
            (
                ProofJob { program: ProgramId::Grid, claim: None },
                encode_grid_input(truth, &current, &corrections),
            ),
        ),
    }
}

/// Reads the public result off a job's public output.
pub fn read_public_output(job: &ProofJob, output: &[u8]) -> (result: Result<
    PublicResult,
    ProverError,
>)
    ensures
        result == read_output(*job, output@),
{
    match job.program {
        ProgramId::Equality => match decode_equality_output(output) {
            Some(out) => {
                let echoed = match job.claim {
                    Some(guess) => guess == out.guess,
                    None => false,
                };
                if echoed {
                    Ok(PublicResult { claim_echo: Some(out.guess), matched: out.matched })
                } else {
                    Err(ProverError::ProofInvalid)
                }
            },
            None => Err(ProverError::ProofInvalid),
        },
        ProgramId::Commitment { .. } => match decode_flag_output(output) {
            Some(matched) => Ok(PublicResult { claim_echo: None, matched }),
            None => Err(ProverError::ProofInvalid),
        },
        ProgramId::Grid => match decode_grid_output(output) {
            Some(matched) => Ok(PublicResult { claim_echo: None, matched }),
            None => Err(ProverError::ProofInvalid),
        },
    }
}

/// Concludes a job from the outcome of proving and of re-verification. The
/// public result is handed out, with its proof, only if a proof was
/// produced, its public output is a result for this job, and the proof
/// passed re-verification. A proof that failed re-verification is reported
/// as invalid whatever its public output says.
pub fn generate_and_verify_local(job: &ProofJob, outcome: ProvingOutcome, reverified: bool) -> (checked:
    Result<CheckedProof, ProverError>)
    ensures
        match checked {
            Ok(done) => {
                &&& checked_result(*job, outcome.produced(), reverified) == Ok::<
                    PublicResult,
                    ProverError,
                >(done.result)
                &&& outcome matches ProvingOutcome::Produced { proof, .. } && done.proof@ == proof@
            },
            Err(e) => checked_result(*job, outcome.produced(), reverified) == Err::<
                PublicResult,
                ProverError,
            >(e),
        },
        outcome is Produced && !reverified ==> checked == Err::<CheckedProof, ProverError>(
            ProverError::ProofInvalid,
        ),
{
    match outcome {
        ProvingOutcome::Failed(cause) => Err(ProverError::ProofGenerationFailed(cause)),
        ProvingOutcome::Produced { public_output, proof } => {
            match read_public_output(job, public_output.as_slice()) {
                Err(e) => Err(e),
                Ok(result) => {
                    if reverified {
                        Ok(CheckedProof { result, proof })
                    } else {
                        Err(ProverError::ProofInvalid)
                    }
                },
            }
        },
    }
}

/// Under the equality variant, the public output of a run of the prepared
/// program input is read as the echo of the guess and a match exactly when
/// the guess is the secret.
pub proof fn equality_run_is_read_as_its_verdict(guess: u32, secret: u32)
    ensures
        guess_job(Variant::Equality, guess, secret) matches Ok((job, input)) && read_output(
            job,
            equality_program(input),
        ) == Ok::<PublicResult, ProverError>(
            PublicResult { claim_echo: Some(guess), matched: guess == secret },
        ),
{
    equality_program_reports_equality(guess, secret);
}

/// Under the commitment variant, the public output of a run of the prepared
/// program input on the program instance of the secret is read as that
/// instance's verdict on the guess.
pub proof fn commitment_run_is_read_as_its_verdict(guess: u32, secret: u32)
    requires
        admissible(guess),
        admissible(secret),
    ensures
        guess_job(Variant::Commitment, guess, secret) matches Ok((job, input)) && read_output(
            job,
            commitment_program(target_of(secret), input),
        ) == Ok::<PublicResult, ProverError>(
            PublicResult { claim_echo: None, matched: commitment_matches(target_of(secret), guess) },
        ),
{
    commitment_program_reports_match(target_of(secret), guess);
}

/// For a well-shaped grid request, the public output of a run of the
/// prepared program input is read as the verdict of the grid puzzle on the
/// true grid, the request's grid and the request's corrections.
pub proof fn grid_run_is_read_as_its_verdict(truth: Seq<u8>, request: ProofRequest)
    requires
        truth.len() == GRID_CELLS,
        request.well_shaped(),
    ensures
        grid_job(truth, request) matches Ok((job, input)) && read_output(job, grid_program(input))
            == Ok::<PublicResult, ProverError>(
            PublicResult {
                claim_echo: None,
                matched: corrections_valid(truth, request.cells(), request.corrections()),
            },
        ),
{
    grid_program_reports_validity(truth, request.cells(), request.corrections());
}

/// A proof that failed re-verification never yields a public result: the
/// job ends in an error, and for a proof that was produced the error is
/// `ProofInvalid`, whatever its public output claims.
pub proof fn failed_reverification_is_never_a_match(
    job: ProofJob,
    produced: Result<Seq<u8>, FailureCause>,
)
    ensures
        checked_result(job, produced, false) is Err,
        produced is Ok ==> checked_result(job, produced, false) == Err::<
            PublicResult,
            ProverError,
        >(ProverError::ProofInvalid),
{
}

} // verus!
