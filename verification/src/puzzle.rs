//! The three puzzle programs, as functions from input bytes to public output
//! bytes. A program reads nothing but its input, and a malformed input gets
//! the program's negative output, never an abort.

use vstd::prelude::*;
use crate::commitment::{commitment_matches, commitment_verdict};
use crate::grid::{corrections_valid, verify_corrections, Correction, GRID_CELLS};
use crate::layout::{
    commitment_input, commitment_input_round_trip, decode_commitment_input, decode_equality_input,
    decode_grid_input, encode_equality_output, encode_flag_output, encode_grid_output,
    equality_input, equality_input_round_trip, equality_output, equality_output_round_trip,
    flag_output, flag_output_round_trip, grid_input, grid_input_round_trip, grid_output,
    grid_output_round_trip, parse_commitment_input, parse_equality_input, parse_equality_output,
    parse_flag_output, parse_grid_input, parse_grid_output, GuessOutput,
};

verus! {

/// The verdict of the equality puzzle: the guess is echoed, and it matches
/// when it is the secret.
pub open spec fn guess_verdict(guess: u32, secret: u32) -> GuessOutput {
    GuessOutput { guess, matched: guess == secret }
}

/// Decides the equality puzzle.
pub fn check_guess(guess: u32, secret: u32) -> (result: GuessOutput)
    ensures
        result == guess_verdict(guess, secret),
        result.matched == (guess == secret),
{
    GuessOutput { guess, matched: guess == secret }
}

/// What the equality program writes for an input: the verdict on the guess
/// and the secret that the input holds, or the guess 0 with no match when
/// the input is malformed.
pub open spec fn equality_program(input: Seq<u8>) -> Seq<u8> {
    match parse_equality_input(input) {
        Some((guess, secret)) => equality_output(guess_verdict(guess, secret)),
        None => equality_output(GuessOutput { guess: 0, matched: false }),
    }
}

/// What a commitment program with the built-in digest `target` writes for
/// an input: whether the guess in the input matches, and no match when the
/// input is malformed.
pub open spec fn commitment_program(target: Seq<u8>, input: Seq<u8>) -> Seq<u8> {
    match parse_commitment_input(input) {
        Some(guess) => flag_output(commitment_matches(target, guess)),
        None => flag_output(false),
    }
}

/// What the grid program writes for an input: whether the corrections in
/// the input repair the grid, and 0 when the input is malformed.
pub open spec fn grid_program(input: Seq<u8>) -> Seq<u8> {
    match parse_grid_input(input) {
        Some((truth, current, corrections)) => grid_output(
            corrections_valid(truth, current, corrections),
        ),
        None => grid_output(false),
    }
}

/// The equality program.
pub fn run_equality(input: &[u8]) -> (output: Vec<u8>)
    ensures
        output@ == equality_program(input@),
{
    match decode_equality_input(input) {
        Some((guess, secret)) => encode_equality_output(check_guess(guess, secret)),
        None => encode_equality_output(GuessOutput { guess: 0, matched: false }),
    }
}

/// The commitment program with the built-in digest `target`.
pub fn run_commitment(target: &[u8; 32], input: &[u8]) -> (output: Vec<u8>)
    ensures
        output@ == commitment_program(target@, input@),
{
    match decode_commitment_input(input) {
        Some(guess) => encode_flag_output(commitment_verdict(target, guess)),
        None => encode_flag_output(false),
    }
}

/// The grid program.
pub fn run_grid(input: &[u8]) -> (output: Vec<u8>)
    ensures
        output@ == grid_program(input@),
{
    match decode_grid_input(input) {
        Some((truth, current, corrections)) => encode_grid_output(
            verify_corrections(&truth, &current, &corrections),
        ),
        None => encode_grid_output(false),
    }
}

/// For every guess and every secret, the public output of the equality
/// program on their input reads back as the guess itself and a match flag
/// that is set exactly when the guess equals the secret.
pub proof fn equality_program_reports_equality(guess: u32, secret: u32)
    ensures
        parse_equality_output(equality_program(equality_input(guess, secret))) == Some(
            GuessOutput { guess, matched: guess == secret },
        ),
{
    equality_input_round_trip(guess, secret);
    equality_output_round_trip(guess_verdict(guess, secret));
}

/// For every built-in digest and every guess, the public output of the
/// commitment program on the guess's input reads back as the verdict of the
/// commitment puzzle.
pub proof fn commitment_program_reports_match(target: Seq<u8>, guess: u32)
    ensures
        parse_flag_output(commitment_program(target, commitment_input(guess))) == Some(
            commitment_matches(target, guess),
        ),
{
    commitment_input_round_trip(guess);
    flag_output_round_trip(commitment_matches(target, guess));
}

/// For every pair of grids and every list of corrections, the public output
/// of the grid program on their input reads back as the verdict of the grid
/// puzzle.
pub proof fn grid_program_reports_validity(
    truth: Seq<u8>,
    current: Seq<u8>,
    corrections: Seq<Correction>,
)
    requires
        truth.len() == GRID_CELLS,
        current.len() == GRID_CELLS,
    ensures
        parse_grid_output(grid_program(grid_input(truth, current, corrections))) == Some(
            corrections_valid(truth, current, corrections),
        ),
{
    grid_input_round_trip(truth, current, corrections);
    grid_output_round_trip(corrections_valid(truth, current, corrections));
}

} // verus!
