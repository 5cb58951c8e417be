//! The byte layouts of the three puzzle programs: what each reads as its
//! input and what it writes to its public output.
//!
//! Inputs. Equality: the guess, then the secret, one word each. Commitment:
//! the guess, one word. Grid: the sixteen cells of the true grid, the
//! sixteen cells of the current grid, then three bytes `x, y, value` for
//! each correction.
//!
//! Outputs. Equality: the guess as a word, then one flag byte. Commitment:
//! one flag byte. Grid: one word, 1 for a valid solution and 0 otherwise.

use vstd::prelude::*;
use crate::grid::{Correction, Grid, GRID_CELLS};
use crate::wire::{get_word, put_word, word_bytes, word_round_trip, word_value};

verus! {

/// What the equality program reports: the guess it was given, and whether
/// the guess is the secret.
#[derive(Clone, Copy, Debug, PartialEq, Eq)]
pub struct GuessOutput {
    pub guess: u32,
    pub matched: bool,
}

/// The byte that stands for a flag.
pub open spec fn flag_byte(flag: bool) -> u8 {
    if flag {
        1
    } else {
        0
    }
}

/// The input of the equality program.
pub open spec fn equality_input(guess: u32, secret: u32) -> Seq<u8> {
    word_bytes(guess) + word_bytes(secret)
}

/// What the equality program's input holds, if it is well formed.
pub open spec fn parse_equality_input(bytes: Seq<u8>) -> Option<(u32, u32)> {
    if bytes.len() == 8 {
        Some((word_value(bytes.subrange(0, 4)), word_value(bytes.subrange(4, 8))))
    } else {
        None
    }
}

/// The input of a commitment program.
pub open spec fn commitment_input(guess: u32) -> Seq<u8> {
    word_bytes(guess)
}

/// What a commitment program's input holds, if it is well formed.
pub open spec fn parse_commitment_input(bytes: Seq<u8>) -> Option<u32> {
    if bytes.len() == 4 {
        Some(word_value(bytes))
    } else {
        None
    }
}

/// The corrections as bytes: `x, y, value` for each, in order.
pub open spec fn correction_bytes(corrections: Seq<Correction>) -> Seq<u8> {
    Seq::new(
        3 * corrections.len(),
        |i: int|
            if i % 3 == 0 {
                corrections[i / 3].x
            } else if i % 3 == 1 {
                corrections[i / 3].y
            } else {
                corrections[i / 3].value
            },
    )
}

/// The corrections that a run of byte triples stands for.
pub open spec fn parse_corrections(bytes: Seq<u8>) -> Seq<Correction> {
    Seq::new(
        bytes.len() / 3,
        |i: int| Correction { x: bytes[3 * i], y: bytes[3 * i + 1], value: bytes[3 * i + 2] },
    )
}

/// The input of the grid program.
pub open spec fn grid_input(truth: Seq<u8>, current: Seq<u8>, corrections: Seq<Correction>) -> Seq<
    u8,
> {
    truth + current + correction_bytes(corrections)
}

/// What the grid program's input holds, if it is well formed: the true
/// grid, the current grid and the corrections.
pub open spec fn parse_grid_input(bytes: Seq<u8>) -> Option<(Seq<u8>, Seq<u8>, Seq<Correction>)> {
    if bytes.len() >= 2 * GRID_CELLS && (bytes.len() - 2 * GRID_CELLS) % 3 == 0 {
        Some(
            (
                bytes.subrange(0, GRID_CELLS as int),
                bytes.subrange(GRID_CELLS as int, 2 * GRID_CELLS),
                parse_corrections(bytes.skip(2 * GRID_CELLS)),
            ),
        )
    } else {
        None
    }
}

/// The public output of the equality program.
pub open spec fn equality_output(result: GuessOutput) -> Seq<u8> {
    word_bytes(result.guess).push(flag_byte(result.matched))
}

/// What a public output of the equality program holds, if it is well
/// formed: five bytes, the last of them 0 or 1.
pub open spec fn parse_equality_output(bytes: Seq<u8>) -> Option<GuessOutput> {
    if bytes.len() == 5 && bytes[4] <= 1 {
        Some(GuessOutput { guess: word_value(bytes.subrange(0, 4)), matched: bytes[4] == 1 })
    } else {
        None
    }
}

/// The public output of a commitment program.
pub open spec fn flag_output(matched: bool) -> Seq<u8> {
    seq![flag_byte(matched)]
}

/// What a public output of a commitment program holds, if it is well
/// formed: one byte, 0 or 1.
pub open spec fn parse_flag_output(bytes: Seq<u8>) -> Option<bool> {
    if bytes.len() == 1 && bytes[0] <= 1 {
        Some(bytes[0] == 1)
    } else {
        None
    }
}

/// The public output of the grid program.
pub open spec fn grid_output(valid: bool) -> Seq<u8> {
    word_bytes(
        if valid {
            1
        } else {
            0
        },
    )
}

/// What a public output of the grid program holds, if it is well formed:
/// one word, 0 or 1.
pub open spec fn parse_grid_output(bytes: Seq<u8>) -> Option<bool> {
    if bytes.len() == 4 && word_value(bytes) <= 1 {
        Some(word_value(bytes) == 1)
    } else {
        None
    }
}

/// Reading an equality input back gives the guess and the secret that were
/// written.
pub proof fn equality_input_round_trip(guess: u32, secret: u32)
    ensures
        parse_equality_input(equality_input(guess, secret)) == Some((guess, secret)),
{
    let bytes = equality_input(guess, secret);
    word_round_trip(guess);
    word_round_trip(secret);
    assert(bytes.subrange(0, 4) =~= word_bytes(guess));
    assert(bytes.subrange(4, 8) =~= word_bytes(secret));
}

/// Reading a commitment input back gives the guess that was written.
pub proof fn commitment_input_round_trip(guess: u32)
    ensures
        parse_commitment_input(commitment_input(guess)) == Some(guess),
{
    word_round_trip(guess);
}

/// Reading corrections back gives the corrections that were written.
pub proof fn corrections_round_trip(corrections: Seq<Correction>)
    ensures
        correction_bytes(corrections).len() == 3 * corrections.len(),
        parse_corrections(correction_bytes(corrections)) == corrections,
{
    let bytes = correction_bytes(corrections);
    let back = parse_corrections(bytes);
    assert(back.len() == corrections.len());
    assert forall|i: int| 0 <= i < corrections.len() implies back[i] == corrections[i] by {
        assert((3 * i) / 3 == i && (3 * i) % 3 == 0);
        assert((3 * i + 1) / 3 == i && (3 * i + 1) % 3 == 1);
        assert((3 * i + 2) / 3 == i && (3 * i + 2) % 3 == 2);
    }
    assert(back =~= corrections);
}

/// Reading a grid input back gives the grids and the corrections that were
/// written.
pub proof fn grid_input_round_trip(truth: Seq<u8>, current: Seq<u8>, corrections: Seq<Correction>)
    requires
        truth.len() == GRID_CELLS,
        current.len() == GRID_CELLS,
    ensures
        parse_grid_input(grid_input(truth, current, corrections)) == Some(
            (truth, current, corrections),
        ),
{
    let bytes = grid_input(truth, current, corrections);
    corrections_round_trip(corrections);
    assert(bytes.len() == 32 + 3 * corrections.len());
    assert(bytes.subrange(0, 16) =~= truth);
    assert(bytes.subrange(16, 32) =~= current);
    assert(bytes.skip(32) =~= correction_bytes(corrections));
}

/// Reading an equality output back gives the result that was written.
pub proof fn equality_output_round_trip(result: GuessOutput)
    ensures
        parse_equality_output(equality_output(result)) == Some(result),
{
    let bytes = equality_output(result);
    word_round_trip(result.guess);
    assert(bytes.subrange(0, 4) =~= word_bytes(result.guess));
}

/// Reading a flag output back gives the flag that was written.
pub proof fn flag_output_round_trip(matched: bool)
    ensures
        parse_flag_output(flag_output(matched)) == Some(matched),
{
}

/// Reading a grid output back gives the verdict that was written.
pub proof fn grid_output_round_trip(valid: bool)
    ensures
        parse_grid_output(grid_output(valid)) == Some(valid),
{
    word_round_trip(1);
    word_round_trip(0);
}

/// Writes the input of the equality program.
pub fn encode_equality_input(guess: u32, secret: u32) -> (bytes: Vec<u8>)
    ensures
        bytes@ == equality_input(guess, secret),
{
    let mut bytes: Vec<u8> = Vec::new();
    put_word(&mut bytes, guess);
    put_word(&mut bytes, secret);
    assert(bytes@ =~= equality_input(guess, secret));
    bytes
}

/// Reads the input of the equality program: the guess and the secret.
pub fn decode_equality_input(bytes: &[u8]) -> (parsed: Option<(u32, u32)>)
    ensures
        parsed == parse_equality_input(bytes@),
{
    if bytes.len() != 8 {
        return None;
    }
    let guess = get_word(bytes, 0);
    let secret = get_word(bytes, 4);
    Some((guess, secret))
}

/// Writes the input of a commitment program.
pub fn encode_commitment_input(guess: u32) -> (bytes: Vec<u8>)
    ensures
        bytes@ == commitment_input(guess),
{
    let mut bytes: Vec<u8> = Vec::new();
    put_word(&mut bytes, guess);
    assert(bytes@ =~= commitment_input(guess));
    bytes
}

/// Reads the input of a commitment program: the guess.
pub fn decode_commitment_input(bytes: &[u8]) -> (parsed: Option<u32>)
    ensures
        parsed == parse_commitment_input(bytes@),
{
    if bytes.len() != 4 {
        return None;
    }
    let guess = get_word(bytes, 0);
    assert(bytes@.subrange(0, 4) =~= bytes@);
    Some(guess)
}

/// Writes the input of the grid program.
pub fn encode_grid_input(truth: &Grid, current: &Grid, corrections: &Vec<Correction>) -> (bytes:
    Vec<u8>)
    ensures
        bytes@ == grid_input(truth@, current@, corrections@),
{
    let mut bytes: Vec<u8> = Vec::new();
    let mut i: usize = 0;
    while i < GRID_CELLS
        invariant
            i <= GRID_CELLS,
            bytes@ == truth@.take(i as int),
        decreases GRID_CELLS - i,
    {
        bytes.push(truth.cells[i]);
        assert(bytes@ =~= truth@.take(i + 1));
        i += 1;
    }
    assert(truth@.take(16) =~= truth@);
    i = 0;
    while i < GRID_CELLS
        invariant
            i <= GRID_CELLS,
            bytes@ == truth@ + current@.take(i as int),
        decreases GRID_CELLS - i,
    {
        bytes.push(current.cells[i]);
        assert(bytes@ =~= truth@ + current@.take(i + 1));
        i += 1;
    }
    assert(current@.take(16) =~= current@);
    i = 0;
    assert(bytes@ =~= truth@ + current@ + correction_bytes(corrections@.take(0)));
    while i < corrections.len()
        invariant
            i <= corrections.len(),
            bytes@ == truth@ + current@ + correction_bytes(corrections@.take(i as int)),
        decreases corrections.len() - i,
    {
        let c: Correction = corrections[i];
        bytes.push(c.x);
        bytes.push(c.y);
        bytes.push(c.value);
        proof {
            let before = correction_bytes(corrections@.take(i as int));
            let after = correction_bytes(corrections@.take(i + 1));
            assert(after.len() == before.len() + 3);
            assert forall|k: int| 0 <= k < after.len() implies after[k] == (before + seq![
                c.x,
                c.y,
                c.value,
            ])[k] by {
                if k < before.len() {
                    assert(k / 3 < i);
                } else {
                    assert(k / 3 == i);
                }
            }
            assert(after =~= before + seq![c.x, c.y, c.value]);
            assert(bytes@ =~= truth@ + current@ + after);
        }
        i += 1;
    }
    assert(corrections@.take(i as int) =~= corrections@);
    bytes
}

/// Reads the input of the grid program: the true grid, the current grid and
/// the corrections.
pub fn decode_grid_input(bytes: &[u8]) -> (parsed: Option<(Grid, Grid, Vec<Correction>)>)
    ensures
        match parsed {
            Some((truth, current, corrections)) => parse_grid_input(bytes@) == Some(
                (truth@, current@, corrections@),
            ),
            None => parse_grid_input(bytes@) is None,
        },
{
    if bytes.len() < 2 * GRID_CELLS || (bytes.len() - 2 * GRID_CELLS) % 3 != 0 {
        return None;
    }
    let mut truth = Grid { cells: [0u8;16] };
    let mut current = Grid { cells: [0u8;16] };
    let mut i: usize = 0;
    while i < 16
        invariant
            i <= 16,
            bytes@.len() >= 32,
            forall|k: int| 0 <= k < i ==> truth@[k] == bytes@[k],
            forall|k: int| 0 <= k < i ==> current@[k] == bytes@.subrange(16, 32)[k],
        decreases 16 - i,
    {
        let t: u8 = bytes[i];
        let c: u8 = bytes[i + 16];
        let ghost before = current@;
        truth.cells[i] = t;
        current.cells[i] = c;
        assert(current@ == before.update(i as int, c));
        assert(current@[i as int] == bytes@.subrange(16, 32)[i as int]);
        i += 1;
    }
    assert(truth@ =~= bytes@.subrange(0, 16));
    assert(current@ =~= bytes@.subrange(16, 32));
    let count: usize = (bytes.len() - 32) / 3;
    let mut corrections: Vec<Correction> = Vec::new();
    let ghost tail = bytes@.skip(32);
    i = 0;
    while i < count
        invariant
            i <= count,
            3 * count + 32 == bytes@.len(),
            bytes@.len() <= usize::MAX,
            tail == bytes@.skip(32),
            corrections@.len() == i,
            forall|k: int| 0 <= k < i ==> corrections@[k] == parse_corrections(tail)[k],
        decreases count - i,
    {
        let at: usize = 32 + 3 * i;
        corrections.push(Correction { x: bytes[at], y: bytes[at + 1], value: bytes[at + 2] });
        i += 1;
    }
    assert(corrections@ =~= parse_corrections(tail));
    Some((truth, current, corrections))
}

/// Writes the public output of the equality program.
pub fn encode_equality_output(result: GuessOutput) -> (bytes: Vec<u8>)
    ensures
        bytes@ == equality_output(result),
{
    let mut bytes: Vec<u8> = Vec::new();
    put_word(&mut bytes, result.guess);
    bytes.push(if result.matched {
        1
    } else {
        0
    });
    assert(bytes@ =~= equality_output(result));
    bytes
}

/// Reads a public output of the equality program.
pub fn decode_equality_output(bytes: &[u8]) -> (parsed: Option<GuessOutput>)
    ensures
        parsed == parse_equality_output(bytes@),
{
    if bytes.len() != 5 || bytes[4] > 1 {
        return None;
    }
    let guess = get_word(bytes, 0);
    Some(GuessOutput { guess, matched: bytes[4] == 1 })
}

/// Writes the public output of a commitment program.
pub fn encode_flag_output(matched: bool) -> (bytes: Vec<u8>)
    ensures
        bytes@ == flag_output(matched),
{
    let mut bytes: Vec<u8> = Vec::new();
    bytes.push(if matched {
        1
    } else {
        0
    });
    assert(bytes@ =~= flag_output(matched));
    bytes
}

/// Reads a public output of a commitment program.
pub fn decode_flag_output(bytes: &[u8]) -> (parsed: Option<bool>)
    ensures
        parsed == parse_flag_output(bytes@),
{
    if bytes.len() != 1 || bytes[0] > 1 {
        return None;
    }
    Some(bytes[0] == 1)
}

/// Writes the public output of the grid program.
pub fn encode_grid_output(valid: bool) -> (bytes: Vec<u8>)
    ensures
        bytes@ == grid_output(valid),
{
    let mut bytes: Vec<u8> = Vec::new();
    put_word(&mut bytes, if valid {
        1
    } else {
        0
    });
    assert(bytes@ =~= grid_output(valid));
    bytes
}

/// Reads a public output of the grid program.
pub fn decode_grid_output(bytes: &[u8]) -> (parsed: Option<bool>)
    ensures
        parsed == parse_grid_output(bytes@),
{
    if bytes.len() != 4 {
        return None;
    }
    let word = get_word(bytes, 0);
    assert(bytes@.subrange(0, 4) =~= bytes@);
    if word > 1 {
        return None;
    }
    Some(word == 1)
}

} // verus!
