//! The verification record, the unit that is handed to the verification
//! service, and its byte framing.
//!
//! Framing: the proving system as a word; the proof as a blob; the twenty
//! bytes of the prover's address; then the program code, the verification
//! key and the public input, each as an optional blob. A blob is its length
//! as a 64-bit number followed by its bytes. An optional blob is the byte 0,
//! or the byte 1 followed by the blob.

use vstd::prelude::*;
use crate::wire::{
    get_bytes, get_long, get_word, long_bytes, long_round_trip, long_value, put_bytes, put_long,
    put_word, word_bytes, word_round_trip, word_value,
};

verus! {

/// The proving systems that the verification service knows.
#[derive(Clone, Copy, Debug, PartialEq, Eq)]
pub enum ProvingSystemId {
    GnarkPlonkBls12_381,
    GnarkPlonkBn254,
    Groth16Bn254,
    SP1,
    Risc0,
}

/// What is submitted for verification.
#[derive(Clone, Debug, PartialEq, Eq)]
pub struct VerificationRecord {
    pub proving_system: ProvingSystemId,
    pub proof: Vec<u8>,
    pub proof_generator_addr: [u8; 20],
    pub vm_program_code: Option<Vec<u8>>,
    pub verification_key: Option<Vec<u8>>,
    pub pub_input: Option<Vec<u8>>,
}

/// The mathematical content of a `VerificationRecord`.
pub struct RecordView {
    pub proving_system: ProvingSystemId,
    pub proof: Seq<u8>,
    pub proof_generator_addr: Seq<u8>,
    pub vm_program_code: Option<Seq<u8>>,
    pub verification_key: Option<Seq<u8>>,
    pub pub_input: Option<Seq<u8>>,
}

/// The content of an optional byte vector.
pub open spec fn optional_view(bytes: Option<Vec<u8>>) -> Option<Seq<u8>> {
    match bytes {
        Some(b) => Some(b@),
        None => None,
    }
}

impl View for VerificationRecord {
    type V = RecordView;

    open spec fn view(&self) -> RecordView {
        RecordView {
            proving_system: self.proving_system,
            proof: self.proof@,
            proof_generator_addr: self.proof_generator_addr@,
            vm_program_code: optional_view(self.vm_program_code),
            verification_key: optional_view(self.verification_key),
            pub_input: optional_view(self.pub_input),
        }
    }
}

/// The word that stands for a proving system.
pub open spec fn system_tag(system: ProvingSystemId) -> u32 {
    match system {
        ProvingSystemId::GnarkPlonkBls12_381 => 0,
        ProvingSystemId::GnarkPlonkBn254 => 1,
        ProvingSystemId::Groth16Bn254 => 2,
        ProvingSystemId::SP1 => 3,
        ProvingSystemId::Risc0 => 4,
    }
}

/// The proving system that a word stands for, if any.
pub open spec fn system_of(tag: u32) -> Option<ProvingSystemId> {
    if tag == 0 {
        Some(ProvingSystemId::GnarkPlonkBls12_381)
    } else if tag == 1 {
        Some(ProvingSystemId::GnarkPlonkBn254)
    } else if tag == 2 {
        Some(ProvingSystemId::Groth16Bn254)
    } else if tag == 3 {
        Some(ProvingSystemId::SP1)
    } else if tag == 4 {
        Some(ProvingSystemId::Risc0)
    } else {
        None
    }
}

/// The framing of a blob.
pub open spec fn blob_bytes(blob: Seq<u8>) -> Seq<u8> {
    long_bytes(blob.len() as u64) + blob
}

/// The blob at the front of `bytes`, and what follows it.
pub open spec fn parse_blob(bytes: Seq<u8>) -> Option<(Seq<u8>, Seq<u8>)> {
    if bytes.len() >= 8 && long_value(bytes.subrange(0, 8)) <= bytes.len() - 8 {
        let length = long_value(bytes.subrange(0, 8)) as int;
        Some((bytes.subrange(8, 8 + length), bytes.skip(8 + length)))
    } else {
        None
    }
}

/// The framing of an optional blob.
pub open spec fn optional_bytes(blob: Option<Seq<u8>>) -> Seq<u8> {
    match blob {
        None => seq![0u8],
        Some(b) => seq![1u8] + blob_bytes(b),
    }
}

/// The optional blob at the front of `bytes`, and what follows it.
pub open spec fn parse_optional(bytes: Seq<u8>) -> Option<(Option<Seq<u8>>, Seq<u8>)> {
    if bytes.len() == 0 {
        None
    } else if bytes[0] == 0 {
        Some((None, bytes.skip(1)))
    } else if bytes[0] == 1 {
        match parse_blob(bytes.skip(1)) {
            Some((blob, rest)) => Some((Some(blob), rest)),
            None => None,
        }
    } else {
        None
    }
}

/// The framing of a record.
pub open spec fn record_bytes(record: RecordView) -> Seq<u8> {
    word_bytes(system_tag(record.proving_system)) + blob_bytes(record.proof)
        + record.proof_generator_addr + optional_bytes(record.vm_program_code) + optional_bytes(
        record.verification_key,
    ) + optional_bytes(record.pub_input)
}

/// What follows the proving system and the proof of a record.
pub open spec fn parse_record_tail(
    proving_system: ProvingSystemId,
    proof: Seq<u8>,
    bytes: Seq<u8>,
) -> Option<RecordView> {
    if bytes.len() < 20 {
        None
    } else {
        match parse_optional(bytes.skip(20)) {
            None => None,
            Some((vm_program_code, after_code)) => match parse_optional(after_code) {
                None => None,
                Some((verification_key, after_key)) => match parse_optional(after_key) {
                    None => None,
                    Some((pub_input, rest)) => if rest.len() == 0 {
                        Some(
                            RecordView {
                                proving_system,
                                proof,
                                proof_generator_addr: bytes.subrange(0, 20),
                                vm_program_code,
                                verification_key,
                                pub_input,
                            },
                        )
                    } else {
                        None
                    },
                },
            },
        }
    }
}

/// The record that `bytes` frame, if they frame one and nothing follows it.
pub open spec fn parse_record(bytes: Seq<u8>) -> Option<RecordView> {
    if bytes.len() < 4 {
        None
    } else {
        match system_of(word_value(bytes.subrange(0, 4))) {
            None => None,
            Some(proving_system) => match parse_blob(bytes.skip(4)) {
                None => None,
                Some((proof, rest)) => parse_record_tail(proving_system, proof, rest),
            },
        }
    }
}

/// The sizes of a record's parts fit its framing: the address has twenty
/// bytes and every length fits 64 bits.
pub open spec fn well_formed(record: RecordView) -> bool {
    &&& record.proof_generator_addr.len() == 20
    &&& record.proof.len() <= u64::MAX
    &&& fits(record.vm_program_code)
    &&& fits(record.verification_key)
    &&& fits(record.pub_input)
}

/// The length of an optional blob fits 64 bits.
pub open spec fn fits(blob: Option<Seq<u8>>) -> bool {
    match blob {
        Some(b) => b.len() <= u64::MAX,
        None => true,
    }
}

/// A framed blob, whatever follows it, reads back as the blob and what
/// follows.
pub proof fn blob_round_trip(blob: Seq<u8>, rest: Seq<u8>)
    requires
        blob.len() <= u64::MAX,
    ensures
        parse_blob(blob_bytes(blob) + rest) == Some((blob, rest)),
{
    let bytes = blob_bytes(blob) + rest;
    long_round_trip(blob.len() as u64);
    assert(bytes.subrange(0, 8) =~= long_bytes(blob.len() as u64));
    let length = blob.len() as int;
    assert(bytes.subrange(8, 8 + length) =~= blob);
    assert(bytes.skip(8 + length) =~= rest);
}

/// A framed optional blob, whatever follows it, reads back as the optional
/// blob and what follows.
pub proof fn optional_round_trip(blob: Option<Seq<u8>>, rest: Seq<u8>)
    requires
        fits(blob),
    ensures
        parse_optional(optional_bytes(blob) + rest) == Some((blob, rest)),
{
    let bytes = optional_bytes(blob) + rest;
    match blob {
        None => {
            assert(bytes.skip(1) =~= rest);
        },
        Some(b) => {
            assert(bytes.skip(1) =~= blob_bytes(b) + rest);
            blob_round_trip(b, rest);
        },
    }
}

/// What follows the proof in a framed record reads back as the rest of the
/// record.
proof fn record_tail_round_trip(record: RecordView)
    requires
        well_formed(record),
    ensures
        parse_record_tail(
            record.proving_system,
            record.proof,
            record.proof_generator_addr + optional_bytes(record.vm_program_code) + optional_bytes(
                record.verification_key,
            ) + optional_bytes(record.pub_input),
        ) == Some(record),
{
    let code = optional_bytes(record.vm_program_code);
    let key = optional_bytes(record.verification_key);
    let input = optional_bytes(record.pub_input);
    let tail = record.proof_generator_addr + code + key + input;
    assert(tail.len() >= 20);
    assert(tail.subrange(0, 20) =~= record.proof_generator_addr);
    assert(tail.skip(20) =~= code + (key + input));
    optional_round_trip(record.vm_program_code, key + input);
    optional_round_trip(record.verification_key, input);
    assert(input =~= input + Seq::<u8>::empty());
    optional_round_trip(record.pub_input, Seq::<u8>::empty());
}

/// Framing a record and reading the bytes back gives the same record: the
/// same proving system, the proof byte for byte, the same address, program
/// code, verification key and public input.
pub proof fn record_round_trip(record: RecordView)
    requires
        well_formed(record),
    ensures
        parse_record(record_bytes(record)) == Some(record),
{
    let bytes = record_bytes(record);
    let tag = system_tag(record.proving_system);
    let head = word_bytes(tag);
    let blob = blob_bytes(record.proof);
    let tail = record.proof_generator_addr + optional_bytes(record.vm_program_code)
        + optional_bytes(record.verification_key) + optional_bytes(record.pub_input);
    word_round_trip(tag);
    assert(bytes == head + (blob + tail)) by {
        regroup(
            head,
            blob,
            record.proof_generator_addr,
            optional_bytes(record.vm_program_code),
            optional_bytes(record.verification_key),
            optional_bytes(record.pub_input),
        );
    }
    split_at_front(head, blob + tail);
    assert(system_of(word_value(head)) == Some(record.proving_system));
    blob_round_trip(record.proof, tail);
    record_tail_round_trip(record);
}

/// The front of a concatenation is its first part, and what follows the
/// front is its second part.
proof fn split_at_front(front: Seq<u8>, back: Seq<u8>)
    ensures
        (front + back).subrange(0, front.len() as int) == front,
        (front + back).skip(front.len() as int) == back,
{
    assert((front + back).subrange(0, front.len() as int) =~= front);
    assert((front + back).skip(front.len() as int) =~= back);
}

/// Six parts joined from the left are the first part joined with the rest.
proof fn regroup(a: Seq<u8>, b: Seq<u8>, c: Seq<u8>, d: Seq<u8>, e: Seq<u8>, f: Seq<u8>)
    ensures
        a + b + c + d + e + f == a + (b + (c + d + e + f)),
{
    assert(a + b + c + d + e + f =~= a + (b + (c + d + e + f)));
}

impl ProvingSystemId {
    /// The word that stands for the proving system.
    pub fn tag(&self) -> (tag: u32)
        ensures
            tag == system_tag(*self),
    {
        match self {
            ProvingSystemId::GnarkPlonkBls12_381 => 0,
            ProvingSystemId::GnarkPlonkBn254 => 1,
            ProvingSystemId::Groth16Bn254 => 2,
            ProvingSystemId::SP1 => 3,
            ProvingSystemId::Risc0 => 4,
        }
    }

    /// The proving system that `tag` stands for, if any.
    pub fn from_tag(tag: u32) -> (system: Option<ProvingSystemId>)
        ensures
            system == system_of(tag),
    {
        if tag == 0 {
            Some(ProvingSystemId::GnarkPlonkBls12_381)
        } else if tag == 1 {
            Some(ProvingSystemId::GnarkPlonkBn254)
        } else if tag == 2 {
            Some(ProvingSystemId::Groth16Bn254)
        } else if tag == 3 {
            Some(ProvingSystemId::SP1)
        } else if tag == 4 {
            Some(ProvingSystemId::Risc0)
        } else {
            None
        }
    }
}

/// Appends the framing of a blob to `out`.
fn put_blob(out: &mut Vec<u8>, blob: &Vec<u8>)
    ensures
        final(out)@ == old(out)@ + blob_bytes(blob@),
        blob@.len() <= u64::MAX,
{
    put_long(out, blob.len() as u64);
    put_bytes(out, blob.as_slice());
    assert(out@ =~= old(out)@ + blob_bytes(blob@));
}

/// Appends the framing of an optional blob to `out`.
fn put_optional(out: &mut Vec<u8>, blob: &Option<Vec<u8>>)
    ensures
        final(out)@ == old(out)@ + optional_bytes(optional_view(*blob)),
        fits(optional_view(*blob)),
{
    match blob {
        None => {
            out.push(0);
            assert(out@ =~= old(out)@ + optional_bytes(None));
        },
        Some(b) => {
            out.push(1);
            put_blob(out, b);
            assert(out@ =~= old(out)@ + optional_bytes(Some(b@)));
        },
    }
}

/// Reads the blob framed at `bytes[at..]`: the blob and the position after
/// it.
fn take_blob(bytes: &[u8], at: usize) -> (taken: Option<(Vec<u8>, usize)>)
    requires
        at <= bytes.len(),
    ensures
        match taken {
            Some((blob, next)) => at <= next <= bytes.len() && parse_blob(bytes@.skip(at as int))
                == Some((blob@, bytes@.skip(next as int))),
            None => parse_blob(bytes@.skip(at as int)) is None,
        },
{
    let ghost tail = bytes@.skip(at as int);
    if bytes.len() - at < 8 {
        return None;
    }
    let length = get_long(bytes, at);
    assert(bytes@.subrange(at as int, at + 8) =~= tail.subrange(0, 8));
    if length > (bytes.len() - at - 8) as u64 {
        return None;
    }
    let from: usize = at + 8;
    let to: usize = from + length as usize;
    let blob = get_bytes(bytes, from, to);
    assert(blob@ =~= tail.subrange(8, 8 + length));
    assert(bytes@.skip(to as int) =~= tail.skip(8 + length));
    Some((blob, to))
}

/// Reads the optional blob framed at `bytes[at..]`: the optional blob and
/// the position after it.
fn take_optional(bytes: &[u8], at: usize) -> (taken: Option<(Option<Vec<u8>>, usize)>)
    requires
        at <= bytes.len(),
    ensures
        match taken {
            Some((blob, next)) => at <= next <= bytes.len() && parse_optional(
                bytes@.skip(at as int),
            ) == Some((optional_view(blob), bytes@.skip(next as int))),
            None => parse_optional(bytes@.skip(at as int)) is None,
        },
{
    let ghost tail = bytes@.skip(at as int);
    if at == bytes.len() {
        return None;
    }
    let flag: u8 = bytes[at];
    assert(tail[0] == flag);
    assert(tail.skip(1) =~= bytes@.skip(at + 1));
    if flag == 0 {
        Some((None, at + 1))
    } else if flag == 1 {
        match take_blob(bytes, at + 1) {
            Some((blob, next)) => Some((Some(blob), next)),
            None => None,
        }
    } else {
        None
    }
}

impl VerificationRecord {
    /// The record for a proof of the SP1 proving system: the proof, the
    /// program that was proved, and the prover's address; no verification
    /// key and no public input.
    pub fn sp1(proof: Vec<u8>, program: Vec<u8>, prover: [u8; 20]) -> (record: VerificationRecord)
        ensures
            record@ == (RecordView {
                proving_system: ProvingSystemId::SP1,
                proof: proof@,
                proof_generator_addr: prover@,
                vm_program_code: Some(program@),
                verification_key: None,
                pub_input: None,
            }),
    {
        VerificationRecord {
            proving_system: ProvingSystemId::SP1,
            proof,
            proof_generator_addr: prover,
            vm_program_code: Some(program),
            verification_key: None,
            pub_input: None,
        }
    }

    /// Frames the record.
    pub fn encode(&self) -> (bytes: Vec<u8>)
        ensures
            bytes@ == record_bytes(self@),
            well_formed(self@),
            parse_record(bytes@) == Some(self@),
    {
        let mut bytes: Vec<u8> = Vec::new();
        put_word(&mut bytes, self.proving_system.tag());
        put_blob(&mut bytes, &self.proof);
        let mut i: usize = 0;
        let ghost head = bytes@;
        while i < 20
            invariant
                i <= 20,
                bytes@ == head + self.proof_generator_addr@.take(i as int),
            decreases 20 - i,
        {
            bytes.push(self.proof_generator_addr[i]);
            assert(bytes@ =~= head + self.proof_generator_addr@.take(i + 1));
            i += 1;
        }
        assert(self.proof_generator_addr@.take(20) =~= self.proof_generator_addr@);
        put_optional(&mut bytes, &self.vm_program_code);
        put_optional(&mut bytes, &self.verification_key);
        put_optional(&mut bytes, &self.pub_input);
        proof {
            assert(bytes@ =~= record_bytes(self@));
            record_round_trip(self@);
        }
        bytes
    }

    /// Reads a framed record. There is a record exactly when the bytes
    /// frame one and nothing follows it.
    pub fn decode(bytes: &[u8]) -> (decoded: Option<VerificationRecord>)
        ensures
            match decoded {
                Some(record) => parse_record(bytes@) == Some(record@),
                None => parse_record(bytes@) is None,
            },
    {
        if bytes.len() < 4 {
            return None;
        }
        let tag = get_word(bytes, 0);
        let proving_system = match ProvingSystemId::from_tag(tag) {
            Some(system) => system,
            None => {
                return None;
            },
        };
        let (proof, at) = match take_blob(bytes, 4) {
            Some(taken) => taken,
            None => {
                return None;
            },
        };
        let ghost rest = bytes@.skip(at as int);
        if bytes.len() - at < 20 {
            return None;
        }
        let mut proof_generator_addr: [u8; 20] = [0u8;20];
        let mut i: usize = 0;
        while i < 20
            invariant
                i <= 20,
                at + 20 <= bytes.len(),
                forall|k: int| 0 <= k < i ==> proof_generator_addr@[k] == bytes@[at + k],
            decreases 20 - i,
        {
            let value: u8 = bytes[at + i];
            proof_generator_addr[i] = value;
            i += 1;
        }
        assert(proof_generator_addr@ =~= rest.subrange(0, 20));
        assert(rest.skip(20) =~= bytes@.skip(at + 20));
        let (vm_program_code, after_code) = match take_optional(bytes, at + 20) {
            Some(taken) => taken,
            None => {
                return None;
            },
        };
        let (verification_key, after_key) = match take_optional(bytes, after_code) {
            Some(taken) => taken,
            None => {
                return None;
            },
        };
        let (pub_input, end) = match take_optional(bytes, after_key) {
            Some(taken) => taken,
            None => {
                return None;
            },
        };
        if end != bytes.len() {
            return None;
        }
        Some(
            VerificationRecord {
                proving_system,
                proof,
                proof_generator_addr,
                vm_program_code,
                verification_key,
                pub_input,
            },
        )
    }
}

} // verus!
