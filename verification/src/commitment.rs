//! The commitment variant of the guessing game. The secret is not an input
//! of the program: each admissible secret has a program instance of its own,
//! with the SHA3-256 digest of the secret's decimal text built in, and the
//! program compares the digest of the guess with it.

use vstd::prelude::*;
use crate::hash::{sha3_256, sha3_256_digest};
use crate::text::{decimal_ascii, decimal_bytes};

verus! {

/// The smallest admissible secret.
pub const MIN_SECRET: u32 = 5;

/// The greatest admissible secret.
pub const MAX_SECRET: u32 = 10;

/// The values that can be a secret of the commitment variant, and the
/// guesses that its programs take.
pub open spec fn admissible(value: u32) -> bool {
    MIN_SECRET <= value <= MAX_SECRET
}

/// Whether `value` lies in the admissible domain.
pub fn is_admissible(value: u32) -> (ok: bool)
    ensures
        ok == admissible(value),
{
    MIN_SECRET <= value && value <= MAX_SECRET
}

/// The commitment to `value`: the SHA3-256 digest of its decimal text.
pub open spec fn commitment(value: u32) -> Seq<u8> {
    sha3_256(decimal_bytes(value as nat))
}

/// The digest that is built into the program instance of the admissible
/// secret `value`.
pub open spec fn target_of(value: u32) -> Seq<u8>
    recommends
        admissible(value),
{
    if value == 5 {
        seq![
            134, 188, 86, 252, 86, 175, 76, 60,
            222, 2, 18, 130, 246, 183, 39, 238,
            159, 144, 221, 99, 110, 11, 12, 113,
            42, 133, 212, 22, 199, 94, 101, 45,
        ]
    } else if value == 6 {
        seq![
            12, 103, 53, 73, 129, 233, 6, 137,
            5, 104, 11, 87, 137, 138, 212, 240,
            75, 153, 60, 99, 235, 102, 170, 63,
            25, 205, 253, 199, 29, 136, 7, 126,
        ]
    } else if value == 7 {
        seq![
            143, 155, 81, 206, 98, 79, 1, 176,
            164, 12, 159, 104, 186, 139, 176, 162,
            192, 106, 167, 249, 93, 30, 210, 125,
            107, 27, 94, 30, 153, 238, 94, 77,
        ]
    } else if value == 8 {
        seq![
            209, 74, 50, 154, 25, 36, 89, 47,
            175, 45, 75, 166, 220, 114, 125, 89,
            175, 106, 250, 233, 131, 160, 194, 8,
            191, 152, 2, 55, 182, 58, 90, 106,
        ]
    } else if value == 9 {
        seq![
            118, 9, 67, 9, 116, 176, 135, 89,
            84, 136, 193, 84, 191, 92, 7, 152,
            135, 234, 208, 232, 239, 212, 5, 92,
            209, 54, 253, 169, 106, 92, 203, 248,
        ]
    } else {
        seq![
            221, 18, 30, 54, 150, 26, 4, 98,
            126, 172, 255, 98, 151, 101, 221, 53,
            40, 71, 30, 215, 69, 193, 227, 34,
            34, 219, 74, 138, 95, 52, 33, 196,
        ]
    }
}

/// Every built-in digest is the commitment to its secret.
pub open spec fn targets_genuine() -> bool {
    forall|value: u32| admissible(value) ==> #[trigger] commitment(value) == target_of(value)
}

/// No two admissible secrets share a built-in digest.
pub proof fn targets_distinct(a: u32, b: u32)
    requires
        admissible(a),
        admissible(b),
        target_of(a) == target_of(b),
    ensures
        a == b,
{
    assert(target_of(a)[0] == target_of(b)[0]);
}

/// With genuine built-in digests, the program instance of an admissible
/// secret reports a match for exactly one guess, the secret itself. Every
/// other guess, inside the admissible domain or outside it, is reported as
/// no match.
pub proof fn only_the_secret_matches(secret: u32, guess: u32)
    requires
        admissible(secret),
        targets_genuine(),
    ensures
        commitment_matches(target_of(secret), guess) <==> guess == secret,
{
    if admissible(guess) && commitment(guess) == target_of(secret) {
        assert(commitment(guess) == target_of(guess));
        targets_distinct(guess, secret);
    }
    if guess == secret {
        assert(commitment(secret) == target_of(secret));
    }
}

/// What a program instance with the built-in digest `target` reports for
/// `guess`: a guess outside the admissible domain is no match, whatever its
/// digest; a guess inside it matches when its commitment is the target.
pub open spec fn commitment_matches(target: Seq<u8>, guess: u32) -> bool {
    admissible(guess) && commitment(guess) == target
}

/// The commitment to `value`.
pub fn commit(value: u32) -> (digest: [u8; 32])
    ensures
        digest@ == commitment(value),
{
    let text = decimal_ascii(value);
    sha3_256_digest(text.as_slice())
}

/// Whether two digests are equal byte for byte.
pub fn same_digest(a: &[u8; 32], b: &[u8; 32]) -> (same: bool)
    ensures
        same == (a@ == b@),
{
    let mut i: usize = 0;
    while i < 32
        invariant
            i <= 32,
            forall|k: int| 0 <= k < i ==> a@[k] == b@[k],
        decreases 32 - i,
    {
        if a[i] != b[i] {
            return false;
        }
        i += 1;
    }
    assert(a@ =~= b@);
    true
}

/// The digest built into the program instance of `value`.
pub fn target(value: u32) -> (digest: [u8; 32])
    requires
        admissible(value),
    ensures
        digest@ == target_of(value),
{
    let digest: [u8; 32] = if value == 5 {
        [
            134, 188, 86, 252, 86, 175, 76, 60,
            222, 2, 18, 130, 246, 183, 39, 238,
            159, 144, 221, 99, 110, 11, 12, 113,
            42, 133, 212, 22, 199, 94, 101, 45,
        ]
    } else if value == 6 {
        [
            12, 103, 53, 73, 129, 233, 6, 137,
            5, 104, 11, 87, 137, 138, 212, 240,
            75, 153, 60, 99, 235, 102, 170, 63,
            25, 205, 253, 199, 29, 136, 7, 126,
        ]
    } else if value == 7 {
        [
            143, 155, 81, 206, 98, 79, 1, 176,
            164, 12, 159, 104, 186, 139, 176, 162,
            192, 106, 167, 249, 93, 30, 210, 125,
            107, 27, 94, 30, 153, 238, 94, 77,
        ]
    } else if value == 8 {
        [
            209, 74, 50, 154, 25, 36, 89, 47,
            175, 45, 75, 166, 220, 114, 125, 89,
            175, 106, 250, 233, 131, 160, 194, 8,
            191, 152, 2, 55, 182, 58, 90, 106,
        ]
    } else if value == 9 {
        [
            118, 9, 67, 9, 116, 176, 135, 89,
            84, 136, 193, 84, 191, 92, 7, 152,
            135, 234, 208, 232, 239, 212, 5, 92,
            209, 54, 253, 169, 106, 92, 203, 248,
        ]
    } else {
        [
            221, 18, 30, 54, 150, 26, 4, 98,
            126, 172, 255, 98, 151, 101, 221, 53,
            40, 71, 30, 215, 69, 193, 227, 34,
            34, 219, 74, 138, 95, 52, 33, 196,
        ]
    };

    assert(digest@ =~= target_of(value));
    digest
}

/// The verdict of the program instance with the built-in digest `target` on
/// the input `guess`.
pub fn commitment_verdict(target: &[u8; 32], guess: u32) -> (matched: bool)
    ensures
        matched == commitment_matches(target@, guess),
{
    if !is_admissible(guess) {
        return false;
    }
    let digest = commit(guess);
    same_digest(&digest, target)
}

/// One program instance: an admissible secret and the digest built in for it.
#[derive(Clone, Copy, Debug, PartialEq, Eq)]
pub struct ProgramInstance {
    pub secret: u32,
    pub target: [u8; 32],
}

/// A built-in digest that is not the commitment to its secret.
#[derive(Clone, Copy, Debug, PartialEq, Eq)]
pub struct RegistryError {
    pub value: u32,
}

/// The program instances of all admissible secrets, each checked against
/// the digest function when the registry was built.
pub struct ProgramRegistry {
    instances: Vec<ProgramInstance>,
}

impl ProgramRegistry {
    #[verifier::type_invariant]
    spec fn checked(self) -> bool {
        &&& self.instances@.len() == MAX_SECRET - MIN_SECRET + 1
        &&& forall|i: int|
            0 <= i < self.instances@.len() ==> {
                &&& (#[trigger] self.instances@[i]).secret == MIN_SECRET + i
                &&& self.instances@[i].target@ == target_of(self.instances@[i].secret)
                &&& self.instances@[i].target@ == commitment(self.instances@[i].secret)
            }
    }

    /// Builds the registry: computes the commitment to each admissible
    /// secret and holds it against the built-in digest. The first secret
    /// whose digest differs is reported.
    pub fn build() -> (built: Result<ProgramRegistry, RegistryError>)
        ensures
            match built {
                Ok(_) => targets_genuine(),
                Err(e) => {
                    &&& admissible(e.value)
                    &&& commitment(e.value) != target_of(e.value)
                    &&& forall|v: u32|
                        MIN_SECRET <= v < e.value ==> #[trigger] commitment(v) == target_of(v)
                },
            },
    {
        let mut instances: Vec<ProgramInstance> = Vec::new();
        let mut value: u32 = MIN_SECRET;
        while value <= MAX_SECRET
            invariant
                MIN_SECRET <= value <= MAX_SECRET + 1,
                instances@.len() == value - MIN_SECRET,
                forall|i: int|
                    0 <= i < instances@.len() ==> {
                        &&& (#[trigger] instances@[i]).secret == MIN_SECRET + i
                        &&& instances@[i].target@ == target_of(instances@[i].secret)
                        &&& instances@[i].target@ == commitment(instances@[i].secret)
                    },
            decreases MAX_SECRET + 1 - value,
        {
            let built_in = target(value);
            let digest = commit(value);
            if !same_digest(&digest, &built_in) {
                assert forall|v: u32| MIN_SECRET <= v < value implies #[trigger] commitment(v)
                    == target_of(v) by {
                    assert(instances@[v - MIN_SECRET].secret == v);
                }
                return Err(RegistryError { value });
            }
            instances.push(ProgramInstance { secret: value, target: built_in });
            value += 1;
        }
        assert forall|v: u32| admissible(v) implies #[trigger] commitment(v) == target_of(v) by {
            assert(instances@[v - MIN_SECRET].secret == v);
        }
        Ok(ProgramRegistry { instances })
    }

    /// The program instance of `secret`: there is one for each admissible
    /// secret and for no other value.
    pub fn instance(&self, secret: u32) -> (found: Option<ProgramInstance>)
        ensures
            match found {
                Some(instance) => {
                    &&& admissible(secret)
                    &&& instance.secret == secret
                    &&& instance.target@ == target_of(secret)
                },
                None => !admissible(secret),
            },
    {
        proof {
            use_type_invariant(self);
        }
        if is_admissible(secret) {
            Some(self.instances[(secret - MIN_SECRET) as usize])
        } else {
            None
        }
    }

    /// Runs the program instance of `secret` on `guess`. There is no
    /// instance for a secret outside the admissible domain; for one inside
    /// it the verdict is a match exactly when the guess is the secret.
    pub fn verdict(&self, secret: u32, guess: u32) -> (matched: Option<bool>)
        ensures
            matched == if admissible(secret) {
                Some(guess == secret)
            } else {
                None::<bool>
            },
    {
        proof {
            use_type_invariant(self);
        }
        match self.instance(secret) {
            None => None,
            Some(instance) => {
                let matched = commitment_verdict(&instance.target, guess);
                proof {
                    assert forall|v: u32| admissible(v) implies #[trigger] commitment(v)
                        == target_of(v) by {
                        assert(self.instances@[v - MIN_SECRET].secret == v);
                    }
                    only_the_secret_matches(secret, guess);
                }
                Some(matched)
            },
        }
    }
}

} // verus!
