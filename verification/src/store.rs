//! The game state store: the one secret that is active, and the variant of
//! the guessing game that is played.

use vstd::prelude::*;
use crate::commitment::{admissible, is_admissible};

verus! {

/// The variant of the guessing game.
#[derive(Clone, Copy, Debug, PartialEq, Eq)]
pub enum Variant {
    /// The secret is an input of the program, next to the guess.
    Equality,
    /// The secret selects the program; only admissible secrets have one.
    Commitment,
}

/// Why a secret was not stored.
#[derive(Clone, Copy, Debug, PartialEq, Eq)]
pub enum StoreError {
    /// The commitment variant is played and the value has no program.
    OutOfDomain,
}

/// The store. It starts without a secret; a secret, once set, stays until
/// the next one replaces it.
#[derive(Debug)]
pub struct GameState {
    secret: Option<u32>,
    variant: Variant,
}

/// Whether a store of the given variant takes `value` as its secret.
pub open spec fn store_outcome(variant: Variant, value: u32) -> Result<(), StoreError> {
    if variant is Commitment && !admissible(value) {
        Err(StoreError::OutOfDomain)
    } else {
        Ok(())
    }
}

impl GameState {
    /// The active secret, if one was set.
    pub closed spec fn secret(&self) -> Option<u32> {
        self.secret
    }

    /// The variant that is played.
    pub closed spec fn variant(&self) -> Variant {
        self.variant
    }

    /// Under the commitment variant the active secret is admissible.
    pub open spec fn wf(&self) -> bool {
        self.variant() is Commitment ==> match self.secret() {
            Some(secret) => admissible(secret),
            None => true,
        }
    }

    /// A store without a secret.
    pub fn new(variant: Variant) -> (store: GameState)
        ensures
            store.secret() is None,
            store.variant() == variant,
            store.wf(),
    {
        GameState { secret: None, variant }
    }

    /// Stores `value` as the active secret, in place of any earlier one.
    /// Under the commitment variant a value outside the admissible domain
    /// is refused and the store stays as it was.
    pub fn set_secret(&mut self, value: u32) -> (stored: Result<(), StoreError>)
        ensures
            final(self).variant() == old(self).variant(),
            stored == store_outcome(old(self).variant(), value),
            final(self).secret() == if stored is Ok {
                Some(value)
            } else {
                old(self).secret()
            },
            old(self).wf() ==> final(self).wf(),
    {
        match self.variant {
            Variant::Commitment => {
                if !is_admissible(value) {
                    return Err(StoreError::OutOfDomain);
                }
            },
            Variant::Equality => {},
        }
        self.secret = Some(value);
        Ok(())
    }

    /// The active secret, if one was set.
    pub fn get_secret(&self) -> (secret: Option<u32>)
        ensures
            secret == self.secret(),
    {
        self.secret
    }

    /// The variant that is played.
    pub fn get_variant(&self) -> (variant: Variant)
        ensures
            variant == self.variant(),
    {
        self.variant
    }
}

} // verus!
