//! What the request handlers read from the running service.

use vstd::prelude::*;
use crate::grid::Grid;

verus! {

/// The service's configuration and puzzle, as plain values. An endpoint or a
/// credential that was not configured is `None`.
#[derive(Clone, Debug, PartialEq, Eq)]
pub struct AppState {
    /// The address of the ledger's RPC endpoint.
    pub rpc_url: Option<String>,
    /// The address of the signer's wallet.
    pub wallet: Option<[u8; 20]>,
    /// The true grid of the grid puzzle.
    pub truth: Grid,
}

impl AppState {
    /// Everything that a submission needs is configured.
    pub open spec fn configured(&self) -> bool {
        self.rpc_url is Some && self.wallet is Some
    }

    /// Whether everything that a submission needs is configured.
    pub fn is_configured(&self) -> (ok: bool)
        ensures
            ok == self.configured(),
    {
        self.rpc_url.is_some() && self.wallet.is_some()
    }
}

} // verus!
