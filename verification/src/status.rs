//! Status codes shared by every fallible entry point.

use vstd::prelude::*;

verus! {

/// Status returned by every fallible operation of the crate.
///
/// `RGPOT_SUCCESS` means the call succeeded and the output structure was
/// fully populated; any other value names a specific error category.
#[allow(non_camel_case_types)]
#[derive(Debug, Clone, Copy, PartialEq, Eq, Structural)]
pub enum rgpot_status_t {
    /// Operation completed successfully.
    RGPOT_SUCCESS,
    /// An invalid parameter was passed (missing tensor, wrong size, etc.).
    RGPOT_INVALID_PARAMETER,
    /// An internal error occurred.
    RGPOT_INTERNAL_ERROR,
    /// An RPC communication error occurred.
    RGPOT_RPC_ERROR,
    /// A buffer was too small for the requested operation.
    RGPOT_BUFFER_SIZE_ERROR,
}

} // verus!
