use vstd::prelude::*;

verus! {

/// Failure reasons shared by the library's subsystems.
#[derive(Clone, Copy, Debug, PartialEq, Eq, Structural)]
pub enum UtilErrors {
    /// A balance adjustment would wrap.
    Overflow,
    /// The metadata claim matched neither allow-list.
    InvalidNFT,
    /// Reserved for the excluded authority-approval feature.
    InvalidNewAuthorityRecord,
}

/// Failure reasons of the resize engine.
#[derive(Clone, Copy, Debug, PartialEq, Eq, Structural)]
pub enum ResizeError {
    /// The deposit refund would wrap a balance on either side.
    Overflow,
    /// The host rejected the deposit transfer from the payer to the
    /// resource: the payer cannot fund the increase, or the resource's
    /// balance would wrap.
    TransferRejected,
}

} // verus!
