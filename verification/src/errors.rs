use vstd::prelude::*;

verus! {

/// Failure taxonomy of the payment core.
///
/// Every failure is terminal for the invocation: no error is caught or
/// retried internally, and the caller must assume no side effects beyond
/// what its own transactional boundary guarantees.
#[derive(Clone, Copy, Debug, PartialEq, Eq, Structural)]
pub enum ErrorCode {
    /// A checked multiply or add exceeded the representable range.
    ArithmeticOverflow,
    /// A checked subtract went below zero, indicating an apportionment
    /// inconsistency upstream.
    ArithmeticUnderflow,
    /// The royalty metadata account is not owned by the expected metadata
    /// program.
    InvalidMintMetadataOwner,
    /// The royalty metadata does not reference the mint being paid for.
    InvalidMintMetadata,
    /// The supplied fee collector does not match the configured one.
    InvalidFeeCollector,
    /// An expected creator recipient account was not supplied.
    MissingAccount,
    /// The external transfer primitive reported a failure.
    TransferFailed,
}

} // verus!
