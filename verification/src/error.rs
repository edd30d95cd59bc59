use vstd::prelude::*;

verus! {

/// Why an escrow operation was rejected.
#[derive(Clone, Copy, Debug, PartialEq, Eq, Structural)]
pub enum FluterByError {
    /// The mint authority is not the expected one. Reserved: no operation
    /// returns it.
    InvalidMintAuthority,
    /// The computed reward is larger than what the escrow still holds.
    InsufficientFunds,
    /// An escrow wallet index outside the wallets of the lock. Reserved: no
    /// operation returns it.
    InvalidEscrowWalletIndex,
    /// The escrow has reached its expiry, so nothing can be redeemed.
    EscrowExpired,
    /// The escrow is not active.
    EscrowNotFound,
    /// The caller who asks to reclaim is not the minter of the escrow.
    UnauthorizedMinter,
    /// The caller holds fewer main tokens than it wants to burn.
    InsufficientTokenBalance,
    /// A computed quantity cannot be represented.
    DistributionCalculationOverflow,
    /// An amount that must be positive is zero.
    InvalidDistributionAmount,
    /// The escrow has not reached its expiry yet, so nothing can be
    /// reclaimed.
    EscrowNotExpired,
    /// The reward does not divide evenly over the escrow wallets.
    UnevenDistribution,
    /// The caller who asks to lock is not the minter named in the request.
    UnauthorizedCaller,
}

} // verus!
