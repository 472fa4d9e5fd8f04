use vstd::prelude::*;

verus! {

// The states of an escrow.
/// Created, waiting for the funds.
pub const ESCROW_PENDING: u8 = 0;

/// The funds are held by the escrow account.
pub const ESCROW_LOCKED: u8 = 1;

/// The payment went to the seller.
pub const ESCROW_RELEASED: u8 = 2;

/// A dispute is open.
pub const ESCROW_DISPUTED: u8 = 3;

/// The funds went back to the buyer.
pub const ESCROW_REFUNDED: u8 = 4;

/// The data of an escrow account.
#[derive(Clone, Debug)]
pub struct EscrowPda {
    /// The buyer's wallet.
    pub buyer: [u8; 32],
    /// The seller's wallet.
    pub seller: [u8; 32],
    /// The lamports held by the escrow account.
    pub amount: u64,
    /// The escrow's state: one of the `ESCROW_*` constants.
    pub status: u8,
    /// The transaction's identifier in TrustPay's database (at most 36 bytes).
    pub transaction_id: String,
    /// The bump seed of the account's address.
    pub bump: u8,
}

} // verus!
