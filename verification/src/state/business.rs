use vstd::prelude::*;

verus! {

/// The data of a business account.
#[derive(Clone, Debug)]
pub struct BusinessPda {
    /// The merchant's wallet.
    pub owner: [u8; 32],
    /// The business's identifier in TrustPay's database (at most 36 bytes),
    /// the bridge between the database and the chain.
    pub business_id: String,
    /// Whether TrustPay confirmed that the business is legitimate.
    pub is_verified: bool,
    /// The bump seed of the account's address.
    pub bump: u8,
}

} // verus!
