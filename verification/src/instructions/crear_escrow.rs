use vstd::prelude::*;

use crate::state::escrow::{EscrowPda, ESCROW_LOCKED};

verus! {

/// Accounts of the handler: the buyer, who signs and pays for the new
/// account, the seller's wallet (only stored), the new escrow account and the
/// bump found for its address.
#[derive(Clone, Debug)]
pub struct CrearEscrow {
    pub buyer: [u8; 32],
    pub seller: [u8; 32],
    pub escrow_pda: EscrowPda,
    pub escrow_pda_bump: u8,
}

/// The escrow account that `handler` writes.
pub open spec fn created_escrow(ctx: CrearEscrow, transaction_id: String, amount: u64) -> EscrowPda {
    EscrowPda {
        buyer: ctx.buyer,
        seller: ctx.seller,
        amount,
        status: ESCROW_LOCKED,
        transaction_id,
        bump: ctx.escrow_pda_bump,
    }
}

/// Opens an escrow: writes the new escrow account, LOCKED, and returns the
/// lamports that the buyer must then transfer into it (`amount`).
pub fn handler(ctx: &mut CrearEscrow, transaction_id: String, amount: u64) -> (r: u64)
    ensures
        r == amount,
        final(ctx).escrow_pda == created_escrow(*old(ctx), transaction_id, amount),
        final(ctx).buyer == old(ctx).buyer,
        final(ctx).seller == old(ctx).seller,
        final(ctx).escrow_pda_bump == old(ctx).escrow_pda_bump,
{
    ctx.escrow_pda.buyer = ctx.buyer;
    ctx.escrow_pda.seller = ctx.seller;
    ctx.escrow_pda.amount = amount;
    ctx.escrow_pda.status = ESCROW_LOCKED;
    ctx.escrow_pda.transaction_id = transaction_id;
    ctx.escrow_pda.bump = ctx.escrow_pda_bump;
    amount
}

} // verus!
