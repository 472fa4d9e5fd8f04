use vstd::prelude::*;

use crate::errors::Errores;
use crate::keys::same_key;
use crate::state::escrow::{EscrowPda, ESCROW_LOCKED, ESCROW_RELEASED};

verus! {

/// Accounts of the handler: the signer, who confirms the delivery, the
/// receiving seller account and the escrow account (its address and data),
/// with the lamports of the two accounts whose balances the handler moves.
/// Where the seller account is the escrow account itself, both balances are
/// that account's.
#[derive(Clone, Debug)]
pub struct LiberarEscrow {
    pub buyer: [u8; 32],
    pub seller: [u8; 32],
    pub escrow_key: [u8; 32],
    pub escrow_pda: EscrowPda,
    pub escrow_lamports: u64,
    pub seller_lamports: u64,
}

/// Whether the lamports of `handler` can move without overflow, once the
/// signer, the state and the seller account were accepted: the escrow holds
/// its amount and, unless the seller account is the escrow account itself,
/// the seller's balance can take it.
pub open spec fn handler_fits(ctx: LiberarEscrow) -> bool {
    ctx.buyer@ == ctx.escrow_pda.buyer@ && ctx.escrow_pda.status == ESCROW_LOCKED
        && ctx.seller@ == ctx.escrow_pda.seller@ ==> {
        &&& ctx.escrow_pda.amount <= ctx.escrow_lamports
        &&& ctx.seller@ != ctx.escrow_key@ ==> ctx.seller_lamports + ctx.escrow_pda.amount <= u64::MAX
    }
}

/// What `handler` does: its accounts afterwards and its result.
pub open spec fn handler_step(ctx: LiberarEscrow) -> (LiberarEscrow, Result<(), Errores>) {
    if ctx.buyer@ != ctx.escrow_pda.buyer@ {
        (ctx, Err(Errores::NoEresElBuyer))
    } else if ctx.escrow_pda.status != ESCROW_LOCKED {
        (ctx, Err(Errores::EstadoInvalido))
    } else if ctx.seller@ != ctx.escrow_pda.seller@ {
        (ctx, Err(Errores::VendedorInvalido))
    } else {
        let amount = ctx.escrow_pda.amount;
        let released = EscrowPda { status: ESCROW_RELEASED, ..ctx.escrow_pda };
        if ctx.seller@ == ctx.escrow_key@ {
            // The debit and the credit fall on the same account.
            (LiberarEscrow { escrow_pda: released, ..ctx }, Ok(()))
        } else {
            (
                LiberarEscrow {
                    escrow_pda: released,
                    escrow_lamports: (ctx.escrow_lamports - amount) as u64,
                    seller_lamports: (ctx.seller_lamports + amount) as u64,
                    ..ctx
                },
                Ok(()),
            )
        }
    }
}

/// Releases a LOCKED escrow to the seller. Only the escrow's buyer may do so
/// (`NoEresElBuyer`); any state but LOCKED gives `EstadoInvalido`; a
/// receiving account other than the seller's wallet recorded in the escrow
/// gives `VendedorInvalido`. Moves the escrow's amount from the escrow
/// account to the seller account and marks it RELEASED.
pub fn handler(ctx: &mut LiberarEscrow) -> (r: Result<(), Errores>)
    requires
        handler_fits(*old(ctx)),
    ensures
        (*final(ctx), r) == handler_step(*old(ctx)),
{
    if !same_key(&ctx.buyer, &ctx.escrow_pda.buyer) {
        return Err(Errores::NoEresElBuyer);
    }
    if ctx.escrow_pda.status != ESCROW_LOCKED {
        return Err(Errores::EstadoInvalido);
    }
    if !same_key(&ctx.seller, &ctx.escrow_pda.seller) {
        return Err(Errores::VendedorInvalido);
    }
    if !same_key(&ctx.seller, &ctx.escrow_key) {
        let amount = ctx.escrow_pda.amount;
        ctx.escrow_lamports = ctx.escrow_lamports - amount;
        ctx.seller_lamports = ctx.seller_lamports + amount;
    }
    ctx.escrow_pda.status = ESCROW_RELEASED;
    Ok(())
}

} // verus!
