use vstd::prelude::*;

use crate::errors::Errores;
use crate::keys::same_key;
use crate::state::business::BusinessPda;
use crate::TRUSTPAY_AUTHORITY;

verus! {

/// Accounts of the handler: TrustPay's backend, which signs and pays for the
/// new account, the merchant's wallet (the seed of the account's address),
/// the new business account and the bump found for its address.
#[derive(Clone, Debug)]
pub struct RegistrarNegocio {
    pub authority: [u8; 32],
    pub owner: [u8; 32],
    pub business_pda: BusinessPda,
    pub business_pda_bump: u8,
}

/// The business account that `handler` writes.
pub open spec fn registered_business(ctx: RegistrarNegocio, business_id: String) -> BusinessPda {
    BusinessPda { owner: ctx.owner, business_id, is_verified: false, bump: ctx.business_pda_bump }
}

/// What `handler` does: its accounts afterwards and its result.
pub open spec fn handler_step(ctx: RegistrarNegocio, business_id: String) -> (RegistrarNegocio, Result<(), Errores>) {
    if ctx.authority@ != TRUSTPAY_AUTHORITY@ {
        (ctx, Err(Errores::NoAutorizado))
    } else {
        (RegistrarNegocio { business_pda: registered_business(ctx, business_id), ..ctx }, Ok(()))
    }
}

/// Registers a business: only TrustPay's backend may do so (`NoAutorizado`);
/// writes the new business account for the merchant `owner`, unverified.
pub fn handler(ctx: &mut RegistrarNegocio, business_id: String) -> (r: Result<(), Errores>)
    ensures
        (*final(ctx), r) == handler_step(*old(ctx), business_id),
{
    if !same_key(&ctx.authority, &TRUSTPAY_AUTHORITY) {
        return Err(Errores::NoAutorizado);
    }
    ctx.business_pda.owner = ctx.owner;
    ctx.business_pda.business_id = business_id;
    ctx.business_pda.is_verified = false;
    ctx.business_pda.bump = ctx.business_pda_bump;
    Ok(())
}

} // verus!
