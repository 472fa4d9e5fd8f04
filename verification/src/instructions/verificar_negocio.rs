use vstd::prelude::*;

use crate::errors::Errores;
use crate::keys::same_key;
use crate::state::business::BusinessPda;
use crate::TRUSTPAY_AUTHORITY;

verus! {

/// Accounts of the handler: the signer, which must be TrustPay's authority,
/// the merchant's wallet (the seed of the account's address) and the business
/// account.
#[derive(Clone, Debug)]
pub struct VerificarNegocio {
    pub authority: [u8; 32],
    pub owner: [u8; 32],
    pub business_pda: BusinessPda,
}

impl VerificarNegocio {
    /// The accounts' own constraint, checked before the handler runs: the
    /// signer must be TrustPay's authority (`NoAutorizado`).
    pub fn check_authority(&self) -> (r: Result<(), Errores>)
        ensures
            r is Ok <==> self.authority@ == TRUSTPAY_AUTHORITY@,
            r is Err ==> r == Err::<(), Errores>(Errores::NoAutorizado),
    {
        if same_key(&self.authority, &TRUSTPAY_AUTHORITY) {
            Ok(())
        } else {
            Err(Errores::NoAutorizado)
        }
    }
}

/// What `handler` does: its accounts afterwards and its result.
pub open spec fn handler_step(ctx: VerificarNegocio) -> (VerificarNegocio, Result<(), Errores>) {
    if ctx.business_pda.is_verified {
        (ctx, Err(Errores::YaVerificado))
    } else {
        (VerificarNegocio { business_pda: BusinessPda { is_verified: true, ..ctx.business_pda }, ..ctx }, Ok(()))
    }
}

/// Marks a business as verified, once (`YaVerificado`).
pub fn handler(ctx: &mut VerificarNegocio) -> (r: Result<(), Errores>)
    ensures
        (*final(ctx), r) == handler_step(*old(ctx)),
{
    if ctx.business_pda.is_verified {
        return Err(Errores::YaVerificado);
    }
    ctx.business_pda.is_verified = true;
    Ok(())
}

} // verus!
