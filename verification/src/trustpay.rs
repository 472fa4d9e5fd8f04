//! The instructions of the TrustPay program.
use vstd::prelude::*;

use crate::keys::same_key;
use crate::{
    BusinessPda, CerrarEscrow, CrearEscrow, Errores, EscrowPda, LiberarEscrow, ReembolsarEscrow,
    RegistrarNegocio, VerificarNegocio, ESCROW_LOCKED, ESCROW_REFUNDED, ESCROW_RELEASED,
    TRUSTPAY_AUTHORITY,
};

verus! {

/// Whether `key` is TrustPay's authority.
pub open spec fn is_trustpay(key: [u8; 32]) -> bool {
    key@ == TRUSTPAY_AUTHORITY@
}

/// Whether an escrow's funds have left it, to the seller or back to the buyer.
pub open spec fn is_settled(status: u8) -> bool {
    status == ESCROW_RELEASED || status == ESCROW_REFUNDED
}

/// The business account that `registrar_negocio` writes.
pub open spec fn registered_business(ctx: RegistrarNegocio, business_id: String) -> BusinessPda {
    BusinessPda { owner: ctx.owner, business_id, is_verified: false, bump: ctx.business_pda_bump }
}

/// What `registrar_negocio` does: its accounts afterwards and its result.
pub open spec fn registrar_negocio_step(ctx: RegistrarNegocio, business_id: String) -> (RegistrarNegocio, Result<(), Errores>) {
    if !is_trustpay(ctx.authority) {
        (ctx, Err(Errores::NoAutorizado))
    } else {
        (RegistrarNegocio { business_pda: registered_business(ctx, business_id), ..ctx }, Ok(()))
    }
}

/// What `verificar_negocio` does: its accounts afterwards and its result.
pub open spec fn verificar_negocio_step(ctx: VerificarNegocio) -> (VerificarNegocio, Result<(), Errores>) {
    if !is_trustpay(ctx.authority) {
        (ctx, Err(Errores::NoAutorizado))
    } else if ctx.business_pda.is_verified {
        (ctx, Err(Errores::YaVerificado))
    } else {
        (VerificarNegocio { business_pda: BusinessPda { is_verified: true, ..ctx.business_pda }, ..ctx }, Ok(()))
    }
}

/// The escrow account that `crear_escrow` writes.
pub open spec fn created_escrow(ctx: CrearEscrow, transaction_id: String, amount: u64) -> EscrowPda {
    EscrowPda {
        buyer: ctx.buyer,
        seller: ctx.seller,
        amount,
        status: ESCROW_LOCKED,
        transaction_id,
        bump: ctx.escrow_pda_bump,
    }
}

/// Whether the lamports of `liberar_escrow` can move without overflow, once
/// the state and the seller account were accepted: the escrow holds its
/// amount and, unless the seller account is the escrow account itself, the
/// seller's balance can take it.
pub open spec fn liberar_escrow_fits(ctx: LiberarEscrow) -> bool {
    ctx.escrow_pda.status == ESCROW_LOCKED && ctx.seller@ == ctx.escrow_pda.seller@ ==> {
        &&& ctx.escrow_pda.amount <= ctx.escrow_lamports
        &&& ctx.seller@ != ctx.escrow_key@ ==> ctx.seller_lamports + ctx.escrow_pda.amount <= u64::MAX
    }
}

/// What `liberar_escrow` does: its accounts afterwards and its result.
pub open spec fn liberar_escrow_step(ctx: LiberarEscrow) -> (LiberarEscrow, Result<(), Errores>) {
    if ctx.escrow_pda.status != ESCROW_LOCKED {
        (ctx, Err(Errores::EstadoInvalido))
    } else if ctx.seller@ != ctx.escrow_pda.seller@ {
        (ctx, Err(Errores::VendedorInvalido))
    } else {
        let amount = ctx.escrow_pda.amount;
        let released = EscrowPda { status: ESCROW_RELEASED, ..ctx.escrow_pda };
        if ctx.seller@ == ctx.escrow_key@ {
            // The debit and the credit fall on the same account.
            (LiberarEscrow { escrow_pda: released, ..ctx }, Ok(()))
        } else {
            (
                LiberarEscrow {
                    escrow_pda: released,
                    escrow_lamports: (ctx.escrow_lamports - amount) as u64,
                    seller_lamports: (ctx.seller_lamports + amount) as u64,
                    ..ctx
                },
                Ok(()),
            )
        }
    }
}

/// Whether the lamports of `reembolsar_escrow` can move without overflow,
/// once the authority and the state were accepted: the escrow holds its
/// amount and, unless the buyer account is the escrow account itself, the
/// buyer's balance can take it.
pub open spec fn reembolsar_escrow_fits(ctx: ReembolsarEscrow) -> bool {
    is_trustpay(ctx.authority) && ctx.escrow_pda.status == ESCROW_LOCKED ==> {
        &&& ctx.escrow_pda.amount <= ctx.escrow_lamports
        &&& ctx.buyer@ != ctx.escrow_key@ ==> ctx.buyer_lamports + ctx.escrow_pda.amount <= u64::MAX
    }
}

/// What `reembolsar_escrow` does: its accounts afterwards and its result.
pub open spec fn reembolsar_escrow_step(ctx: ReembolsarEscrow) -> (ReembolsarEscrow, Result<(), Errores>) {
    if !is_trustpay(ctx.authority) {
        (ctx, Err(Errores::NoAutorizadoReembolso))
    } else if ctx.escrow_pda.status != ESCROW_LOCKED {
        (ctx, Err(Errores::EstadoInvalido))
    } else {
        let amount = ctx.escrow_pda.amount;
        let refunded = EscrowPda { status: ESCROW_REFUNDED, ..ctx.escrow_pda };
        if ctx.buyer@ == ctx.escrow_key@ {
            // The debit and the credit fall on the same account.
            (ReembolsarEscrow { escrow_pda: refunded, ..ctx }, Ok(()))
        } else {
            (
                ReembolsarEscrow {
                    escrow_pda: refunded,
                    escrow_lamports: (ctx.escrow_lamports - amount) as u64,
                    buyer_lamports: (ctx.buyer_lamports + amount) as u64,
                    ..ctx
                },
                Ok(()),
            )
        }
    }
}

/// What `cerrar_escrow` decides: whether the escrow may be closed.
pub open spec fn cerrar_escrow_result(ctx: CerrarEscrow) -> Result<(), Errores> {
    if !is_trustpay(ctx.authority) {
        Err(Errores::NoAutorizado)
    } else if !is_settled(ctx.escrow_pda.status) {
        Err(Errores::NoSePuedeCerrar)
    } else {
        Ok(())
    }
}

/// Registers a business: only TrustPay's backend may do so
/// (`NoAutorizado`); writes the new business account for the merchant
/// `owner`, unverified.
pub fn registrar_negocio(ctx: &mut RegistrarNegocio, business_id: String) -> (r: Result<(), Errores>)
    ensures
        (*final(ctx), r) == registrar_negocio_step(*old(ctx), business_id),
{
    if !same_key(&ctx.authority, &TRUSTPAY_AUTHORITY) {
        return Err(Errores::NoAutorizado);
    }
    ctx.business_pda.owner = ctx.owner;
    ctx.business_pda.business_id = business_id;
    ctx.business_pda.is_verified = false;
    ctx.business_pda.bump = ctx.business_pda_bump;
    Ok(())
}

/// Marks a business as verified. Only TrustPay's authority may do so
/// (`NoAutorizado`), and only once (`YaVerificado`).
pub fn verificar_negocio(ctx: &mut VerificarNegocio) -> (r: Result<(), Errores>)
    ensures
        (*final(ctx), r) == verificar_negocio_step(*old(ctx)),
{
    if !same_key(&ctx.authority, &TRUSTPAY_AUTHORITY) {
        return Err(Errores::NoAutorizado);
    }
    if ctx.business_pda.is_verified {
        return Err(Errores::YaVerificado);
    }
    ctx.business_pda.is_verified = true;
    Ok(())
}

/// Opens an escrow: writes the new escrow account, LOCKED, and returns the
/// lamports that the buyer must then transfer into it (`amount`).
pub fn crear_escrow(ctx: &mut CrearEscrow, transaction_id: String, amount: u64) -> (r: u64)
    ensures
        r == amount,
        final(ctx).escrow_pda == created_escrow(*old(ctx), transaction_id, amount),
        final(ctx).buyer == old(ctx).buyer,
        final(ctx).seller == old(ctx).seller,
        final(ctx).escrow_pda_bump == old(ctx).escrow_pda_bump,
{
    ctx.escrow_pda.buyer = ctx.buyer;
    ctx.escrow_pda.seller = ctx.seller;
    ctx.escrow_pda.amount = amount;
    ctx.escrow_pda.status = ESCROW_LOCKED;
    ctx.escrow_pda.transaction_id = transaction_id;
    ctx.escrow_pda.bump = ctx.escrow_pda_bump;
    amount
}

/// Releases a LOCKED escrow to the seller: any other state gives
/// `EstadoInvalido`, and a receiving account other than the seller's wallet
/// recorded in the escrow gives `VendedorInvalido`. Moves the escrow's amount
/// from the escrow account to the seller account and marks it RELEASED.
pub fn liberar_escrow(ctx: &mut LiberarEscrow) -> (r: Result<(), Errores>)
    requires
        liberar_escrow_fits(*old(ctx)),
    ensures
        (*final(ctx), r) == liberar_escrow_step(*old(ctx)),
{
    if ctx.escrow_pda.status != ESCROW_LOCKED {
        return Err(Errores::EstadoInvalido);
    }
    if !same_key(&ctx.seller, &ctx.escrow_pda.seller) {
        return Err(Errores::VendedorInvalido);
    }
    if !same_key(&ctx.seller, &ctx.escrow_key) {
        let amount = ctx.escrow_pda.amount;
        ctx.escrow_lamports = ctx.escrow_lamports - amount;
        ctx.seller_lamports = ctx.seller_lamports + amount;
    }
    ctx.escrow_pda.status = ESCROW_RELEASED;
    Ok(())
}

/// Refunds a LOCKED escrow to the buyer: only TrustPay's authority may do so
/// (`NoAutorizadoReembolso`); moves the escrow's amount from the escrow
/// account to the buyer account and marks it REFUNDED; any other state gives
/// `EstadoInvalido`.
pub fn reembolsar_escrow(ctx: &mut ReembolsarEscrow) -> (r: Result<(), Errores>)
    requires
        reembolsar_escrow_fits(*old(ctx)),
    ensures
        (*final(ctx), r) == reembolsar_escrow_step(*old(ctx)),
{
    if !same_key(&ctx.authority, &TRUSTPAY_AUTHORITY) {
        return Err(Errores::NoAutorizadoReembolso);
    }
    if ctx.escrow_pda.status != ESCROW_LOCKED {
        return Err(Errores::EstadoInvalido);
    }
    if !same_key(&ctx.buyer, &ctx.escrow_key) {
        let amount = ctx.escrow_pda.amount;
        ctx.escrow_lamports = ctx.escrow_lamports - amount;
        ctx.buyer_lamports = ctx.buyer_lamports + amount;
    }
    ctx.escrow_pda.status = ESCROW_REFUNDED;
    Ok(())
}

/// Accepts the closing of an escrow: only TrustPay's authority may close one
/// (`NoAutorizado`), and only once it is RELEASED or REFUNDED
/// (`NoSePuedeCerrar`). The accounts are not changed here: on success the
/// escrow account is closed and its rent goes to the authority.
pub fn cerrar_escrow(ctx: &CerrarEscrow) -> (r: Result<(), Errores>)
    ensures
        r == cerrar_escrow_result(*ctx),
{
    if !same_key(&ctx.authority, &TRUSTPAY_AUTHORITY) {
        return Err(Errores::NoAutorizado);
    }
    if !(ctx.escrow_pda.status == ESCROW_RELEASED || ctx.escrow_pda.status == ESCROW_REFUNDED) {
        return Err(Errores::NoSePuedeCerrar);
    }
    Ok(())
}

} // verus!
