//! Properties that hold across the instructions.
use vstd::prelude::*;

use crate::instructions::crear_escrow as handler_crear;
use crate::instructions::liberar_escrow as handler_liberar;
use crate::instructions::registrar_negocio as handler_registrar;
use crate::instructions::verificar_negocio as handler_verificar;
use crate::state::escrow as handler_state;
use crate::trustpay::{
    cerrar_escrow_result, created_escrow, is_settled, is_trustpay, liberar_escrow_step,
    reembolsar_escrow_step, registered_business, registrar_negocio_step, verificar_negocio_step,
};
use crate::{
    CerrarEscrow, CrearEscrow, Errores, EscrowPda, LiberarEscrow, ReembolsarEscrow,
    RegistrarNegocio, VerificarNegocio, ESCROW_LOCKED, ESCROW_REFUNDED, ESCROW_RELEASED,
};

verus! {

/// A failed instruction changes no account: registering, verifying, releasing
/// or refunding either succeeds or leaves its accounts as they were.
pub proof fn lemma_failure_changes_nothing(
    g: RegistrarNegocio,
    business_id: String,
    v: VerificarNegocio,
    l: LiberarEscrow,
    r: ReembolsarEscrow,
)
    ensures
        registrar_negocio_step(g, business_id).1 is Err ==> registrar_negocio_step(g, business_id).0 == g,
        verificar_negocio_step(v).1 is Err ==> verificar_negocio_step(v).0 == v,
        liberar_escrow_step(l).1 is Err ==> liberar_escrow_step(l).0 == l,
        reembolsar_escrow_step(r).1 is Err ==> reembolsar_escrow_step(r).0 == r,
{
}

/// Only TrustPay's authority registers or verifies a business, refunds an
/// escrow or closes one: any other signer gets the authorization error and
/// changes nothing.
pub proof fn lemma_only_trustpay_authority(
    g: RegistrarNegocio,
    business_id: String,
    h: handler_registrar::RegistrarNegocio,
    v: VerificarNegocio,
    r: ReembolsarEscrow,
    c: CerrarEscrow,
)
    ensures
        !is_trustpay(g.authority) ==> registrar_negocio_step(g, business_id) == (g, Err::<(), Errores>(Errores::NoAutorizado)),
        h.authority@ != crate::TRUSTPAY_AUTHORITY@ ==> handler_registrar::handler_step(h, business_id) == (h, Err::<(), crate::errors::Errores>(crate::errors::Errores::NoAutorizado)),
        !is_trustpay(v.authority) ==> verificar_negocio_step(v) == (v, Err::<(), Errores>(Errores::NoAutorizado)),
        !is_trustpay(r.authority) ==> reembolsar_escrow_step(r) == (r, Err::<(), Errores>(Errores::NoAutorizadoReembolso)),
        !is_trustpay(c.authority) ==> cerrar_escrow_result(c) == Err::<(), Errores>(Errores::NoAutorizado),
{
}

/// Releasing or refunding moves exactly the escrow's amount out of the escrow
/// account into the receiving account (nothing moves where the receiving
/// account is the escrow account itself): no lamport is created or lost.
pub proof fn lemma_lamports_conserved(l: LiberarEscrow, r: ReembolsarEscrow)
    requires
        crate::trustpay::liberar_escrow_fits(l),
        crate::trustpay::reembolsar_escrow_fits(r),
    ensures
        liberar_escrow_step(l).1 is Ok ==> {
            let after = liberar_escrow_step(l).0;
            &&& after.escrow_lamports + after.seller_lamports == l.escrow_lamports + l.seller_lamports
            &&& l.seller@ != l.escrow_key@ ==> after.escrow_lamports == l.escrow_lamports - l.escrow_pda.amount
            &&& l.seller@ != l.escrow_key@ ==> after.seller_lamports == l.seller_lamports + l.escrow_pda.amount
            &&& l.seller@ == l.escrow_key@ ==> after.escrow_lamports == l.escrow_lamports
        },
        reembolsar_escrow_step(r).1 is Ok ==> {
            let after = reembolsar_escrow_step(r).0;
            &&& after.escrow_lamports + after.buyer_lamports == r.escrow_lamports + r.buyer_lamports
            &&& r.buyer@ != r.escrow_key@ ==> after.escrow_lamports == r.escrow_lamports - r.escrow_pda.amount
            &&& r.buyer@ != r.escrow_key@ ==> after.buyer_lamports == r.buyer_lamports + r.escrow_pda.amount
            &&& r.buyer@ == r.escrow_key@ ==> after.escrow_lamports == r.escrow_lamports
        },
{
}

/// A release pays only the seller's wallet recorded in the escrow: with any
/// other receiving account a LOCKED escrow is refused with
/// `VendedorInvalido` and nothing changes.
pub proof fn lemma_release_pays_recorded_seller(l: LiberarEscrow, h: handler_liberar::LiberarEscrow)
    ensures
        liberar_escrow_step(l).1 is Ok ==> l.seller@ == l.escrow_pda.seller@,
        l.escrow_pda.status == ESCROW_LOCKED && l.seller@ != l.escrow_pda.seller@
            ==> liberar_escrow_step(l) == (l, Err::<(), Errores>(Errores::VendedorInvalido)),
        handler_liberar::handler_step(h).1 is Ok ==> h.seller@ == h.escrow_pda.seller@,
        h.buyer@ == h.escrow_pda.buyer@ && h.escrow_pda.status == handler_state::ESCROW_LOCKED
            && h.seller@ != h.escrow_pda.seller@
            ==> handler_liberar::handler_step(h) == (h, Err::<(), crate::errors::Errores>(crate::errors::Errores::VendedorInvalido)),
{
}

/// Whether an escrow account keeps at least `rent` lamports, and, while
/// LOCKED, its amount on top of them.
pub open spec fn escrow_covered(escrow_lamports: u64, status: u8, amount: u64, locked: u8, rent: nat) -> bool {
    &&& escrow_lamports >= rent
    &&& status == locked ==> escrow_lamports >= rent + amount
}

/// An escrow account that holds its rent, and its amount while LOCKED,
/// still does after a release or a refund, whatever their outcome: the
/// debit never takes it below its rent.
pub proof fn lemma_escrow_stays_rent_exempt(
    l: LiberarEscrow,
    r: ReembolsarEscrow,
    h: handler_liberar::LiberarEscrow,
    rent: nat,
)
    requires
        crate::trustpay::liberar_escrow_fits(l),
        crate::trustpay::reembolsar_escrow_fits(r),
        handler_liberar::handler_fits(h),
        escrow_covered(l.escrow_lamports, l.escrow_pda.status, l.escrow_pda.amount, ESCROW_LOCKED, rent),
        escrow_covered(r.escrow_lamports, r.escrow_pda.status, r.escrow_pda.amount, ESCROW_LOCKED, rent),
        escrow_covered(h.escrow_lamports, h.escrow_pda.status, h.escrow_pda.amount, handler_state::ESCROW_LOCKED, rent),
    ensures
        escrow_covered(liberar_escrow_step(l).0.escrow_lamports, liberar_escrow_step(l).0.escrow_pda.status, liberar_escrow_step(l).0.escrow_pda.amount, ESCROW_LOCKED, rent),
        escrow_covered(reembolsar_escrow_step(r).0.escrow_lamports, reembolsar_escrow_step(r).0.escrow_pda.status, reembolsar_escrow_step(r).0.escrow_pda.amount, ESCROW_LOCKED, rent),
        escrow_covered(handler_liberar::handler_step(h).0.escrow_lamports, handler_liberar::handler_step(h).0.escrow_pda.status, handler_liberar::handler_step(h).0.escrow_pda.amount, handler_state::ESCROW_LOCKED, rent),
{
}

/// The status of an escrow only ever goes from LOCKED to RELEASED (by the
/// buyer's release) or to REFUNDED (by TrustPay's refund); nothing else about
/// the escrow account changes.
pub proof fn lemma_status_transitions(l: LiberarEscrow, r: ReembolsarEscrow)
    ensures
        ({
            let e2 = liberar_escrow_step(l).0.escrow_pda;
            &&& e2.status != l.escrow_pda.status ==> l.escrow_pda.status == ESCROW_LOCKED && e2.status == ESCROW_RELEASED
            &&& e2 == (EscrowPda { status: e2.status, ..l.escrow_pda })
        }),
        ({
            let e2 = reembolsar_escrow_step(r).0.escrow_pda;
            &&& e2.status != r.escrow_pda.status ==> r.escrow_pda.status == ESCROW_LOCKED && e2.status == ESCROW_REFUNDED
            &&& e2 == (EscrowPda { status: e2.status, ..r.escrow_pda })
        }),
{
}

/// An escrow's funds leave it at most once: once released or refunded, every
/// further release or refund fails and changes nothing.
pub proof fn lemma_settlement_is_final(l: LiberarEscrow, r: ReembolsarEscrow)
    requires
        is_settled(l.escrow_pda.status),
        is_settled(r.escrow_pda.status),
    ensures
        liberar_escrow_step(l) == (l, Err::<(), Errores>(Errores::EstadoInvalido)),
        reembolsar_escrow_step(r).1 is Err,
        reembolsar_escrow_step(r).0 == r,
{
}

/// The life of an escrow: a new escrow is LOCKED and cannot be closed; once
/// released to its recorded seller, or refunded to the buyer, TrustPay can close it,
/// and a second release or refund of it fails.
pub proof fn lemma_escrow_lifecycle(
    c: CrearEscrow,
    transaction_id: String,
    amount: u64,
    l: LiberarEscrow,
    r: ReembolsarEscrow,
    authority: [u8; 32],
)
    requires
        l.escrow_pda == created_escrow(c, transaction_id, amount),
        l.seller@ == c.seller@,
        r.escrow_pda == created_escrow(c, transaction_id, amount),
        is_trustpay(r.authority),
        crate::trustpay::liberar_escrow_fits(l),
        crate::trustpay::reembolsar_escrow_fits(r),
    ensures
        created_escrow(c, transaction_id, amount).status == ESCROW_LOCKED,
        cerrar_escrow_result(CerrarEscrow { authority, escrow_pda: created_escrow(c, transaction_id, amount) }) is Err,
        liberar_escrow_step(l).1 is Ok,
        liberar_escrow_step(l).0.escrow_pda.status == ESCROW_RELEASED,
        liberar_escrow_step(liberar_escrow_step(l).0).1 == Err::<(), Errores>(Errores::EstadoInvalido),
        reembolsar_escrow_step(r).1 is Ok,
        reembolsar_escrow_step(r).0.escrow_pda.status == ESCROW_REFUNDED,
        reembolsar_escrow_step(reembolsar_escrow_step(r).0).1 == Err::<(), Errores>(Errores::EstadoInvalido),
        is_trustpay(authority) ==> cerrar_escrow_result(CerrarEscrow { authority, escrow_pda: liberar_escrow_step(l).0.escrow_pda }) is Ok,
        is_trustpay(authority) ==> cerrar_escrow_result(CerrarEscrow { authority, escrow_pda: reembolsar_escrow_step(r).0.escrow_pda }) is Ok,
{
}

/// TrustPay registers a business unverified; TrustPay verifies it once, and a
/// second verification fails with `YaVerificado`.
pub proof fn lemma_verification_once(reg: RegistrarNegocio, business_id: String, v: VerificarNegocio)
    requires
        is_trustpay(reg.authority),
        v.business_pda == registrar_negocio_step(reg, business_id).0.business_pda,
        is_trustpay(v.authority),
    ensures
        registrar_negocio_step(reg, business_id).1 is Ok,
        registrar_negocio_step(reg, business_id).0.business_pda == registered_business(reg, business_id),
        !v.business_pda.is_verified,
        verificar_negocio_step(v).1 is Ok,
        verificar_negocio_step(v).0.business_pda.is_verified,
        verificar_negocio_step(verificar_negocio_step(v).0) == (verificar_negocio_step(v).0, Err::<(), Errores>(Errores::YaVerificado)),
{
}

/// In the handlers under `instructions`, only the escrow's buyer releases it;
/// a LOCKED escrow released by its buyer moves exactly its amount to the
/// recorded seller's account, and once released it cannot be released again.
pub proof fn lemma_handler_release_by_buyer_only(l: handler_liberar::LiberarEscrow)
    requires
        handler_liberar::handler_fits(l),
    ensures
        l.buyer@ != l.escrow_pda.buyer@ ==> handler_liberar::handler_step(l) == (l, Err::<(), crate::errors::Errores>(crate::errors::Errores::NoEresElBuyer)),
        handler_liberar::handler_step(l).1 is Err ==> handler_liberar::handler_step(l).0 == l,
        handler_liberar::handler_step(l).1 is Ok ==> {
            let after = handler_liberar::handler_step(l).0;
            &&& l.escrow_pda.status == handler_state::ESCROW_LOCKED
            &&& after.escrow_pda.status == handler_state::ESCROW_RELEASED
            &&& l.seller@ == l.escrow_pda.seller@
            &&& after.escrow_lamports + after.seller_lamports == l.escrow_lamports + l.seller_lamports
            &&& l.seller@ != l.escrow_key@ ==> after.escrow_lamports == l.escrow_lamports - l.escrow_pda.amount
            &&& handler_liberar::handler_step(after).1 is Err
        },
{
}

/// In the handlers under `instructions`, a business is verified at most once.
pub proof fn lemma_handler_verification_once(v: handler_verificar::VerificarNegocio)
    ensures
        v.business_pda.is_verified ==> handler_verificar::handler_step(v) == (v, Err::<(), crate::errors::Errores>(crate::errors::Errores::YaVerificado)),
        handler_verificar::handler_step(v).1 is Ok ==> {
            let after = handler_verificar::handler_step(v).0;
            &&& after.business_pda.is_verified
            &&& handler_verificar::handler_step(after).1 is Err
        },
{
}

/// A new escrow records exactly what it was created with: the buyer and seller
/// accounts, the amount (the same lamports the buyer deposits), the
/// transaction id and the bump, and it starts LOCKED. This holds of both
/// versions of the instruction.
pub proof fn lemma_created_escrow_records_its_terms(
    c: CrearEscrow,
    h: handler_crear::CrearEscrow,
    transaction_id: String,
    amount: u64,
)
    ensures
        created_escrow(c, transaction_id, amount).buyer == c.buyer,
        created_escrow(c, transaction_id, amount).seller == c.seller,
        created_escrow(c, transaction_id, amount).amount == amount,
        created_escrow(c, transaction_id, amount).status == 1,
        created_escrow(c, transaction_id, amount).transaction_id == transaction_id,
        created_escrow(c, transaction_id, amount).bump == c.escrow_pda_bump,
        handler_crear::created_escrow(h, transaction_id, amount).buyer == h.buyer,
        handler_crear::created_escrow(h, transaction_id, amount).seller == h.seller,
        handler_crear::created_escrow(h, transaction_id, amount).amount == amount,
        handler_crear::created_escrow(h, transaction_id, amount).status == 1,
        handler_crear::created_escrow(h, transaction_id, amount).transaction_id == transaction_id,
        handler_crear::created_escrow(h, transaction_id, amount).bump == h.escrow_pda_bump,
{
}

/// A registration signed by TrustPay succeeds and writes a business account
/// that belongs to the merchant's wallet, holds the given id and the bump
/// found for its address, and is not verified; the other accounts keep their
/// keys. This holds of both versions of the instruction.
pub proof fn lemma_registration_records_the_business(
    g: RegistrarNegocio,
    h: handler_registrar::RegistrarNegocio,
    business_id: String,
)
    requires
        g.authority@ == crate::TRUSTPAY_AUTHORITY@,
        h.authority@ == crate::TRUSTPAY_AUTHORITY@,
    ensures
        registrar_negocio_step(g, business_id).1 is Ok,
        registrar_negocio_step(g, business_id).0.business_pda.owner == g.owner,
        registrar_negocio_step(g, business_id).0.business_pda.business_id == business_id,
        !registrar_negocio_step(g, business_id).0.business_pda.is_verified,
        registrar_negocio_step(g, business_id).0.business_pda.bump == g.business_pda_bump,
        registrar_negocio_step(g, business_id).0.authority == g.authority,
        registrar_negocio_step(g, business_id).0.owner == g.owner,
        registrar_negocio_step(g, business_id).0.business_pda_bump == g.business_pda_bump,
        handler_registrar::handler_step(h, business_id).1 is Ok,
        handler_registrar::handler_step(h, business_id).0.business_pda.owner == h.owner,
        handler_registrar::handler_step(h, business_id).0.business_pda.business_id == business_id,
        !handler_registrar::handler_step(h, business_id).0.business_pda.is_verified,
        handler_registrar::handler_step(h, business_id).0.business_pda.bump == h.business_pda_bump,
        handler_registrar::handler_step(h, business_id).0.authority == h.authority,
        handler_registrar::handler_step(h, business_id).0.owner == h.owner,
        handler_registrar::handler_step(h, business_id).0.business_pda_bump == h.business_pda_bump,
{
}

/// Verifying an unverified business by TrustPay succeeds and only sets its
/// verified flag: the business keeps its owner, id and bump, and the other
/// accounts keep their keys. This holds of both versions of the instruction
/// (where the handler's account constraint has admitted the signer).
pub proof fn lemma_verification_only_sets_the_flag(v: VerificarNegocio, h: handler_verificar::VerificarNegocio)
    requires
        v.authority@ == crate::TRUSTPAY_AUTHORITY@,
        !v.business_pda.is_verified,
        !h.business_pda.is_verified,
    ensures
        verificar_negocio_step(v).1 is Ok,
        verificar_negocio_step(v).0.business_pda.is_verified,
        verificar_negocio_step(v).0.business_pda.owner == v.business_pda.owner,
        verificar_negocio_step(v).0.business_pda.business_id == v.business_pda.business_id,
        verificar_negocio_step(v).0.business_pda.bump == v.business_pda.bump,
        verificar_negocio_step(v).0.authority == v.authority,
        verificar_negocio_step(v).0.owner == v.owner,
        handler_verificar::handler_step(h).1 is Ok,
        handler_verificar::handler_step(h).0.business_pda.is_verified,
        handler_verificar::handler_step(h).0.business_pda.owner == h.business_pda.owner,
        handler_verificar::handler_step(h).0.business_pda.business_id == h.business_pda.business_id,
        handler_verificar::handler_step(h).0.business_pda.bump == h.business_pda.bump,
        handler_verificar::handler_step(h).0.authority == h.authority,
        handler_verificar::handler_step(h).0.owner == h.owner,
{
}

/// A release by the escrow's buyer of a LOCKED escrow to its recorded seller
/// succeeds: the escrow becomes RELEASED with its terms unchanged, and the
/// seller receives exactly the amount out of the escrow account (nothing
/// moves where the seller account is the escrow account itself). The main
/// version leaves the buyer to the account checks, so it needs only the last
/// two conditions.
pub proof fn lemma_release_succeeds(l: LiberarEscrow, h: handler_liberar::LiberarEscrow)
    requires
        l.escrow_pda.status == 1,
        l.seller@ == l.escrow_pda.seller@,
        l.escrow_pda.amount <= l.escrow_lamports,
        l.seller@ != l.escrow_key@ ==> l.seller_lamports + l.escrow_pda.amount <= u64::MAX,
        h.buyer@ == h.escrow_pda.buyer@,
        h.escrow_pda.status == 1,
        h.seller@ == h.escrow_pda.seller@,
        h.escrow_pda.amount <= h.escrow_lamports,
        h.seller@ != h.escrow_key@ ==> h.seller_lamports + h.escrow_pda.amount <= u64::MAX,
    ensures
        ({
            let (after, res) = liberar_escrow_step(l);
            &&& res is Ok
            &&& after.escrow_pda.status == 2
            &&& after.escrow_pda.buyer == l.escrow_pda.buyer
            &&& after.escrow_pda.seller == l.escrow_pda.seller
            &&& after.escrow_pda.amount == l.escrow_pda.amount
            &&& after.escrow_pda.transaction_id == l.escrow_pda.transaction_id
            &&& after.escrow_pda.bump == l.escrow_pda.bump
            &&& after.buyer == l.buyer && after.seller == l.seller && after.escrow_key == l.escrow_key
            &&& l.seller@ != l.escrow_key@ ==> after.escrow_lamports == l.escrow_lamports - l.escrow_pda.amount
            &&& l.seller@ != l.escrow_key@ ==> after.seller_lamports == l.seller_lamports + l.escrow_pda.amount
            &&& l.seller@ == l.escrow_key@ ==> after.escrow_lamports == l.escrow_lamports && after.seller_lamports == l.seller_lamports
        }),
        ({
            let (after, res) = handler_liberar::handler_step(h);
            &&& res is Ok
            &&& after.escrow_pda.status == 2
            &&& after.escrow_pda.buyer == h.escrow_pda.buyer
            &&& after.escrow_pda.seller == h.escrow_pda.seller
            &&& after.escrow_pda.amount == h.escrow_pda.amount
            &&& after.escrow_pda.transaction_id == h.escrow_pda.transaction_id
            &&& after.escrow_pda.bump == h.escrow_pda.bump
            &&& after.buyer == h.buyer && after.seller == h.seller && after.escrow_key == h.escrow_key
            &&& h.seller@ != h.escrow_key@ ==> after.escrow_lamports == h.escrow_lamports - h.escrow_pda.amount
            &&& h.seller@ != h.escrow_key@ ==> after.seller_lamports == h.seller_lamports + h.escrow_pda.amount
            &&& h.seller@ == h.escrow_key@ ==> after.escrow_lamports == h.escrow_lamports && after.seller_lamports == h.seller_lamports
        }),
{
}

/// A refund by TrustPay of a LOCKED escrow succeeds: the escrow becomes
/// REFUNDED with its terms unchanged, and the buyer account receives exactly
/// the amount out of the escrow account (nothing moves where the buyer
/// account is the escrow account itself).
pub proof fn lemma_refund_succeeds(r: ReembolsarEscrow)
    requires
        r.authority@ == crate::TRUSTPAY_AUTHORITY@,
        r.escrow_pda.status == 1,
        r.escrow_pda.amount <= r.escrow_lamports,
        r.buyer@ != r.escrow_key@ ==> r.buyer_lamports + r.escrow_pda.amount <= u64::MAX,
    ensures
        ({
            let (after, res) = reembolsar_escrow_step(r);
            &&& res is Ok
            &&& after.escrow_pda.status == 3
            &&& after.escrow_pda.buyer == r.escrow_pda.buyer
            &&& after.escrow_pda.seller == r.escrow_pda.seller
            &&& after.escrow_pda.amount == r.escrow_pda.amount
            &&& after.escrow_pda.transaction_id == r.escrow_pda.transaction_id
            &&& after.escrow_pda.bump == r.escrow_pda.bump
            &&& after.authority == r.authority && after.buyer == r.buyer && after.escrow_key == r.escrow_key
            &&& r.buyer@ != r.escrow_key@ ==> after.escrow_lamports == r.escrow_lamports - r.escrow_pda.amount
            &&& r.buyer@ != r.escrow_key@ ==> after.buyer_lamports == r.buyer_lamports + r.escrow_pda.amount
            &&& r.buyer@ == r.escrow_key@ ==> after.escrow_lamports == r.escrow_lamports && after.buyer_lamports == r.buyer_lamports
        }),
{
}

/// TrustPay closes an escrow exactly when it is RELEASED or REFUNDED.
pub proof fn lemma_close_succeeds(c: CerrarEscrow)
    requires
        c.authority@ == crate::TRUSTPAY_AUTHORITY@,
    ensures
        cerrar_escrow_result(c) is Ok <==> (c.escrow_pda.status == 2 || c.escrow_pda.status == 3),
{
}

/// Only a LOCKED escrow is released or refunded: in any other state the
/// release (by its buyer, in the handler) and TrustPay's refund fail with
/// `EstadoInvalido` and change nothing; and verifying a verified business by
/// TrustPay fails with `YaVerificado` and changes nothing.
pub proof fn lemma_wrong_state_is_refused(
    l: LiberarEscrow,
    h: handler_liberar::LiberarEscrow,
    r: ReembolsarEscrow,
    v: VerificarNegocio,
)
    ensures
        l.escrow_pda.status != 1 ==> liberar_escrow_step(l) == (l, Err::<(), Errores>(Errores::EstadoInvalido)),
        h.buyer@ == h.escrow_pda.buyer@ && h.escrow_pda.status != 1
            ==> handler_liberar::handler_step(h) == (h, Err::<(), crate::errors::Errores>(crate::errors::Errores::EstadoInvalido)),
        r.authority@ == crate::TRUSTPAY_AUTHORITY@ && r.escrow_pda.status != 1
            ==> reembolsar_escrow_step(r) == (r, Err::<(), Errores>(Errores::EstadoInvalido)),
        v.authority@ == crate::TRUSTPAY_AUTHORITY@ && v.business_pda.is_verified
            ==> verificar_negocio_step(v) == (v, Err::<(), Errores>(Errores::YaVerificado)),
{
}

} // verus!
