use trustpay::trustpay::{
    cerrar_escrow, crear_escrow, liberar_escrow, reembolsar_escrow, registrar_negocio,
    verificar_negocio,
};
use trustpay::{
    BusinessPda, CerrarEscrow, CrearEscrow, Errores, EscrowPda, LiberarEscrow, ReembolsarEscrow,
    RegistrarNegocio, VerificarNegocio, ESCROW_LOCKED, ESCROW_REFUNDED, ESCROW_RELEASED,
    TRUSTPAY_AUTHORITY,
};

const BUYER: [u8; 32] = [1u8; 32];
const SELLER: [u8; 32] = [2u8; 32];
const MERCHANT: [u8; 32] = [3u8; 32];
const ESCROW_KEY: [u8; 32] = [8u8; 32];
const STRANGER: [u8; 32] = [9u8; 32];

fn empty_business() -> BusinessPda {
    BusinessPda { owner: [0u8; 32], business_id: String::new(), is_verified: false, bump: 0 }
}

fn empty_escrow() -> EscrowPda {
    EscrowPda {
        buyer: [0u8; 32],
        seller: [0u8; 32],
        amount: 0,
        status: 0,
        transaction_id: String::new(),
        bump: 0,
    }
}

fn locked_escrow(amount: u64) -> EscrowPda {
    EscrowPda {
        buyer: BUYER,
        seller: SELLER,
        amount,
        status: ESCROW_LOCKED,
        transaction_id: "tx-1".to_string(),
        bump: 254,
    }
}

fn registered() -> BusinessPda {
    let mut ctx = RegistrarNegocio {
        authority: TRUSTPAY_AUTHORITY,
        owner: MERCHANT,
        business_pda: empty_business(),
        business_pda_bump: 251,
    };
    assert_eq!(registrar_negocio(&mut ctx, "b-42".to_string()), Ok(()));
    ctx.business_pda
}

#[test]
fn registrar_negocio_writes_an_unverified_business() {
    let b = registered();
    assert_eq!(b.owner, MERCHANT);
    assert_eq!(b.business_id, "b-42");
    assert!(!b.is_verified);
    assert_eq!(b.bump, 251);
}

#[test]
fn verificar_negocio_by_trustpay_then_again() {
    let mut ctx = VerificarNegocio { authority: TRUSTPAY_AUTHORITY, owner: MERCHANT, business_pda: registered() };
    assert_eq!(verificar_negocio(&mut ctx), Ok(()));
    assert!(ctx.business_pda.is_verified);
    assert_eq!(ctx.business_pda.business_id, "b-42");
    assert_eq!(verificar_negocio(&mut ctx), Err(Errores::YaVerificado));
    assert!(ctx.business_pda.is_verified);
}

#[test]
fn verificar_negocio_by_a_stranger_is_refused() {
    let mut ctx = VerificarNegocio { authority: STRANGER, owner: MERCHANT, business_pda: registered() };
    assert_eq!(verificar_negocio(&mut ctx), Err(Errores::NoAutorizado));
    assert!(!ctx.business_pda.is_verified);
    // The authority check comes first, even on a verified business.
    ctx.business_pda.is_verified = true;
    assert_eq!(verificar_negocio(&mut ctx), Err(Errores::NoAutorizado));
}

#[test]
fn verificar_negocio_key_differing_in_last_byte() {
    let mut key = TRUSTPAY_AUTHORITY;
    key[31] ^= 1;
    let mut ctx = VerificarNegocio { authority: key, owner: MERCHANT, business_pda: registered() };
    assert_eq!(verificar_negocio(&mut ctx), Err(Errores::NoAutorizado));
}

#[test]
fn crear_escrow_writes_a_locked_escrow() {
    let mut ctx = CrearEscrow { buyer: BUYER, seller: SELLER, escrow_pda: empty_escrow(), escrow_pda_bump: 200 };
    let to_transfer = crear_escrow(&mut ctx, "tx-7".to_string(), 5_000);
    assert_eq!(to_transfer, 5_000);
    let e = &ctx.escrow_pda;
    assert_eq!(e.buyer, BUYER);
    assert_eq!(e.seller, SELLER);
    assert_eq!(e.amount, 5_000);
    assert_eq!(e.status, ESCROW_LOCKED);
    assert_eq!(e.transaction_id, "tx-7");
    assert_eq!(e.bump, 200);
}

#[test]
fn liberar_escrow_pays_the_seller_once() {
    let mut ctx = LiberarEscrow {
        buyer: BUYER,
        seller: SELLER,
        escrow_key: ESCROW_KEY,
        escrow_pda: locked_escrow(700),
        escrow_lamports: 1_000,
        seller_lamports: 50,
    };
    assert_eq!(liberar_escrow(&mut ctx), Ok(()));
    assert_eq!(ctx.escrow_lamports, 300);
    assert_eq!(ctx.seller_lamports, 750);
    assert_eq!(ctx.escrow_pda.status, ESCROW_RELEASED);
    assert_eq!(ctx.escrow_pda.amount, 700);
    assert_eq!(liberar_escrow(&mut ctx), Err(Errores::EstadoInvalido));
    assert_eq!(ctx.escrow_lamports, 300);
    assert_eq!(ctx.seller_lamports, 750);
}

#[test]
fn liberar_escrow_edge_amounts() {
    let mut all = LiberarEscrow {
        buyer: BUYER,
        seller: SELLER,
        escrow_key: ESCROW_KEY,
        escrow_pda: locked_escrow(1_000),
        escrow_lamports: 1_000,
        seller_lamports: u64::MAX - 1_000,
    };
    assert_eq!(liberar_escrow(&mut all), Ok(()));
    assert_eq!(all.escrow_lamports, 0);
    assert_eq!(all.seller_lamports, u64::MAX);
    let mut zero = LiberarEscrow {
        buyer: BUYER,
        seller: SELLER,
        escrow_key: ESCROW_KEY,
        escrow_pda: locked_escrow(0),
        escrow_lamports: 10,
        seller_lamports: 10,
    };
    assert_eq!(liberar_escrow(&mut zero), Ok(()));
    assert_eq!((zero.escrow_lamports, zero.seller_lamports), (10, 10));
    assert_eq!(zero.escrow_pda.status, ESCROW_RELEASED);
}

#[test]
fn liberar_escrow_of_a_refunded_escrow_fails() {
    let mut e = locked_escrow(5);
    e.status = ESCROW_REFUNDED;
    let mut ctx = LiberarEscrow { buyer: BUYER, seller: SELLER, escrow_key: ESCROW_KEY, escrow_pda: e, escrow_lamports: 3, seller_lamports: 0 };
    assert_eq!(liberar_escrow(&mut ctx), Err(Errores::EstadoInvalido));
    assert_eq!(ctx.escrow_pda.status, ESCROW_REFUNDED);
    assert_eq!(ctx.escrow_lamports, 3);
}

#[test]
fn reembolsar_escrow_refunds_the_buyer() {
    let mut ctx = ReembolsarEscrow {
        authority: TRUSTPAY_AUTHORITY,
        buyer: BUYER,
        escrow_key: ESCROW_KEY,
        escrow_pda: locked_escrow(400),
        escrow_lamports: 900,
        buyer_lamports: 1,
    };
    assert_eq!(reembolsar_escrow(&mut ctx), Ok(()));
    assert_eq!(ctx.escrow_lamports, 500);
    assert_eq!(ctx.buyer_lamports, 401);
    assert_eq!(ctx.escrow_pda.status, ESCROW_REFUNDED);
    assert_eq!(reembolsar_escrow(&mut ctx), Err(Errores::EstadoInvalido));
    assert_eq!(ctx.buyer_lamports, 401);
}

#[test]
fn reembolsar_escrow_by_a_stranger_is_refused_first() {
    let mut e = locked_escrow(400);
    e.status = ESCROW_RELEASED;
    let mut ctx = ReembolsarEscrow { authority: BUYER, buyer: BUYER, escrow_key: ESCROW_KEY, escrow_pda: e, escrow_lamports: 900, buyer_lamports: 1 };
    assert_eq!(reembolsar_escrow(&mut ctx), Err(Errores::NoAutorizadoReembolso));
    assert_eq!(ctx.escrow_lamports, 900);
    assert_eq!(ctx.escrow_pda.status, ESCROW_RELEASED);
}

#[test]
fn cerrar_escrow_needs_trustpay_and_a_settled_escrow() {
    let locked = CerrarEscrow { authority: TRUSTPAY_AUTHORITY, escrow_pda: locked_escrow(1) };
    assert_eq!(cerrar_escrow(&locked), Err(Errores::NoSePuedeCerrar));
    let mut released = locked_escrow(1);
    released.status = ESCROW_RELEASED;
    let mut refunded = locked_escrow(1);
    refunded.status = ESCROW_REFUNDED;
    assert_eq!(cerrar_escrow(&CerrarEscrow { authority: TRUSTPAY_AUTHORITY, escrow_pda: released.clone() }), Ok(()));
    assert_eq!(cerrar_escrow(&CerrarEscrow { authority: TRUSTPAY_AUTHORITY, escrow_pda: refunded }), Ok(()));
    assert_eq!(cerrar_escrow(&CerrarEscrow { authority: SELLER, escrow_pda: released }), Err(Errores::NoAutorizado));
    let mut unknown = locked_escrow(1);
    unknown.status = 0;
    assert_eq!(cerrar_escrow(&CerrarEscrow { authority: TRUSTPAY_AUTHORITY, escrow_pda: unknown }), Err(Errores::NoSePuedeCerrar));
}

#[test]
fn escrow_lifecycle_create_release_close() {
    let mut c = CrearEscrow { buyer: BUYER, seller: SELLER, escrow_pda: empty_escrow(), escrow_pda_bump: 9 };
    let deposit = crear_escrow(&mut c, "tx-9".to_string(), 250);
    // The buyer's transfer, done by the runtime, funds the escrow account.
    let escrow_lamports = 2_000 + deposit;
    assert_eq!(cerrar_escrow(&CerrarEscrow { authority: TRUSTPAY_AUTHORITY, escrow_pda: c.escrow_pda.clone() }), Err(Errores::NoSePuedeCerrar));
    let mut l = LiberarEscrow { buyer: BUYER, seller: SELLER, escrow_key: ESCROW_KEY, escrow_pda: c.escrow_pda, escrow_lamports, seller_lamports: 0 };
    assert_eq!(liberar_escrow(&mut l), Ok(()));
    assert_eq!(l.escrow_lamports + l.seller_lamports, 2_250);
    assert_eq!(l.seller_lamports, 250);
    let mut r = ReembolsarEscrow { authority: TRUSTPAY_AUTHORITY, buyer: BUYER, escrow_key: ESCROW_KEY, escrow_pda: l.escrow_pda.clone(), escrow_lamports: l.escrow_lamports, buyer_lamports: 0 };
    assert_eq!(reembolsar_escrow(&mut r), Err(Errores::EstadoInvalido));
    assert_eq!(cerrar_escrow(&CerrarEscrow { authority: TRUSTPAY_AUTHORITY, escrow_pda: l.escrow_pda }), Ok(()));
}

#[test]
fn errores_messages() {
    assert_eq!(Errores::NoAutorizado.message(), "Error: solo TrustPay puede realizar esta acción");
    assert_eq!(Errores::YaVerificado.message(), "Error: este negocio ya fue verificado");
    assert_eq!(Errores::EstadoInvalido.message(), "Error: el escrow no está en estado LOCKED");
    assert_eq!(Errores::NoAutorizadoReembolso.message(), "Error: solo TrustPay puede reembolsar el escrow");
    assert_eq!(Errores::NoSePuedeCerrar.message(), "Error: el escrow debe estar RELEASED o REFUNDED para cerrarse");
}

#[test]
fn liberar_escrow_to_another_wallet_is_refused() {
    let mut ctx = LiberarEscrow {
        buyer: BUYER,
        seller: BUYER,
        escrow_key: ESCROW_KEY,
        escrow_pda: locked_escrow(700),
        escrow_lamports: 1_000,
        seller_lamports: 50,
    };
    assert_eq!(liberar_escrow(&mut ctx), Err(Errores::VendedorInvalido));
    assert_eq!(ctx.escrow_pda.status, ESCROW_LOCKED);
    assert_eq!((ctx.escrow_lamports, ctx.seller_lamports), (1_000, 50));
}

#[test]
fn liberar_escrow_state_is_checked_before_the_seller() {
    let mut e = locked_escrow(7);
    e.status = ESCROW_RELEASED;
    let mut ctx = LiberarEscrow { buyer: BUYER, seller: STRANGER, escrow_key: ESCROW_KEY, escrow_pda: e, escrow_lamports: 10, seller_lamports: 0 };
    assert_eq!(liberar_escrow(&mut ctx), Err(Errores::EstadoInvalido));
}

#[test]
fn liberar_escrow_when_the_seller_is_the_escrow_account() {
    let mut e = locked_escrow(300);
    e.seller = ESCROW_KEY;
    let mut ctx = LiberarEscrow { buyer: BUYER, seller: ESCROW_KEY, escrow_key: ESCROW_KEY, escrow_pda: e, escrow_lamports: 1_000, seller_lamports: 1_000 };
    assert_eq!(liberar_escrow(&mut ctx), Ok(()));
    assert_eq!((ctx.escrow_lamports, ctx.seller_lamports), (1_000, 1_000));
    assert_eq!(ctx.escrow_pda.status, ESCROW_RELEASED);
}

#[test]
fn reembolsar_escrow_when_the_buyer_is_the_escrow_account() {
    let mut ctx = ReembolsarEscrow { authority: TRUSTPAY_AUTHORITY, buyer: ESCROW_KEY, escrow_key: ESCROW_KEY, escrow_pda: locked_escrow(300), escrow_lamports: 400, buyer_lamports: 400 };
    assert_eq!(reembolsar_escrow(&mut ctx), Ok(()));
    assert_eq!((ctx.escrow_lamports, ctx.buyer_lamports), (400, 400));
    assert_eq!(ctx.escrow_pda.status, ESCROW_REFUNDED);
}

#[test]
fn escrow_keeps_its_rent_after_release_and_refund() {
    // An escrow account holding its rent plus the amount keeps the rent.
    let rent: u64 = 1_684_320;
    let mut l = LiberarEscrow { buyer: BUYER, seller: SELLER, escrow_key: ESCROW_KEY, escrow_pda: locked_escrow(500), escrow_lamports: rent + 500, seller_lamports: 0 };
    assert_eq!(liberar_escrow(&mut l), Ok(()));
    assert_eq!(l.escrow_lamports, rent);
    let mut r = ReembolsarEscrow { authority: TRUSTPAY_AUTHORITY, buyer: BUYER, escrow_key: ESCROW_KEY, escrow_pda: locked_escrow(500), escrow_lamports: rent + 500, buyer_lamports: 0 };
    assert_eq!(reembolsar_escrow(&mut r), Ok(()));
    assert_eq!(r.escrow_lamports, rent);
}

#[test]
fn vendedor_invalido_message() {
    assert_eq!(Errores::VendedorInvalido.message(), "Error: la cuenta del vendedor no es la registrada en el escrow");
}

#[test]
fn registrar_negocio_by_a_stranger_is_refused() {
    let mut ctx = RegistrarNegocio {
        authority: MERCHANT,
        owner: MERCHANT,
        business_pda: empty_business(),
        business_pda_bump: 251,
    };
    assert_eq!(registrar_negocio(&mut ctx, "fake-id".to_string()), Err(Errores::NoAutorizado));
    assert_eq!(ctx.business_pda.owner, [0u8; 32]);
    assert_eq!(ctx.business_pda.business_id, "");
    assert_eq!(ctx.business_pda.bump, 0);
}
