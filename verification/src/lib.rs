//! TrustPay: a business registry and a buyer/seller escrow, written as pure
//! state transitions over the accounts that each instruction touches.
//!
//! Account keys are 32-byte arrays. Each instruction takes a context that
//! holds the keys and data of its accounts (and, where the instruction moves
//! lamports by hand, their balances), updates it in place and reports the
//! instruction's error, if any. A failing instruction leaves its context as it
//! found it, as the chain discards every change of a failed transaction.
use vstd::prelude::*;

pub mod errors;
pub mod instructions;
mod keys;
pub mod laws;
pub mod state;
pub mod trustpay;

verus! {

/// The key of the TrustPay backend: the only signer that may verify a
/// business, refund an escrow or close one.
pub const TRUSTPAY_AUTHORITY: [u8; 32] = [
    191, 42, 247, 41, 178, 96, 177, 17, 50, 163, 79, 51, 237, 228, 158, 144, 208, 6, 65, 101, 145,
    167, 249, 89, 240, 42, 222, 13, 151, 134, 218, 195,
];

// Escrow states. There is no CLOSED value: closing an escrow destroys its
// account.
/// The buyer's funds are held by the escrow account.
pub const ESCROW_LOCKED: u8 = 1;

/// The held funds went to the seller.
pub const ESCROW_RELEASED: u8 = 2;

/// The held funds went back to the buyer.
pub const ESCROW_REFUNDED: u8 = 3;

/// The errors that the program's instructions report.
#[derive(Clone, Copy, Debug, PartialEq, Eq, Structural)]
pub enum Errores {
    /// Only TrustPay may perform this action.
    NoAutorizado,
    /// The business was verified already.
    YaVerificado,
    /// The escrow is not LOCKED.
    EstadoInvalido,
    /// Only TrustPay may refund the escrow.
    NoAutorizadoReembolso,
    /// The escrow must be RELEASED or REFUNDED to be closed.
    NoSePuedeCerrar,
    /// The receiving account is not the seller's wallet recorded in the escrow.
    VendedorInvalido,
}

impl Errores {
    /// The message that the program attaches to the error.
    pub fn message(&self) -> (r: &'static str)
        ensures
            r@ == errores_message(*self)@,
    {
        match self {
            Errores::NoAutorizado => "Error: solo TrustPay puede realizar esta acción",
            Errores::YaVerificado => "Error: este negocio ya fue verificado",
            Errores::EstadoInvalido => "Error: el escrow no está en estado LOCKED",
            Errores::NoAutorizadoReembolso => "Error: solo TrustPay puede reembolsar el escrow",
            Errores::NoSePuedeCerrar => "Error: el escrow debe estar RELEASED o REFUNDED para cerrarse",
            Errores::VendedorInvalido => "Error: la cuenta del vendedor no es la registrada en el escrow",
        }
    }
}

/// The message of each error, as a string literal.
pub open spec fn errores_message(e: Errores) -> &'static str {
    match e {
        Errores::NoAutorizado => "Error: solo TrustPay puede realizar esta acción",
        Errores::YaVerificado => "Error: este negocio ya fue verificado",
        Errores::EstadoInvalido => "Error: el escrow no está en estado LOCKED",
        Errores::NoAutorizadoReembolso => "Error: solo TrustPay puede reembolsar el escrow",
        Errores::NoSePuedeCerrar => "Error: el escrow debe estar RELEASED o REFUNDED para cerrarse",
        Errores::VendedorInvalido => "Error: la cuenta del vendedor no es la registrada en el escrow",
    }
}

/// The data of a business account.
#[derive(Clone, Debug)]
pub struct BusinessPda {
    /// The merchant's wallet.
    pub owner: [u8; 32],
    /// The business's identifier in TrustPay's database (at most 36 bytes).
    pub business_id: String,
    /// Whether TrustPay confirmed that the business is legitimate.
    pub is_verified: bool,
    /// The bump seed of the account's address.
    pub bump: u8,
}

/// The data of an escrow account.
#[derive(Clone, Debug)]
pub struct EscrowPda {
    /// The buyer's wallet.
    pub buyer: [u8; 32],
    /// The seller's wallet.
    pub seller: [u8; 32],
    /// The lamports held for the seller.
    pub amount: u64,
    /// One of `ESCROW_LOCKED`, `ESCROW_RELEASED`, `ESCROW_REFUNDED`.
    pub status: u8,
    /// The transaction's identifier in TrustPay's database (at most 36 bytes).
    pub transaction_id: String,
    /// The bump seed of the account's address.
    pub bump: u8,
}

/// Accounts of `registrar_negocio`: the paying authority, the merchant's
/// wallet, the new business account and the bump found for its address.
#[derive(Clone, Debug)]
pub struct RegistrarNegocio {
    pub authority: [u8; 32],
    pub owner: [u8; 32],
    pub business_pda: BusinessPda,
    pub business_pda_bump: u8,
}

/// Accounts of `verificar_negocio`: the signing authority, the merchant's
/// wallet and the business account.
#[derive(Clone, Debug)]
pub struct VerificarNegocio {
    pub authority: [u8; 32],
    pub owner: [u8; 32],
    pub business_pda: BusinessPda,
}

/// Accounts of `crear_escrow`: the paying buyer, the seller's wallet, the new
/// escrow account and the bump found for its address.
#[derive(Clone, Debug)]
pub struct CrearEscrow {
    pub buyer: [u8; 32],
    pub seller: [u8; 32],
    pub escrow_pda: EscrowPda,
    pub escrow_pda_bump: u8,
}

/// Accounts of `liberar_escrow`: the signing buyer, the receiving seller
/// account and the escrow account (its address and data), with the lamports
/// of the two accounts whose balances the instruction moves. Where the seller
/// account is the escrow account itself, both balances are that account's.
#[derive(Clone, Debug)]
pub struct LiberarEscrow {
    pub buyer: [u8; 32],
    pub seller: [u8; 32],
    pub escrow_key: [u8; 32],
    pub escrow_pda: EscrowPda,
    pub escrow_lamports: u64,
    pub seller_lamports: u64,
}

/// Accounts of `reembolsar_escrow`: the signing authority, the receiving
/// buyer account and the escrow account (its address and data), with the
/// lamports of the two accounts whose balances the instruction moves. Where
/// the buyer account is the escrow account itself, both balances are that
/// account's.
#[derive(Clone, Debug)]
pub struct ReembolsarEscrow {
    pub authority: [u8; 32],
    pub buyer: [u8; 32],
    pub escrow_key: [u8; 32],
    pub escrow_pda: EscrowPda,
    pub escrow_lamports: u64,
    pub buyer_lamports: u64,
}

/// Accounts of `cerrar_escrow`: the signing authority and the escrow account.
#[derive(Clone, Debug)]
pub struct CerrarEscrow {
    pub authority: [u8; 32],
    pub escrow_pda: EscrowPda,
}

} // verus!
