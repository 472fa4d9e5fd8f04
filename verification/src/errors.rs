//! The errors of the instruction handlers under `instructions`.
use vstd::prelude::*;

verus! {

/// The errors that the instruction handlers report.
#[derive(Clone, Copy, Debug, PartialEq, Eq, Structural)]
pub enum Errores {
    // Business account
    /// Only TrustPay may verify businesses.
    NoAutorizado,
    /// The business was verified already.
    YaVerificado,
    // Escrow account
    /// The escrow is not in the state that the operation needs.
    EstadoInvalido,
    /// Only the buyer may release the escrow.
    NoEresElBuyer,
    /// The receiving account is not the seller's wallet recorded in the escrow.
    VendedorInvalido,
}

impl Errores {
    /// The message that the program attaches to the error.
    pub fn message(&self) -> (r: &'static str)
        ensures
            r@ == errores_message(*self)@,
    {
        match self {
            Errores::NoAutorizado => "Error: solo TrustPay puede verificar negocios",
            Errores::YaVerificado => "Error: este negocio ya fue verificado",
            Errores::EstadoInvalido => "Error: el escrow no está en el estado correcto para esta operación",
            Errores::NoEresElBuyer => "Error: solo el comprador puede liberar el escrow",
            Errores::VendedorInvalido => "Error: la cuenta del vendedor no es la registrada en el escrow",
        }
    }
}

/// The message of each error, as a string literal.
pub open spec fn errores_message(e: Errores) -> &'static str {
    match e {
        Errores::NoAutorizado => "Error: solo TrustPay puede verificar negocios",
        Errores::YaVerificado => "Error: este negocio ya fue verificado",
        Errores::EstadoInvalido => "Error: el escrow no está en el estado correcto para esta operación",
        Errores::NoEresElBuyer => "Error: solo el comprador puede liberar el escrow",
        Errores::VendedorInvalido => "Error: la cuenta del vendedor no es la registrada en el escrow",
    }
}

} // verus!
