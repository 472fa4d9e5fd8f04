//! One handler per instruction, over the accounts of `state` and the errors
//! of `errors`.
pub mod crear_escrow;
pub mod liberar_escrow;
pub mod registrar_negocio;
pub mod verificar_negocio;
