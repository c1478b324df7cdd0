//! Lays out a single printable page that backs up an encrypted secret twice:
//! as a QR code and as the armored ciphertext printed underneath it.

pub mod builder;
pub mod encryption;
pub mod instruction;
pub mod page;
pub mod scaler;
pub mod svg;
pub mod text;
