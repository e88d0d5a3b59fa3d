//! Command encoding for thermal receipt printers.
//!
//! Print directives (text styling, barcodes, bit images, status queries) are
//! turned into the exact bytes that a printer of one of two command dialects
//! understands. Every function states the bytes it produces in its contract.

pub mod error;
pub mod barcode;
pub mod text;
pub mod consts;
pub mod keyword;
pub mod wire;
pub mod img;
pub mod status;
pub mod command;
pub mod printer;
