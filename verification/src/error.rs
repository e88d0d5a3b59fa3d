use vstd::prelude::*;

verus! {

/// Why a print directive was turned down.
#[derive(Clone, Copy, Debug, PartialEq, Eq, Structural)]
pub enum PrinterError {
    /// The command has no encoding in the active dialect.
    UnsupportedOperation,
    /// A keyword argument was not one of the recognised values.
    InvalidArgument,
    /// The text could not be encoded under the configured policy.
    Encoding,
    /// A device reply was not valid text.
    Decoding,
}

} // verus!
