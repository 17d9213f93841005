use vstd::prelude::*;

verus! {

/// The category of a transport failure, as the bus implementation
/// reported it through `embedded_hal::i2c::Error::kind`.
#[verifier::external_type_specification]
#[verifier::external_body]
pub struct ExErrorKind(embedded_hal::i2c::ErrorKind);

/// The transport error the driver stores: the bus-independent category
/// of the failure.
pub type TransportError = embedded_hal::i2c::ErrorKind;

/// Errors surfaced by the driver. `E` is the transport error type of the
/// underlying register bus.
#[derive(Debug)]
pub enum BmeError<E> {
    /// The bus reported a failure during a write transaction.
    WriteError(E),
    /// The bus reported a failure during a write-then-read transaction.
    WriteReadError(E),
    /// The chip-id register held this unexpected value during initialization.
    UnexpectedChipId(u8),
    /// No fresh measurement frame could be read within the bounded retries.
    MeasuringTimeOut,
    /// The variant-id register held this byte, which names no known silicon
    /// variant.
    InvalidVariantByte(u8),
    /// A deferred-initialization driver was used before its initialization
    /// step ran.
    Uninitialized,
}

} // verus!
