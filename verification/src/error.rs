use vstd::prelude::*;

verus! {

/// The failures the NFC driver reports, one variant for each error of the driver.
#[derive(Debug, Clone, Copy, PartialEq, Eq, Structural)]
pub enum NfcError {
    Malloc,
    Undefined(i32),
    UndefinedModulationType,
    NoDeviceFound,
    Io,
    InvalidArgument,
    DeviceNotSupported,
    NoSuchDeviceFound,
    BufferOverflow,
    Timeout,
    OperationAborted,
    NotImplemented,
    TargetReleased,
    RfTransmissionError,
    MifareAuthFailed,
    Soft,
    Chip,
}

/// Why reading the card did not give its authentication block.
#[derive(Debug, Clone, Copy, PartialEq, Eq, Structural)]
pub enum CardError {
    /// No card is in the field.
    NotFound,
    /// The card is not a MIFARE Classic card (wrong technology or an answer to authentication).
    UnsupportedCard,
    /// Selecting a card failed.
    UnknownError,
    /// The driver failed while exchanging a frame with the card.
    NfcError(NfcError),
}

impl From<NfcError> for CardError {
    fn from(value: NfcError) -> (r: Self) {
        CardError::NfcError(value)
    }
}

impl vstd::std_specs::convert::FromSpecImpl<NfcError> for CardError {
    open spec fn obeys_from_spec() -> bool {
        true
    }

    open spec fn from_spec(value: NfcError) -> Self {
        CardError::NfcError(value)
    }
}

} // verus!
