//! The error taxonomy of the flashing pipeline. Every stage surfaces its
//! failure verbatim to the caller; no stage recovers or falls back silently.

use vstd::prelude::*;

use crate::strings::{dec_digits, u32_to_string};

verus! {

/// One error for the whole pipeline, from catalog lookup to device write.
#[derive(Debug, PartialEq, Eq)]
pub enum FlashError {
    /// The catalog service could not be reached or did not answer.
    CatalogFetchFailed,
    /// The catalog service answered with a body that did not parse.
    CatalogParseFailed,
    /// No board in the catalog carries this hardware-model identifier.
    BoardNotFound { hw_model: u32 },
    /// No firmware release in either channel carries this identifier.
    ReleaseNotFound { id: String },
    /// The version identifier does not contain a `MAJOR.MINOR.PATCH` core.
    MalformedVersion { input: String },
    /// A numeric component of the version does not fit in 32 bits.
    NumericOverflow { input: String },
    /// The version identifier carries no build hash or label suffix.
    MissingBuild { input: String },
    /// The board's architecture string belongs to no supported family.
    UnsupportedArchitecture { architecture: String },
    /// The downloaded bundle is not a readable archive.
    ArchiveCorrupt,
    /// The bundle holds no entry with this exact name.
    EntryNotFound { name: String },
    /// The bundle entry with this name could not be decompressed.
    ReadError { name: String },
    /// No USB serial port with this platform name is attached.
    PortNotFound { name: String },
    /// The operating system refused to enumerate serial ports.
    PortEnumerationFailed,
    /// The bootloader handshake on the serial line failed.
    DeviceConnectFailed,
    /// A chunk write failed; the offset is where the chunk began.
    DeviceWriteFailed { offset: u32 },
    /// A file operation on the mass-storage volume failed.
    FileIoFailed { path: String },
}

/// The human-readable text of each error.
pub open spec fn spec_message(e: FlashError) -> Seq<char> {
    match e {
        FlashError::CatalogFetchFailed => "Error while fetching from the catalog service"@,
        FlashError::CatalogParseFailed => "Error while parsing the catalog response"@,
        FlashError::BoardNotFound { hw_model } => "Board with hardware model "@ + dec_digits(
            hw_model as nat,
        ) + " not found"@,
        FlashError::ReleaseNotFound { id } => "Firmware release "@ + id@
            + " not found in stable or alpha channels"@,
        FlashError::MalformedVersion { input } => "Found malformed firmware version "@ + input@,
        FlashError::NumericOverflow { input } => "Version component out of range in "@ + input@,
        FlashError::MissingBuild { input } => "No version hash found in "@ + input@,
        FlashError::UnsupportedArchitecture { architecture } => "Unsupported architecture: "@
            + architecture@,
        FlashError::ArchiveCorrupt => "Error while parsing firmware archive"@,
        FlashError::EntryNotFound { name } => "File "@ + name@ + " not found in archive"@,
        FlashError::ReadError { name } => "Error while reading firmware file "@ + name@
            + " from archive"@,
        FlashError::PortNotFound { name } => "Port "@ + name@ + " not found"@,
        FlashError::PortEnumerationFailed => "Error while getting available ports"@,
        FlashError::DeviceConnectFailed => "Error while connecting to port"@,
        FlashError::DeviceWriteFailed { offset } => "Error while writing data buffer to board at offset "@
            + dec_digits(offset as nat),
        FlashError::FileIoFailed { path } => "Error while writing firmware file to "@ + path@,
    }
}

impl FlashError {
    /// Render this error as the human-readable failure message that is
    /// surfaced verbatim to the caller.
    pub fn message(&self) -> (r: String)
        ensures
            r@ == spec_message(*self),
    {
        match self {
            FlashError::CatalogFetchFailed => "Error while fetching from the catalog service"
                .to_owned(),
            FlashError::CatalogParseFailed => "Error while parsing the catalog response"
                .to_owned(),
            FlashError::BoardNotFound { hw_model } => {
                let mut s = "Board with hardware model ".to_owned();
                s.append(u32_to_string(*hw_model).as_str());
                s.append(" not found");
                s
            },
            FlashError::ReleaseNotFound { id } => {
                let mut s = "Firmware release ".to_owned();
                s.append(id.as_str());
                s.append(" not found in stable or alpha channels");
                s
            },
            FlashError::MalformedVersion { input } => {
                let mut s = "Found malformed firmware version ".to_owned();
                s.append(input.as_str());
                s
            },
            FlashError::NumericOverflow { input } => {
                let mut s = "Version component out of range in ".to_owned();
                s.append(input.as_str());
                s
            },
            FlashError::MissingBuild { input } => {
                let mut s = "No version hash found in ".to_owned();
                s.append(input.as_str());
                s
            },
            FlashError::UnsupportedArchitecture { architecture } => {
                let mut s = "Unsupported architecture: ".to_owned();
                s.append(architecture.as_str());
                s
            },
            FlashError::ArchiveCorrupt => "Error while parsing firmware archive".to_owned(),
            FlashError::EntryNotFound { name } => {
                let mut s = "File ".to_owned();
                s.append(name.as_str());
                s.append(" not found in archive");
                s
            },
            FlashError::ReadError { name } => {
                let mut s = "Error while reading firmware file ".to_owned();
                s.append(name.as_str());
                s.append(" from archive");
                s
            },
            FlashError::PortNotFound { name } => {
                let mut s = "Port ".to_owned();
                s.append(name.as_str());
                s.append(" not found");
                s
            },
            FlashError::PortEnumerationFailed => "Error while getting available ports".to_owned(),
            FlashError::DeviceConnectFailed => "Error while connecting to port".to_owned(),
            FlashError::DeviceWriteFailed { offset } => {
                let mut s = "Error while writing data buffer to board at offset ".to_owned();
                s.append(u32_to_string(*offset).as_str());
                s
            },
            FlashError::FileIoFailed { path } => {
                let mut s = "Error while writing firmware file to ".to_owned();
                s.append(path.as_str());
                s
            },
        }
    }
}

impl Clone for FlashError {
    fn clone(&self) -> (r: Self)
        ensures
            r == *self,
    {
        match self {
            FlashError::CatalogFetchFailed => FlashError::CatalogFetchFailed,
            FlashError::CatalogParseFailed => FlashError::CatalogParseFailed,
            FlashError::BoardNotFound { hw_model } => FlashError::BoardNotFound {
                hw_model: *hw_model,
            },
            FlashError::ReleaseNotFound { id } => FlashError::ReleaseNotFound { id: id.clone() },
            FlashError::MalformedVersion { input } => FlashError::MalformedVersion {
                input: input.clone(),
            },
            FlashError::NumericOverflow { input } => FlashError::NumericOverflow {
                input: input.clone(),
            },
            FlashError::MissingBuild { input } => FlashError::MissingBuild {
                input: input.clone(),
            },
            FlashError::UnsupportedArchitecture { architecture } => {
                FlashError::UnsupportedArchitecture { architecture: architecture.clone() }
            },
            FlashError::ArchiveCorrupt => FlashError::ArchiveCorrupt,
            FlashError::EntryNotFound { name } => FlashError::EntryNotFound { name: name.clone() },
            FlashError::ReadError { name } => FlashError::ReadError { name: name.clone() },
            FlashError::PortNotFound { name } => FlashError::PortNotFound { name: name.clone() },
            FlashError::PortEnumerationFailed => FlashError::PortEnumerationFailed,
            FlashError::DeviceConnectFailed => FlashError::DeviceConnectFailed,
            FlashError::DeviceWriteFailed { offset } => FlashError::DeviceWriteFailed {
                offset: *offset,
            },
            FlashError::FileIoFailed { path } => FlashError::FileIoFailed { path: path.clone() },
        }
    }
}

} // verus!
