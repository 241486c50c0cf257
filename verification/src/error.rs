//! The failures that cache operations report.

use vstd::prelude::*;

verus! {

/// The ways in which a cache operation can fail.
#[derive(Debug, Clone, Copy, PartialEq, Eq, Structural)]
pub enum Error {
    /// A filesystem operation on the backing file failed.
    Io,
    /// A value could not be turned into its encoded form.
    Serialization,
    /// A stored payload is present but cannot be decompressed or decoded.
    CorruptPayload,
    /// A stored payload holds no bytes at all, not even a marker.
    EmptyPayload,
    /// A lock that guards the cache could not be acquired.
    Lock,
    /// The configuration given at construction is not usable.
    Config,
}

impl Error {
    /// The text that describes each failure.
    pub open spec fn message_spec(self) -> Seq<char> {
        match self {
            Error::Io => "Cache file could not be read or written"@,
            Error::Serialization => "Failed to serialize value"@,
            Error::CorruptPayload => "Stored value is corrupt"@,
            Error::EmptyPayload => "Empty data provided for decompression"@,
            Error::Lock => "Cache lock could not be acquired"@,
            Error::Config => "Failed to initialize cache: invalid configuration"@,
        }
    }

    /// A text that describes the failure, for hosts to show or log.
    pub fn message(self) -> (r: String)
        ensures
            r@ == self.message_spec(),
    {
        match self {
            Error::Io => "Cache file could not be read or written".to_owned(),
            Error::Serialization => "Failed to serialize value".to_owned(),
            Error::CorruptPayload => "Stored value is corrupt".to_owned(),
            Error::EmptyPayload => "Empty data provided for decompression".to_owned(),
            Error::Lock => "Cache lock could not be acquired".to_owned(),
            Error::Config => "Failed to initialize cache: invalid configuration".to_owned(),
        }
    }
}

} // verus!
