//! Why a connection was closed, as the byte that travels with the close.

use vstd::prelude::*;

verus! {

pub const CLOSED_BY_USER: u8 = 1;

pub const NOT_FOUND_PING: u8 = 2;

pub const NOT_FOUND_ENCRYPTION: u8 = 3;

pub const NOT_FOUND_COMPRESSION: u8 = 4;

pub const PING_TIMEOUT: u8 = 5;

pub const ENCRYPTION_ERROR: u8 = 6;

pub const COMPRESSION_ERROR: u8 = 7;

/// The reasons for which a connection is closed.
#[derive(Debug, Clone, Copy, PartialEq, Eq, Structural)]
pub enum CloseCode {
    ClosedByUser,
    NotFoundPing,
    NotFoundEncryption,
    NotFoundCompression,
    PingTimeout,
    EncryptionError,
    CompressionError,
}

impl CloseCode {
    /// The byte that stands for this reason.
    pub open spec fn code(self) -> u8 {
        match self {
            CloseCode::ClosedByUser => CLOSED_BY_USER,
            CloseCode::NotFoundPing => NOT_FOUND_PING,
            CloseCode::NotFoundEncryption => NOT_FOUND_ENCRYPTION,
            CloseCode::NotFoundCompression => NOT_FOUND_COMPRESSION,
            CloseCode::PingTimeout => PING_TIMEOUT,
            CloseCode::EncryptionError => ENCRYPTION_ERROR,
            CloseCode::CompressionError => COMPRESSION_ERROR,
        }
    }

    /// Whether `code` stands for a reason.
    pub open spec fn is_code(code: u8) -> bool {
        CLOSED_BY_USER <= code <= COMPRESSION_ERROR
    }

    /// Returns the byte that stands for this reason.
    pub fn get_code(&self) -> (code: u8)
        ensures
            code == self.code(),
            Self::is_code(code),
    {
        match self {
            CloseCode::ClosedByUser => CLOSED_BY_USER,
            CloseCode::NotFoundPing => NOT_FOUND_PING,
            CloseCode::NotFoundEncryption => NOT_FOUND_ENCRYPTION,
            CloseCode::NotFoundCompression => NOT_FOUND_COMPRESSION,
            CloseCode::PingTimeout => PING_TIMEOUT,
            CloseCode::EncryptionError => ENCRYPTION_ERROR,
            CloseCode::CompressionError => COMPRESSION_ERROR,
        }
    }

    /// Returns the reason that `code` stands for.
    pub fn from_code(code: u8) -> (reason: Self)
        requires
            Self::is_code(code),
        ensures
            reason.code() == code,
    {
        if code == CLOSED_BY_USER {
            CloseCode::ClosedByUser
        } else if code == NOT_FOUND_PING {
            CloseCode::NotFoundPing
        } else if code == NOT_FOUND_ENCRYPTION {
            CloseCode::NotFoundEncryption
        } else if code == NOT_FOUND_COMPRESSION {
            CloseCode::NotFoundCompression
        } else if code == PING_TIMEOUT {
            CloseCode::PingTimeout
        } else if code == ENCRYPTION_ERROR {
            CloseCode::EncryptionError
        } else {
            CloseCode::CompressionError
        }
    }

    /// Returns the reason that `code` stands for, if it stands for one.
    pub fn try_from_code(code: u8) -> (reason: Option<Self>)
        ensures
            reason is Some <==> Self::is_code(code),
            reason matches Some(r) ==> r.code() == code,
    {
        if CLOSED_BY_USER <= code && code <= COMPRESSION_ERROR {
            Some(Self::from_code(code))
        } else {
            None
        }
    }
}

/// Every reason is found again from its byte, and no two reasons share one.
pub proof fn lemma_code_round_trip(reason: CloseCode, other: CloseCode)
    ensures
        CloseCode::is_code(reason.code()),
        reason.code() == other.code() ==> reason == other,
{
}

} // verus!
