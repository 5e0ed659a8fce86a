//! The error taxonomy: the closed set of named error kinds and the total
//! mapping from raw native status codes onto it.
//!
//! The native service reports failure through a signed status code.  Two
//! contiguous ranges of codes are meaningful: one for hard failures and one
//! for warning conditions.  Every code inside those ranges has a named kind
//! of its own; every code outside them is coerced to the catch-all
//! `UnknownError` kind, so that an unrecognised vendor-specific code can
//! never crash a caller.

use vstd::prelude::*;

verus! {

/// The status code with which the native service reports success.
pub const SCARD_S_SUCCESS: i64 = 0;

/// A failure reported by the native smart-card service, by name.
#[derive(Clone, Copy, Debug, PartialEq, Eq, Hash, Structural)]
pub enum Error {
    InternalError,
    Cancelled,
    InvalidHandle,
    InvalidParameter,
    InvalidTarget,
    NoMemory,
    WaitedTooLong,
    InsufficientBuffer,
    UnknownReader,
    Timeout,
    SharingViolation,
    NoSmartcard,
    UnknownCard,
    CantDispose,
    ProtoMismatch,
    NotReady,
    InvalidValue,
    SystemCancelled,
    CommError,
    UnknownError,
    InvalidAtr,
    NotTransacted,
    ReaderUnavailable,
    Shutdown,
    PciTooSmall,
    ReaderUnsupported,
    DuplicateReader,
    CardUnsupported,
    NoService,
    ServiceStopped,
    Unexpected,
    IccInstallation,
    IccCreateorder,
    UnsupportedFeature,
    DirNotFound,
    FileNotFound,
    NoDir,
    NoFile,
    NoAccess,
    WriteTooMany,
    BadSeek,
    InvalidChv,
    UnknownResMng,
    NoSuchCertificate,
    CertificateUnavailable,
    NoReadersAvailable,
    CommDataLost,
    NoKeyContainer,
    ServerTooBusy,
    UnsupportedCard,
    UnresponsiveCard,
    UnpoweredCard,
    ResetCard,
    RemovedCard,
    SecurityViolation,
    WrongChv,
    ChvBlocked,
    Eof,
    CancelledByUser,
    CardNotAuthenticated,
    CacheItemNotFound,
    CacheItemStale,
    CacheItemTooBig,
}

/// Whether a raw code lies in the hard-failure range.
pub open spec fn hard_failure_code(code: i64) -> bool {
    0x8010_0001 <= code <= 0x8010_0031
}

/// Whether a raw code lies in the warning range.
pub open spec fn warning_code(code: i64) -> bool {
    0x8010_0065 <= code <= 0x8010_0072
}

/// The raw native code that a named error kind stands for.
pub open spec fn code_of(e: Error) -> i64 {
    match e {
        Error::InternalError => 0x8010_0001,
        Error::Cancelled => 0x8010_0002,
        Error::InvalidHandle => 0x8010_0003,
        Error::InvalidParameter => 0x8010_0004,
        Error::InvalidTarget => 0x8010_0005,
        Error::NoMemory => 0x8010_0006,
        Error::WaitedTooLong => 0x8010_0007,
        Error::InsufficientBuffer => 0x8010_0008,
        Error::UnknownReader => 0x8010_0009,
        Error::Timeout => 0x8010_000A,
        Error::SharingViolation => 0x8010_000B,
        Error::NoSmartcard => 0x8010_000C,
        Error::UnknownCard => 0x8010_000D,
        Error::CantDispose => 0x8010_000E,
        Error::ProtoMismatch => 0x8010_000F,
        Error::NotReady => 0x8010_0010,
        Error::InvalidValue => 0x8010_0011,
        Error::SystemCancelled => 0x8010_0012,
        Error::CommError => 0x8010_0013,
        Error::UnknownError => 0x8010_0014,
        Error::InvalidAtr => 0x8010_0015,
        Error::NotTransacted => 0x8010_0016,
        Error::ReaderUnavailable => 0x8010_0017,
        Error::Shutdown => 0x8010_0018,
        Error::PciTooSmall => 0x8010_0019,
        Error::ReaderUnsupported => 0x8010_001A,
        Error::DuplicateReader => 0x8010_001B,
        Error::CardUnsupported => 0x8010_001C,
        Error::NoService => 0x8010_001D,
        Error::ServiceStopped => 0x8010_001E,
        Error::Unexpected => 0x8010_001F,
        Error::IccInstallation => 0x8010_0020,
        Error::IccCreateorder => 0x8010_0021,
        Error::UnsupportedFeature => 0x8010_0022,
        Error::DirNotFound => 0x8010_0023,
        Error::FileNotFound => 0x8010_0024,
        Error::NoDir => 0x8010_0025,
        Error::NoFile => 0x8010_0026,
        Error::NoAccess => 0x8010_0027,
        Error::WriteTooMany => 0x8010_0028,
        Error::BadSeek => 0x8010_0029,
        Error::InvalidChv => 0x8010_002A,
        Error::UnknownResMng => 0x8010_002B,
        Error::NoSuchCertificate => 0x8010_002C,
        Error::CertificateUnavailable => 0x8010_002D,
        Error::NoReadersAvailable => 0x8010_002E,
        Error::CommDataLost => 0x8010_002F,
        Error::NoKeyContainer => 0x8010_0030,
        Error::ServerTooBusy => 0x8010_0031,
        Error::UnsupportedCard => 0x8010_0065,
        Error::UnresponsiveCard => 0x8010_0066,
        Error::UnpoweredCard => 0x8010_0067,
        Error::ResetCard => 0x8010_0068,
        Error::RemovedCard => 0x8010_0069,
        Error::SecurityViolation => 0x8010_006A,
        Error::WrongChv => 0x8010_006B,
        Error::ChvBlocked => 0x8010_006C,
        Error::Eof => 0x8010_006D,
        Error::CancelledByUser => 0x8010_006E,
        Error::CardNotAuthenticated => 0x8010_006F,
        Error::CacheItemNotFound => 0x8010_0070,
        Error::CacheItemStale => 0x8010_0071,
        Error::CacheItemTooBig => 0x8010_0072,
    }
}

/// The named kind that a raw native code maps to: the kind carrying that
/// code when the code lies in one of the two declared ranges, and the
/// catch-all `UnknownError` kind otherwise.
pub open spec fn error_from_code(code: i64) -> Error {
    if code == 0x8010_0001 { Error::InternalError }
    else if code == 0x8010_0002 { Error::Cancelled }
    else if code == 0x8010_0003 { Error::InvalidHandle }
    else if code == 0x8010_0004 { Error::InvalidParameter }
    else if code == 0x8010_0005 { Error::InvalidTarget }
    else if code == 0x8010_0006 { Error::NoMemory }
    else if code == 0x8010_0007 { Error::WaitedTooLong }
    else if code == 0x8010_0008 { Error::InsufficientBuffer }
    else if code == 0x8010_0009 { Error::UnknownReader }
    else if code == 0x8010_000A { Error::Timeout }
    else if code == 0x8010_000B { Error::SharingViolation }
    else if code == 0x8010_000C { Error::NoSmartcard }
    else if code == 0x8010_000D { Error::UnknownCard }
    else if code == 0x8010_000E { Error::CantDispose }
    else if code == 0x8010_000F { Error::ProtoMismatch }
    else if code == 0x8010_0010 { Error::NotReady }
    else if code == 0x8010_0011 { Error::InvalidValue }
    else if code == 0x8010_0012 { Error::SystemCancelled }
    else if code == 0x8010_0013 { Error::CommError }
    else if code == 0x8010_0014 { Error::UnknownError }
    else if code == 0x8010_0015 { Error::InvalidAtr }
    else if code == 0x8010_0016 { Error::NotTransacted }
    else if code == 0x8010_0017 { Error::ReaderUnavailable }
    else if code == 0x8010_0018 { Error::Shutdown }
    else if code == 0x8010_0019 { Error::PciTooSmall }
    else if code == 0x8010_001A { Error::ReaderUnsupported }
    else if code == 0x8010_001B { Error::DuplicateReader }
    else if code == 0x8010_001C { Error::CardUnsupported }
    else if code == 0x8010_001D { Error::NoService }
    else if code == 0x8010_001E { Error::ServiceStopped }
    else if code == 0x8010_001F { Error::Unexpected }
    else if code == 0x8010_0020 { Error::IccInstallation }
    else if code == 0x8010_0021 { Error::IccCreateorder }
    else if code == 0x8010_0022 { Error::UnsupportedFeature }
    else if code == 0x8010_0023 { Error::DirNotFound }
    else if code == 0x8010_0024 { Error::FileNotFound }
    else if code == 0x8010_0025 { Error::NoDir }
    else if code == 0x8010_0026 { Error::NoFile }
    else if code == 0x8010_0027 { Error::NoAccess }
    else if code == 0x8010_0028 { Error::WriteTooMany }
    else if code == 0x8010_0029 { Error::BadSeek }
    else if code == 0x8010_002A { Error::InvalidChv }
    else if code == 0x8010_002B { Error::UnknownResMng }
    else if code == 0x8010_002C { Error::NoSuchCertificate }
    else if code == 0x8010_002D { Error::CertificateUnavailable }
    else if code == 0x8010_002E { Error::NoReadersAvailable }
    else if code == 0x8010_002F { Error::CommDataLost }
    else if code == 0x8010_0030 { Error::NoKeyContainer }
    else if code == 0x8010_0031 { Error::ServerTooBusy }
    else if code == 0x8010_0065 { Error::UnsupportedCard }
    else if code == 0x8010_0066 { Error::UnresponsiveCard }
    else if code == 0x8010_0067 { Error::UnpoweredCard }
    else if code == 0x8010_0068 { Error::ResetCard }
    else if code == 0x8010_0069 { Error::RemovedCard }
    else if code == 0x8010_006A { Error::SecurityViolation }
    else if code == 0x8010_006B { Error::WrongChv }
    else if code == 0x8010_006C { Error::ChvBlocked }
    else if code == 0x8010_006D { Error::Eof }
    else if code == 0x8010_006E { Error::CancelledByUser }
    else if code == 0x8010_006F { Error::CardNotAuthenticated }
    else if code == 0x8010_0070 { Error::CacheItemNotFound }
    else if code == 0x8010_0071 { Error::CacheItemStale }
    else if code == 0x8010_0072 { Error::CacheItemTooBig }
    else { Error::UnknownError }
}

impl Error {
    /// Map a raw native status code to its named kind.
    ///
    /// Total: a code outside both declared ranges yields `UnknownError`
    /// rather than failing.
    pub fn from_raw(raw: i64) -> (r: Error)
        ensures
            r == error_from_code(raw),
    {
        match raw {
            0x8010_0001 => Error::InternalError,
            0x8010_0002 => Error::Cancelled,
            0x8010_0003 => Error::InvalidHandle,
            0x8010_0004 => Error::InvalidParameter,
            0x8010_0005 => Error::InvalidTarget,
            0x8010_0006 => Error::NoMemory,
            0x8010_0007 => Error::WaitedTooLong,
            0x8010_0008 => Error::InsufficientBuffer,
            0x8010_0009 => Error::UnknownReader,
            0x8010_000A => Error::Timeout,
            0x8010_000B => Error::SharingViolation,
            0x8010_000C => Error::NoSmartcard,
            0x8010_000D => Error::UnknownCard,
            0x8010_000E => Error::CantDispose,
            0x8010_000F => Error::ProtoMismatch,
            0x8010_0010 => Error::NotReady,
            0x8010_0011 => Error::InvalidValue,
            0x8010_0012 => Error::SystemCancelled,
            0x8010_0013 => Error::CommError,
            0x8010_0014 => Error::UnknownError,
            0x8010_0015 => Error::InvalidAtr,
            0x8010_0016 => Error::NotTransacted,
            0x8010_0017 => Error::ReaderUnavailable,
            0x8010_0018 => Error::Shutdown,
            0x8010_0019 => Error::PciTooSmall,
            0x8010_001A => Error::ReaderUnsupported,
            0x8010_001B => Error::DuplicateReader,
            0x8010_001C => Error::CardUnsupported,
            0x8010_001D => Error::NoService,
            0x8010_001E => Error::ServiceStopped,
            0x8010_001F => Error::Unexpected,
            0x8010_0020 => Error::IccInstallation,
            0x8010_0021 => Error::IccCreateorder,
            0x8010_0022 => Error::UnsupportedFeature,
            0x8010_0023 => Error::DirNotFound,
            0x8010_0024 => Error::FileNotFound,
            0x8010_0025 => Error::NoDir,
            0x8010_0026 => Error::NoFile,
            0x8010_0027 => Error::NoAccess,
            0x8010_0028 => Error::WriteTooMany,
            0x8010_0029 => Error::BadSeek,
            0x8010_002A => Error::InvalidChv,
            0x8010_002B => Error::UnknownResMng,
            0x8010_002C => Error::NoSuchCertificate,
            0x8010_002D => Error::CertificateUnavailable,
            0x8010_002E => Error::NoReadersAvailable,
            0x8010_002F => Error::CommDataLost,
            0x8010_0030 => Error::NoKeyContainer,
            0x8010_0031 => Error::ServerTooBusy,
            0x8010_0065 => Error::UnsupportedCard,
            0x8010_0066 => Error::UnresponsiveCard,
            0x8010_0067 => Error::UnpoweredCard,
            0x8010_0068 => Error::ResetCard,
            0x8010_0069 => Error::RemovedCard,
            0x8010_006A => Error::SecurityViolation,
            0x8010_006B => Error::WrongChv,
            0x8010_006C => Error::ChvBlocked,
            0x8010_006D => Error::Eof,
            0x8010_006E => Error::CancelledByUser,
            0x8010_006F => Error::CardNotAuthenticated,
            0x8010_0070 => Error::CacheItemNotFound,
            0x8010_0071 => Error::CacheItemStale,
            0x8010_0072 => Error::CacheItemTooBig,
            _ => Error::UnknownError,
        }
    }
}

/// Law: every raw code in the hard-failure range maps to the named kind
/// that stands for exactly that code, so the range has no gaps and no two
/// of its codes share a kind.
pub proof fn lemma_hard_failure_range_exact()
    ensures
        forall |c: i64| hard_failure_code(c) ==> #[trigger] code_of(error_from_code(c)) == c,
{
}

/// Law: every raw code in the warning range maps to the named kind that
/// stands for exactly that code, so the range has no gaps and no two of
/// its codes share a kind.
pub proof fn lemma_warning_range_exact()
    ensures
        forall |c: i64| warning_code(c) ==> #[trigger] code_of(error_from_code(c)) == c,
{
}

/// Law: every raw code outside both declared ranges maps to the catch-all
/// kind; the mapping is total and never rejects a code.
pub proof fn lemma_unmapped_code_is_catch_all()
    ensures
        forall |c: i64| !hard_failure_code(c) && !warning_code(c)
            ==> #[trigger] error_from_code(c) == Error::UnknownError,
{
}

} // verus!
