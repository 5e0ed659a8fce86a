//! The closed vocabularies a caller picks request parameters from, and
//! their raw encodings on the wire to the native service.

use vstd::prelude::*;

verus! {

/// Scope of a context: the visibility of the session to be established.
#[derive(Clone, Copy, Debug, PartialEq, Eq, Hash, Structural)]
pub enum Scope {
    User,
    Terminal,
    System,
    Global,
}

/// The raw value that encodes a scope.
pub open spec fn scope_raw(s: Scope) -> u32 {
    match s {
        Scope::User => 0,
        Scope::Terminal => 1,
        Scope::System => 2,
        Scope::Global => 3,
    }
}

impl Scope {
    /// Encode the scope for the native service.
    pub fn to_raw(self) -> (r: u32)
        ensures
            r == scope_raw(self),
    {
        match self {
            Scope::User => 0,
            Scope::Terminal => 1,
            Scope::System => 2,
            Scope::Global => 3,
        }
    }
}

/// How a reader connection is shared.
#[derive(Clone, Copy, Debug, PartialEq, Eq, Hash, Structural)]
pub enum ShareMode {
    Exclusive,
    Shared,
    Direct,
}

/// The raw value that encodes a share mode.
pub open spec fn share_mode_raw(m: ShareMode) -> u32 {
    match m {
        ShareMode::Exclusive => 1,
        ShareMode::Shared => 2,
        ShareMode::Direct => 3,
    }
}

impl ShareMode {
    /// Encode the share mode for the native service.
    pub fn to_raw(self) -> (r: u32)
        ensures
            r == share_mode_raw(self),
    {
        match self {
            ShareMode::Exclusive => 1,
            ShareMode::Shared => 2,
            ShareMode::Direct => 3,
        }
    }
}

/// Disposition method when a card connection or a transaction ends.
#[derive(Clone, Copy, Debug, PartialEq, Eq, Hash, Structural)]
pub enum Disposition {
    LeaveCard,
    ResetCard,
    UnpowerCard,
    EjectCard,
}

/// The raw value that encodes a disposition.
pub open spec fn disposition_raw(d: Disposition) -> u32 {
    match d {
        Disposition::LeaveCard => 0,
        Disposition::ResetCard => 1,
        Disposition::UnpowerCard => 2,
        Disposition::EjectCard => 3,
    }
}

impl Disposition {
    /// Encode the disposition for the native service.
    pub fn to_raw(self) -> (r: u32)
        ensures
            r == disposition_raw(self),
    {
        match self {
            Disposition::LeaveCard => 0,
            Disposition::ResetCard => 1,
            Disposition::UnpowerCard => 2,
            Disposition::EjectCard => 3,
        }
    }
}

/// A smart-card communication protocol: one of the concrete protocols the
/// native service can negotiate.
#[derive(Clone, Copy, Debug, PartialEq, Eq, Hash, Structural)]
pub enum Protocol {
    T0,
    T1,
    RAW,
}

/// Whether a raw word names exactly one concrete protocol.
pub open spec fn valid_protocol_raw(raw: u32) -> bool {
    raw == 1 || raw == 2 || raw == 4
}

/// The concrete protocol named by a valid raw word.
pub open spec fn protocol_from_raw(raw: u32) -> Protocol {
    if raw == 1 {
        Protocol::T0
    } else if raw == 2 {
        Protocol::T1
    } else {
        Protocol::RAW
    }
}

impl Protocol {
    /// Decode the protocol word the native service negotiated.
    ///
    /// Only the three concrete protocol values this layer itself offers
    /// can come back, so any other word is a programming-contract
    /// violation and is ruled out by the precondition.
    pub fn from_raw(raw: u32) -> (r: Protocol)
        requires
            valid_protocol_raw(raw),
        ensures
            r == protocol_from_raw(raw),
    {
        if raw == 1 {
            Protocol::T0
        } else if raw == 2 {
            Protocol::T1
        } else {
            Protocol::RAW
        }
    }
}

/// A class of attributes.
#[derive(Clone, Copy, Debug, PartialEq, Eq, Hash, Structural)]
pub enum AttributeClass {
    VendorInfo,
    Communications,
    Protocol,
    PowerMgmt,
    Security,
    Mechanical,
    VendorDefined,
    IfdProtocol,
    IccState,
    System,
}

/// The raw value that encodes an attribute class.
pub open spec fn attribute_class_raw(c: AttributeClass) -> u32 {
    match c {
        AttributeClass::VendorInfo => 1,
        AttributeClass::Communications => 2,
        AttributeClass::Protocol => 3,
        AttributeClass::PowerMgmt => 4,
        AttributeClass::Security => 5,
        AttributeClass::Mechanical => 6,
        AttributeClass::VendorDefined => 7,
        AttributeClass::IfdProtocol => 8,
        AttributeClass::IccState => 9,
        AttributeClass::System => 0x7FFF,
    }
}

impl AttributeClass {
    /// Encode the attribute class for the native service.
    pub fn to_raw(self) -> (r: u32)
        ensures
            r == attribute_class_raw(self),
    {
        match self {
            AttributeClass::VendorInfo => 1,
            AttributeClass::Communications => 2,
            AttributeClass::Protocol => 3,
            AttributeClass::PowerMgmt => 4,
            AttributeClass::Security => 5,
            AttributeClass::Mechanical => 6,
            AttributeClass::VendorDefined => 7,
            AttributeClass::IfdProtocol => 8,
            AttributeClass::IccState => 9,
            AttributeClass::System => 0x7FFF,
        }
    }
}

/// Card and card-reader attribute kinds.
///
/// The raw encoding of each kind carries its class in the high half of the
/// word and its tag in the low half.
#[derive(Clone, Copy, Debug, PartialEq, Eq, Hash, Structural)]
pub enum Attribute {
    VendorName,
    VendorIfdType,
    VendorIfdVersion,
    VendorIfdSerialNo,
    ChannelId,
    AsyncProtocolTypes,
    DefaultClk,
    MaxClk,
    DefaultDataRate,
    MaxDataRate,
    MaxIfsd,
    SyncProtocolTypes,
    PowerMgmtSupport,
    UserToCardAuthDevice,
    UserAuthInputDevice,
    Characteristics,
    CurrentProtocolType,
    CurrentClk,
    CurrentF,
    CurrentD,
    CurrentN,
    CurrentW,
    CurrentIfsc,
    CurrentIfsd,
    CurrentBwt,
    CurrentCwt,
    CurrentEbcEncoding,
    ExtendedBwt,
    IccPresence,
    IccInterfaceStatus,
    CurrentIoState,
    AtrString,
    IccTypePerAtr,
    EscReset,
    EscCancel,
    EscAuthrequest,
    Maxinput,
    DeviceUnit,
    DeviceInUse,
    DeviceFriendlyName,
    DeviceSystemName,
    SupressT1IfsRequest,
}

/// The raw value that encodes an attribute kind.
pub open spec fn attribute_raw(a: Attribute) -> u32 {
    match a {
        Attribute::VendorName => 0x0001_0100,
        Attribute::VendorIfdType => 0x0001_0101,
        Attribute::VendorIfdVersion => 0x0001_0102,
        Attribute::VendorIfdSerialNo => 0x0001_0103,
        Attribute::ChannelId => 0x0002_0110,
        Attribute::AsyncProtocolTypes => 0x0003_0120,
        Attribute::DefaultClk => 0x0003_0121,
        Attribute::MaxClk => 0x0003_0122,
        Attribute::DefaultDataRate => 0x0003_0123,
        Attribute::MaxDataRate => 0x0003_0124,
        Attribute::MaxIfsd => 0x0003_0125,
        Attribute::SyncProtocolTypes => 0x0003_0126,
        Attribute::PowerMgmtSupport => 0x0004_0131,
        Attribute::UserToCardAuthDevice => 0x0005_0140,
        Attribute::UserAuthInputDevice => 0x0005_0142,
        Attribute::Characteristics => 0x0006_0150,
        Attribute::CurrentProtocolType => 0x0008_0201,
        Attribute::CurrentClk => 0x0008_0202,
        Attribute::CurrentF => 0x0008_0203,
        Attribute::CurrentD => 0x0008_0204,
        Attribute::CurrentN => 0x0008_0205,
        Attribute::CurrentW => 0x0008_0206,
        Attribute::CurrentIfsc => 0x0008_0207,
        Attribute::CurrentIfsd => 0x0008_0208,
        Attribute::CurrentBwt => 0x0008_0209,
        Attribute::CurrentCwt => 0x0008_020A,
        Attribute::CurrentEbcEncoding => 0x0008_020B,
        Attribute::ExtendedBwt => 0x0008_020C,
        Attribute::IccPresence => 0x0009_0300,
        Attribute::IccInterfaceStatus => 0x0009_0301,
        Attribute::CurrentIoState => 0x0009_0302,
        Attribute::AtrString => 0x0009_0303,
        Attribute::IccTypePerAtr => 0x0009_0304,
        Attribute::EscReset => 0x0007_A000,
        Attribute::EscCancel => 0x0007_A003,
        Attribute::EscAuthrequest => 0x0007_A005,
        Attribute::Maxinput => 0x0007_A007,
        Attribute::DeviceUnit => 0x7FFF_0001,
        Attribute::DeviceInUse => 0x7FFF_0002,
        Attribute::DeviceFriendlyName => 0x7FFF_0003,
        Attribute::DeviceSystemName => 0x7FFF_0004,
        Attribute::SupressT1IfsRequest => 0x7FFF_0007,
    }
}

impl Attribute {
    /// Encode the attribute kind for the native service.
    pub fn to_raw(self) -> (r: u32)
        ensures
            r == attribute_raw(self),
    {
        match self {
            Attribute::VendorName => 0x0001_0100,
            Attribute::VendorIfdType => 0x0001_0101,
            Attribute::VendorIfdVersion => 0x0001_0102,
            Attribute::VendorIfdSerialNo => 0x0001_0103,
            Attribute::ChannelId => 0x0002_0110,
            Attribute::AsyncProtocolTypes => 0x0003_0120,
            Attribute::DefaultClk => 0x0003_0121,
            Attribute::MaxClk => 0x0003_0122,
            Attribute::DefaultDataRate => 0x0003_0123,
            Attribute::MaxDataRate => 0x0003_0124,
            Attribute::MaxIfsd => 0x0003_0125,
            Attribute::SyncProtocolTypes => 0x0003_0126,
            Attribute::PowerMgmtSupport => 0x0004_0131,
            Attribute::UserToCardAuthDevice => 0x0005_0140,
            Attribute::UserAuthInputDevice => 0x0005_0142,
            Attribute::Characteristics => 0x0006_0150,
            Attribute::CurrentProtocolType => 0x0008_0201,
            Attribute::CurrentClk => 0x0008_0202,
            Attribute::CurrentF => 0x0008_0203,
            Attribute::CurrentD => 0x0008_0204,
            Attribute::CurrentN => 0x0008_0205,
            Attribute::CurrentW => 0x0008_0206,
            Attribute::CurrentIfsc => 0x0008_0207,
            Attribute::CurrentIfsd => 0x0008_0208,
            Attribute::CurrentBwt => 0x0008_0209,
            Attribute::CurrentCwt => 0x0008_020A,
            Attribute::CurrentEbcEncoding => 0x0008_020B,
            Attribute::ExtendedBwt => 0x0008_020C,
            Attribute::IccPresence => 0x0009_0300,
            Attribute::IccInterfaceStatus => 0x0009_0301,
            Attribute::CurrentIoState => 0x0009_0302,
            Attribute::AtrString => 0x0009_0303,
            Attribute::IccTypePerAtr => 0x0009_0304,
            Attribute::EscReset => 0x0007_A000,
            Attribute::EscCancel => 0x0007_A003,
            Attribute::EscAuthrequest => 0x0007_A005,
            Attribute::Maxinput => 0x0007_A007,
            Attribute::DeviceUnit => 0x7FFF_0001,
            Attribute::DeviceInUse => 0x7FFF_0002,
            Attribute::DeviceFriendlyName => 0x7FFF_0003,
            Attribute::DeviceSystemName => 0x7FFF_0004,
            Attribute::SupressT1IfsRequest => 0x7FFF_0007,
        }
    }
}

} // verus!
