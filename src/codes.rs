//! Closed enumerations that the native library hands out as small integer
//! codes. Every code decodes: one the enumeration does not know becomes
//! `Unknown`.
use vstd::prelude::*;

verus! {

/// Lifecycle status of a node or of a type.
#[derive(Debug, Copy, Clone, PartialEq, Eq, Structural)]
pub enum SmiStatus {
    Unknown,
    Current,
    Deprecated,
    Mandatory,
    Optional,
    Obsolete,
}

/// Access level of a node.
#[derive(Debug, Copy, Clone, PartialEq, Eq, Structural)]
pub enum SmiAccess {
    Unknown,
    NotImplemented,
    NotAccessible,
    Notify,
    ReadOnly,
    ReadWrite,
    Install,
    InstallNotify,
    ReportOnly,
    EventOnly,
}

/// Primitive type that a textual convention is built on.
#[derive(Debug, Copy, Clone, PartialEq, Eq, Structural)]
pub enum SmiBasetype {
    Unknown,
    Integer32,
    OctetString,
    ObjectIdentifier,
    Unsigned32,
    Integer64,
    Unsigned64,
    Float32,
    Float64,
    Float128,
    Enum,
    Bits,
    Pointer,
}

/// The status that a native code stands for.
pub open spec fn status_of(code: u32) -> SmiStatus {
    if code == 1 {
        SmiStatus::Current
    } else if code == 2 {
        SmiStatus::Deprecated
    } else if code == 3 {
        SmiStatus::Mandatory
    } else if code == 4 {
        SmiStatus::Optional
    } else if code == 5 {
        SmiStatus::Obsolete
    } else {
        SmiStatus::Unknown
    }
}

/// The access level that a native code stands for.
pub open spec fn access_of(code: u32) -> SmiAccess {
    if code == 1 {
        SmiAccess::NotImplemented
    } else if code == 2 {
        SmiAccess::NotAccessible
    } else if code == 3 {
        SmiAccess::Notify
    } else if code == 4 {
        SmiAccess::ReadOnly
    } else if code == 5 {
        SmiAccess::ReadWrite
    } else if code == 6 {
        SmiAccess::Install
    } else if code == 7 {
        SmiAccess::InstallNotify
    } else if code == 8 {
        SmiAccess::ReportOnly
    } else if code == 9 {
        SmiAccess::EventOnly
    } else {
        SmiAccess::Unknown
    }
}

/// The base type that a native code stands for.
pub open spec fn basetype_of(code: u32) -> SmiBasetype {
    if code == 1 {
        SmiBasetype::Integer32
    } else if code == 2 {
        SmiBasetype::OctetString
    } else if code == 3 {
        SmiBasetype::ObjectIdentifier
    } else if code == 4 {
        SmiBasetype::Unsigned32
    } else if code == 5 {
        SmiBasetype::Integer64
    } else if code == 6 {
        SmiBasetype::Unsigned64
    } else if code == 7 {
        SmiBasetype::Float32
    } else if code == 8 {
        SmiBasetype::Float64
    } else if code == 9 {
        SmiBasetype::Float128
    } else if code == 10 {
        SmiBasetype::Enum
    } else if code == 11 {
        SmiBasetype::Bits
    } else if code == 12 {
        SmiBasetype::Pointer
    } else {
        SmiBasetype::Unknown
    }
}

impl SmiStatus {
    /// The native code of this status.
    pub open spec fn spec_code(self) -> u32 {
        match self {
            SmiStatus::Unknown => 0,
            SmiStatus::Current => 1,
            SmiStatus::Deprecated => 2,
            SmiStatus::Mandatory => 3,
            SmiStatus::Optional => 4,
            SmiStatus::Obsolete => 5,
        }
    }

    /// Decodes a native status code; an unrecognised code gives `Unknown`.
    pub fn from_code(code: u32) -> (r: SmiStatus)
        ensures
            r == status_of(code),
    {
        match code {
            1 => SmiStatus::Current,
            2 => SmiStatus::Deprecated,
            3 => SmiStatus::Mandatory,
            4 => SmiStatus::Optional,
            5 => SmiStatus::Obsolete,
            _ => SmiStatus::Unknown,
        }
    }

    /// The native code of this status.
    pub fn code(&self) -> (r: u32)
        ensures
            r == self.spec_code(),
    {
        match self {
            SmiStatus::Unknown => 0,
            SmiStatus::Current => 1,
            SmiStatus::Deprecated => 2,
            SmiStatus::Mandatory => 3,
            SmiStatus::Optional => 4,
            SmiStatus::Obsolete => 5,
        }
    }
}

impl SmiAccess {
    /// The native code of this access level.
    pub open spec fn spec_code(self) -> u32 {
        match self {
            SmiAccess::Unknown => 0,
            SmiAccess::NotImplemented => 1,
            SmiAccess::NotAccessible => 2,
            SmiAccess::Notify => 3,
            SmiAccess::ReadOnly => 4,
            SmiAccess::ReadWrite => 5,
            SmiAccess::Install => 6,
            SmiAccess::InstallNotify => 7,
            SmiAccess::ReportOnly => 8,
            SmiAccess::EventOnly => 9,
        }
    }

    /// Decodes a native access code; an unrecognised code gives `Unknown`.
    pub fn from_code(code: u32) -> (r: SmiAccess)
        ensures
            r == access_of(code),
    {
        match code {
            1 => SmiAccess::NotImplemented,
            2 => SmiAccess::NotAccessible,
            3 => SmiAccess::Notify,
            4 => SmiAccess::ReadOnly,
            5 => SmiAccess::ReadWrite,
            6 => SmiAccess::Install,
            7 => SmiAccess::InstallNotify,
            8 => SmiAccess::ReportOnly,
            9 => SmiAccess::EventOnly,
            _ => SmiAccess::Unknown,
        }
    }

    /// The native code of this access level.
    pub fn code(&self) -> (r: u32)
        ensures
            r == self.spec_code(),
    {
        match self {
            SmiAccess::Unknown => 0,
            SmiAccess::NotImplemented => 1,
            SmiAccess::NotAccessible => 2,
            SmiAccess::Notify => 3,
            SmiAccess::ReadOnly => 4,
            SmiAccess::ReadWrite => 5,
            SmiAccess::Install => 6,
            SmiAccess::InstallNotify => 7,
            SmiAccess::ReportOnly => 8,
            SmiAccess::EventOnly => 9,
        }
    }
}

impl SmiBasetype {
    /// The native code of this base type.
    pub open spec fn spec_code(self) -> u32 {
        match self {
            SmiBasetype::Unknown => 0,
            SmiBasetype::Integer32 => 1,
            SmiBasetype::OctetString => 2,
            SmiBasetype::ObjectIdentifier => 3,
            SmiBasetype::Unsigned32 => 4,
            SmiBasetype::Integer64 => 5,
            SmiBasetype::Unsigned64 => 6,
            SmiBasetype::Float32 => 7,
            SmiBasetype::Float64 => 8,
            SmiBasetype::Float128 => 9,
            SmiBasetype::Enum => 10,
            SmiBasetype::Bits => 11,
            SmiBasetype::Pointer => 12,
        }
    }

    /// Decodes a native base-type code; an unrecognised code gives `Unknown`.
    pub fn from_code(code: u32) -> (r: SmiBasetype)
        ensures
            r == basetype_of(code),
    {
        match code {
            1 => SmiBasetype::Integer32,
            2 => SmiBasetype::OctetString,
            3 => SmiBasetype::ObjectIdentifier,
            4 => SmiBasetype::Unsigned32,
            5 => SmiBasetype::Integer64,
            6 => SmiBasetype::Unsigned64,
            7 => SmiBasetype::Float32,
            8 => SmiBasetype::Float64,
            9 => SmiBasetype::Float128,
            10 => SmiBasetype::Enum,
            11 => SmiBasetype::Bits,
            12 => SmiBasetype::Pointer,
            _ => SmiBasetype::Unknown,
        }
    }

    /// The native code of this base type.
    pub fn code(&self) -> (r: u32)
        ensures
            r == self.spec_code(),
    {
        match self {
            SmiBasetype::Unknown => 0,
            SmiBasetype::Integer32 => 1,
            SmiBasetype::OctetString => 2,
            SmiBasetype::ObjectIdentifier => 3,
            SmiBasetype::Unsigned32 => 4,
            SmiBasetype::Integer64 => 5,
            SmiBasetype::Unsigned64 => 6,
            SmiBasetype::Float32 => 7,
            SmiBasetype::Float64 => 8,
            SmiBasetype::Float128 => 9,
            SmiBasetype::Enum => 10,
            SmiBasetype::Bits => 11,
            SmiBasetype::Pointer => 12,
        }
    }
}

/// Decoding never fails: a status, access or base-type code that names no
/// known member decodes to the `Unknown` member.
pub proof fn lemma_unrecognised_codes_decode_to_unknown(code: u32)
    ensures
        !(1 <= code <= 5) ==> status_of(code) == SmiStatus::Unknown,
        !(1 <= code <= 9) ==> access_of(code) == SmiAccess::Unknown,
        !(1 <= code <= 12) ==> basetype_of(code) == SmiBasetype::Unknown,
{
}

/// Decoding the code of a member gives that member back.
pub proof fn lemma_code_round_trip(s: SmiStatus, a: SmiAccess, b: SmiBasetype)
    ensures
        status_of(s.spec_code()) == s,
        access_of(a.spec_code()) == a,
        basetype_of(b.spec_code()) == b,
{
}

} // verus!
