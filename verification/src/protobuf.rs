//! Enumerations of the protobuf form of the protocol, with their wire
//! numbers.

use vstd::prelude::*;

verus! {

/// Device type enumeration.
#[derive(Debug, Clone, Copy, PartialEq, Eq, Structural)]
pub enum ProtoDeviceType {
    Unknown,
    Phone,
    Tablet,
    Pc,
    Tv,
    Wearable,
}

impl ProtoDeviceType {
    /// The wire number.
    pub open spec fn code(self) -> i32 {
        match self {
            ProtoDeviceType::Unknown => 0,
            ProtoDeviceType::Phone => 1,
            ProtoDeviceType::Tablet => 2,
            ProtoDeviceType::Pc => 3,
            ProtoDeviceType::Tv => 4,
            ProtoDeviceType::Wearable => 5,
        }
    }

    /// The wire number.
    pub fn to_i32(&self) -> (r: i32)
        ensures
            r == self.code(),
    {
        match self {
            ProtoDeviceType::Unknown => 0,
            ProtoDeviceType::Phone => 1,
            ProtoDeviceType::Tablet => 2,
            ProtoDeviceType::Pc => 3,
            ProtoDeviceType::Tv => 4,
            ProtoDeviceType::Wearable => 5,
        }
    }

    /// The type with a wire number, if any.
    pub fn from_i32(v: i32) -> (r: Option<ProtoDeviceType>)
        ensures
            r matches Some(t) ==> t.code() == v,
            r is None ==> forall|t: ProtoDeviceType| t.code() != v,
    {
        match v {
            0 => Some(ProtoDeviceType::Unknown),
            1 => Some(ProtoDeviceType::Phone),
            2 => Some(ProtoDeviceType::Tablet),
            3 => Some(ProtoDeviceType::Pc),
            4 => Some(ProtoDeviceType::Tv),
            5 => Some(ProtoDeviceType::Wearable),
            _ => None,
        }
    }
}

impl Default for ProtoDeviceType {
    fn default() -> (r: ProtoDeviceType)
        ensures
            r == ProtoDeviceType::Unknown,
    {
        ProtoDeviceType::Unknown
    }
}

/// Transfer error reason.
#[derive(Debug, Clone, Copy, PartialEq, Eq, Structural)]
pub enum ProtoTransferErrorReason {
    /// No error (0 on the wire).
    NoReason,
    DiskFull,
    PermissionDenied,
    UnsupportedType,
    SizeLimitExceeded,
}

impl ProtoTransferErrorReason {
    /// The wire number.
    pub open spec fn code(self) -> i32 {
        match self {
            ProtoTransferErrorReason::NoReason => 0,
            ProtoTransferErrorReason::DiskFull => 1,
            ProtoTransferErrorReason::PermissionDenied => 2,
            ProtoTransferErrorReason::UnsupportedType => 3,
            ProtoTransferErrorReason::SizeLimitExceeded => 4,
        }
    }

    /// The wire number.
    pub fn to_i32(&self) -> (r: i32)
        ensures
            r == self.code(),
    {
        match self {
            ProtoTransferErrorReason::NoReason => 0,
            ProtoTransferErrorReason::DiskFull => 1,
            ProtoTransferErrorReason::PermissionDenied => 2,
            ProtoTransferErrorReason::UnsupportedType => 3,
            ProtoTransferErrorReason::SizeLimitExceeded => 4,
        }
    }

    /// The reason with a wire number, if any.
    pub fn from_i32(v: i32) -> (r: Option<ProtoTransferErrorReason>)
        ensures
            r matches Some(t) ==> t.code() == v,
            r is None ==> forall|t: ProtoTransferErrorReason| t.code() != v,
    {
        match v {
            0 => Some(ProtoTransferErrorReason::NoReason),
            1 => Some(ProtoTransferErrorReason::DiskFull),
            2 => Some(ProtoTransferErrorReason::PermissionDenied),
            3 => Some(ProtoTransferErrorReason::UnsupportedType),
            4 => Some(ProtoTransferErrorReason::SizeLimitExceeded),
            _ => None,
        }
    }
}

impl Default for ProtoTransferErrorReason {
    fn default() -> (r: ProtoTransferErrorReason)
        ensures
            r == ProtoTransferErrorReason::NoReason,
    {
        ProtoTransferErrorReason::NoReason
    }
}

/// Touch event type.
#[derive(Debug, Clone, Copy, PartialEq, Eq, Structural)]
pub enum ProtoTouchType {
    Unknown,
    Down,
    Move,
    Up,
    Cancel,
}

impl ProtoTouchType {
    /// The wire number.
    pub open spec fn code(self) -> i32 {
        match self {
            ProtoTouchType::Unknown => 0,
            ProtoTouchType::Down => 1,
            ProtoTouchType::Move => 2,
            ProtoTouchType::Up => 3,
            ProtoTouchType::Cancel => 4,
        }
    }

    /// The wire number.
    pub fn to_i32(&self) -> (r: i32)
        ensures
            r == self.code(),
    {
        match self {
            ProtoTouchType::Unknown => 0,
            ProtoTouchType::Down => 1,
            ProtoTouchType::Move => 2,
            ProtoTouchType::Up => 3,
            ProtoTouchType::Cancel => 4,
        }
    }

    /// The type with a wire number, if any.
    pub fn from_i32(v: i32) -> (r: Option<ProtoTouchType>)
        ensures
            r matches Some(t) ==> t.code() == v,
            r is None ==> forall|t: ProtoTouchType| t.code() != v,
    {
        match v {
            0 => Some(ProtoTouchType::Unknown),
            1 => Some(ProtoTouchType::Down),
            2 => Some(ProtoTouchType::Move),
            3 => Some(ProtoTouchType::Up),
            4 => Some(ProtoTouchType::Cancel),
            _ => None,
        }
    }
}

impl Default for ProtoTouchType {
    fn default() -> (r: ProtoTouchType)
        ensures
            r == ProtoTouchType::Unknown,
    {
        ProtoTouchType::Unknown
    }
}

/// Key event type.
#[derive(Debug, Clone, Copy, PartialEq, Eq, Structural)]
pub enum ProtoKeyEventType {
    Unknown,
    Down,
    Up,
    Text,
}

impl ProtoKeyEventType {
    /// The wire number.
    pub open spec fn code(self) -> i32 {
        match self {
            ProtoKeyEventType::Unknown => 0,
            ProtoKeyEventType::Down => 1,
            ProtoKeyEventType::Up => 2,
            ProtoKeyEventType::Text => 3,
        }
    }

    /// The wire number.
    pub fn to_i32(&self) -> (r: i32)
        ensures
            r == self.code(),
    {
        match self {
            ProtoKeyEventType::Unknown => 0,
            ProtoKeyEventType::Down => 1,
            ProtoKeyEventType::Up => 2,
            ProtoKeyEventType::Text => 3,
        }
    }

    /// The type with a wire number, if any.
    pub fn from_i32(v: i32) -> (r: Option<ProtoKeyEventType>)
        ensures
            r matches Some(t) ==> t.code() == v,
            r is None ==> forall|t: ProtoKeyEventType| t.code() != v,
    {
        match v {
            0 => Some(ProtoKeyEventType::Unknown),
            1 => Some(ProtoKeyEventType::Down),
            2 => Some(ProtoKeyEventType::Up),
            3 => Some(ProtoKeyEventType::Text),
            _ => None,
        }
    }
}

impl Default for ProtoKeyEventType {
    fn default() -> (r: ProtoKeyEventType)
        ensures
            r == ProtoKeyEventType::Unknown,
    {
        ProtoKeyEventType::Unknown
    }
}

} // verus!
