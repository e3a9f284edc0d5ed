use vstd::prelude::*;

verus! {

/// Status returned by the importer's query functions.
#[derive(Clone, Copy, Debug, PartialEq, Eq, Structural)]
pub enum AiReturn {
    Success,
    Failure,
    OutOfMemory,
}

/// The integer that encodes a status on the importer's side.
pub open spec fn return_code(r: AiReturn) -> int {
    match r {
        AiReturn::Success => 0,
        AiReturn::Failure => -1,
        AiReturn::OutOfMemory => -3,
    }
}

impl AiReturn {
    /// The importer's integer encoding of this status.
    pub fn code(&self) -> (r: i32)
        ensures
            r == return_code(*self),
    {
        match self {
            AiReturn::Success => 0,
            AiReturn::Failure => -1,
            AiReturn::OutOfMemory => -3,
        }
    }

    /// Decodes an integer status; any value outside the known set is `None`.
    pub fn from_code(c: i32) -> (r: Option<AiReturn>)
        ensures
            r matches Some(s) ==> return_code(s) == c,
            r is None <==> (c != 0 && c != -1 && c != -3),
    {
        if c == 0 {
            Some(AiReturn::Success)
        } else if c == -1 {
            Some(AiReturn::Failure)
        } else if c == -3 {
            Some(AiReturn::OutOfMemory)
        } else {
            None
        }
    }

    pub fn is_success(&self) -> (r: bool)
        ensures
            r == (*self == AiReturn::Success),
    {
        match self {
            AiReturn::Success => true,
            _ => false,
        }
    }
}

/// Turns the outcome of a property query into an optional value: any
/// status other than success means the property is absent.
pub fn lookup_outcome<T>(status: AiReturn, value: T) -> (r: Option<T>)
    ensures
        r == (if status == AiReturn::Success { Some(value) } else { None::<T> }),
{
    if status.is_success() {
        Some(value)
    } else {
        None
    }
}

/// Type tag of a material property's payload.
#[derive(Clone, Copy, Debug, PartialEq, Eq, Structural)]
pub enum AiPropertyTypeInfo {
    Float,
    Double,
    String,
    Integer,
    Buffer,
}

/// The integer that encodes a property type on the importer's side.
pub open spec fn property_type_code(t: AiPropertyTypeInfo) -> u32 {
    match t {
        AiPropertyTypeInfo::Float => 1,
        AiPropertyTypeInfo::Double => 2,
        AiPropertyTypeInfo::String => 3,
        AiPropertyTypeInfo::Integer => 4,
        AiPropertyTypeInfo::Buffer => 5,
    }
}

impl AiPropertyTypeInfo {
    /// The importer's integer encoding of this type tag.
    pub fn code(&self) -> (r: u32)
        ensures
            r == property_type_code(*self),
    {
        match self {
            AiPropertyTypeInfo::Float => 1,
            AiPropertyTypeInfo::Double => 2,
            AiPropertyTypeInfo::String => 3,
            AiPropertyTypeInfo::Integer => 4,
            AiPropertyTypeInfo::Buffer => 5,
        }
    }

    /// Decodes a type tag; any value outside `1..=5` is `None`.
    pub fn from_code(c: u32) -> (r: Option<AiPropertyTypeInfo>)
        ensures
            r matches Some(t) ==> property_type_code(t) == c,
            r is None <==> !(1 <= c <= 5),
    {
        match c {
            1 => Some(AiPropertyTypeInfo::Float),
            2 => Some(AiPropertyTypeInfo::Double),
            3 => Some(AiPropertyTypeInfo::String),
            4 => Some(AiPropertyTypeInfo::Integer),
            5 => Some(AiPropertyTypeInfo::Buffer),
            _ => None,
        }
    }
}

} // verus!
