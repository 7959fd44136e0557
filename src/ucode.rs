use vstd::prelude::*;

use crate::mem::Byte;

verus! {

/// The fault codes of the machine. A fault ends the simulation, and its
/// code becomes the process's exit status.
#[derive(Clone, Copy, Debug, PartialEq, Eq, Structural)]
pub enum UCode {
    GenericCpuFailure,
    RegisterOverflow,
    PointerUnderflow,
    MonitorNotFound,
    PixelOutOfBounds,
    GenericMemoryFailure,
    InvalidMemoryRead,
    InvalidMemoryWrite,
    MemoryAlreadyLocked,
    MemoryAlreadyUnlocked,
    InvalidBufferAccess,
    UnknownException,
}

/// The byte that stands for each fault.
pub open spec fn code_of(u: UCode) -> Byte {
    match u {
        UCode::GenericCpuFailure => 0xa0,
        UCode::RegisterOverflow => 0xa1,
        UCode::PointerUnderflow => 0xa2,
        UCode::MonitorNotFound => 0xb0,
        UCode::PixelOutOfBounds => 0xb1,
        UCode::GenericMemoryFailure => 0xd0,
        UCode::InvalidMemoryRead => 0xd1,
        UCode::InvalidMemoryWrite => 0xd2,
        UCode::MemoryAlreadyLocked => 0xd3,
        UCode::MemoryAlreadyUnlocked => 0xd4,
        UCode::InvalidBufferAccess => 0xe0,
        UCode::UnknownException => 0xfe,
    }
}

impl UCode {
    /// The fault's byte code.
    pub fn code(&self) -> (r: Byte)
        ensures
            r == code_of(*self),
    {
        match self {
            UCode::GenericCpuFailure => 0xa0,
            UCode::RegisterOverflow => 0xa1,
            UCode::PointerUnderflow => 0xa2,
            UCode::MonitorNotFound => 0xb0,
            UCode::PixelOutOfBounds => 0xb1,
            UCode::GenericMemoryFailure => 0xd0,
            UCode::InvalidMemoryRead => 0xd1,
            UCode::InvalidMemoryWrite => 0xd2,
            UCode::MemoryAlreadyLocked => 0xd3,
            UCode::MemoryAlreadyUnlocked => 0xd4,
            UCode::InvalidBufferAccess => 0xe0,
            UCode::UnknownException => 0xfe,
        }
    }
}

} // verus!
