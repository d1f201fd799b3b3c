//! Structured views of the host engine's flag arguments: the access-query
//! codes and the open-flag bitmask.

use vstd::prelude::*;
use crate::codes::{
    ACCESS_EXISTS, ACCESS_READ, ACCESS_READWRITE, OPEN_CREATE, OPEN_DELETEONCLOSE, OPEN_EXCLUSIVE,
    OPEN_READONLY, OPEN_READWRITE,
};

verus! {

/// The question an access query asks of a path.
#[derive(Clone, Copy, Debug, PartialEq, Eq, Structural)]
pub enum AccessFlag {
    /// Does the file exist?
    Exists,
    /// May the file be read?
    ReadOnly,
    /// May the file be read and written?
    ReadWrite,
}

/// The native code of an access query.
pub open spec fn spec_access_code(f: AccessFlag) -> i32 {
    match f {
        AccessFlag::Exists => ACCESS_EXISTS,
        AccessFlag::ReadOnly => ACCESS_READ,
        AccessFlag::ReadWrite => ACCESS_READWRITE,
    }
}

impl AccessFlag {
    /// The query as the host engine's native integer.
    pub fn native_code(&self) -> (r: i32)
        ensures
            r == spec_access_code(*self),
    {
        match self {
            AccessFlag::Exists => ACCESS_EXISTS,
            AccessFlag::ReadOnly => ACCESS_READ,
            AccessFlag::ReadWrite => ACCESS_READWRITE,
        }
    }

    /// Decodes a native access-query code; exactly the three documented
    /// codes are accepted.
    pub fn from_native(code: i32) -> (r: Option<AccessFlag>)
        ensures
            r is Some <==> (code == ACCESS_EXISTS || code == ACCESS_READ || code
                == ACCESS_READWRITE),
            r is Some ==> spec_access_code(r->0) == code,
    {
        if code == ACCESS_EXISTS {
            Some(AccessFlag::Exists)
        } else if code == ACCESS_READ {
            Some(AccessFlag::ReadOnly)
        } else if code == ACCESS_READWRITE {
            Some(AccessFlag::ReadWrite)
        } else {
            None
        }
    }
}

/// The open-flag bits the adapter reads, decoded from the host engine's
/// bitmask. Bits the adapter does not act on are dropped by the decoding.
#[derive(Clone, Copy, Debug, PartialEq, Eq, Structural)]
pub struct OpenFlags {
    /// Open for reading only.
    pub read_only: bool,
    /// Open for reading and writing.
    pub read_write: bool,
    /// Create the file if it does not exist.
    pub create: bool,
    /// Delete the file when the handle closes.
    pub delete_on_close: bool,
    /// Fail if the file already exists.
    pub exclusive: bool,
}

/// Which structured flags a bitmask carries.
pub open spec fn spec_decode_open_flags(bits: u32) -> OpenFlags {
    OpenFlags {
        read_only: bits & OPEN_READONLY != 0,
        read_write: bits & OPEN_READWRITE != 0,
        create: bits & OPEN_CREATE != 0,
        delete_on_close: bits & OPEN_DELETEONCLOSE != 0,
        exclusive: bits & OPEN_EXCLUSIVE != 0,
    }
}

/// Decodes the host engine's open-flag bitmask, bit by documented bit.
pub fn decode_open_flags(bits: u32) -> (r: OpenFlags)
    ensures
        r == spec_decode_open_flags(bits),
{
    OpenFlags {
        read_only: bits & OPEN_READONLY != 0,
        read_write: bits & OPEN_READWRITE != 0,
        create: bits & OPEN_CREATE != 0,
        delete_on_close: bits & OPEN_DELETEONCLOSE != 0,
        exclusive: bits & OPEN_EXCLUSIVE != 0,
    }
}

impl OpenFlags {
    /// Encodes the structured flags back into the native bitmask; decoding
    /// the result gives the flags back.
    pub fn native_bits(&self) -> (bits: u32)
        ensures
            spec_decode_open_flags(bits) == *self,
    {
        let a: u32 = if self.read_only { OPEN_READONLY } else { 0 };
        let b: u32 = if self.read_write { OPEN_READWRITE } else { 0 };
        let c: u32 = if self.create { OPEN_CREATE } else { 0 };
        let d: u32 = if self.delete_on_close { OPEN_DELETEONCLOSE } else { 0 };
        let e: u32 = if self.exclusive { OPEN_EXCLUSIVE } else { 0 };
        let bits = a | b | c | d | e;
        proof {
            assert((a | b | c | d | e) & 0x1u32 != 0 <==> a == 0x1u32) by (bit_vector)
                requires
                    a == 0x1u32 || a == 0u32,
                    b == 0x2u32 || b == 0u32,
                    c == 0x4u32 || c == 0u32,
                    d == 0x8u32 || d == 0u32,
                    e == 0x10u32 || e == 0u32,
            ;
            assert((a | b | c | d | e) & 0x2u32 != 0 <==> b == 0x2u32) by (bit_vector)
                requires
                    a == 0x1u32 || a == 0u32,
                    b == 0x2u32 || b == 0u32,
                    c == 0x4u32 || c == 0u32,
                    d == 0x8u32 || d == 0u32,
                    e == 0x10u32 || e == 0u32,
            ;
            assert((a | b | c | d | e) & 0x4u32 != 0 <==> c == 0x4u32) by (bit_vector)
                requires
                    a == 0x1u32 || a == 0u32,
                    b == 0x2u32 || b == 0u32,
                    c == 0x4u32 || c == 0u32,
                    d == 0x8u32 || d == 0u32,
                    e == 0x10u32 || e == 0u32,
            ;
            assert((a | b | c | d | e) & 0x8u32 != 0 <==> d == 0x8u32) by (bit_vector)
                requires
                    a == 0x1u32 || a == 0u32,
                    b == 0x2u32 || b == 0u32,
                    c == 0x4u32 || c == 0u32,
                    d == 0x8u32 || d == 0u32,
                    e == 0x10u32 || e == 0u32,
            ;
            assert((a | b | c | d | e) & 0x10u32 != 0 <==> e == 0x10u32) by (bit_vector)
                requires
                    a == 0x1u32 || a == 0u32,
                    b == 0x2u32 || b == 0u32,
                    c == 0x4u32 || c == 0u32,
                    d == 0x8u32 || d == 0u32,
                    e == 0x10u32 || e == 0u32,
            ;
        }
        bits
    }
}

} // verus!
