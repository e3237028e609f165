//! Type tags used in constructing and inspecting descriptor records.
//!
//! Atomic descriptors carry the tag of the primitive kind they stand
//! for.  Composite descriptors (structures, complex numbers) carry the
//! `STRUCT` or `COMPLEX` tag together with an element list.

use vstd::prelude::*;

verus! {

/// Tag of the `void` result type.
pub const VOID: u16 = 0;
/// Tag of the C `int` type as the engine labels promoted integers.
pub const INT: u16 = 1;
/// Tag of the 32-bit floating-point type.
pub const FLOAT: u16 = 2;
/// Tag of the 64-bit floating-point type.
pub const DOUBLE: u16 = 3;
/// Tag of the extended-precision floating-point type.
pub const LONGDOUBLE: u16 = 4;
/// Tag of the unsigned 8-bit integer type.
pub const UINT8: u16 = 5;
/// Tag of the signed 8-bit integer type.
pub const SINT8: u16 = 6;
/// Tag of the unsigned 16-bit integer type.
pub const UINT16: u16 = 7;
/// Tag of the signed 16-bit integer type.
pub const SINT16: u16 = 8;
/// Tag of the unsigned 32-bit integer type.
pub const UINT32: u16 = 9;
/// Tag of the signed 32-bit integer type.
pub const SINT32: u16 = 10;
/// Tag of the unsigned 64-bit integer type.
pub const UINT64: u16 = 11;
/// Tag of the signed 64-bit integer type.
pub const SINT64: u16 = 12;
/// Indicates a structure type.
pub const STRUCT: u16 = 13;
/// Tag of the untyped pointer type.
pub const POINTER: u16 = 14;
/// Indicates a complex number type.
pub const COMPLEX: u16 = 15;

} // verus!
