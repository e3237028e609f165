//! The boundary with the calling engine: its error taxonomy, status
//! codes, calling-convention tags, and the byte-order-aware handling of
//! return values.
//!
//! The engine always writes at least a full machine register's worth of
//! storage for a call's result, even when the logical result type is
//! narrower.  On big-endian machines a narrow integer or pointer result
//! sits at the *end* of that register-sized buffer; floating-point,
//! structure and empty results sit at the front on either byte order.
//! The functions here pin that extraction down exactly, together with
//! its dual — the promoted buffer a callback must produce — and a proof
//! that the two compose to the identity.

use crate::type_tag;
use vstd::prelude::*;

verus! {

/// The two kinds of recoverable errors reported by the calling engine.
#[derive(Clone, Copy, Debug, Hash, PartialEq, Eq, PartialOrd, Ord, Structural)]
pub enum Error {
    /// Given a bad or unsupported type representation.
    Typedef,
    /// Given a bad or unrecognized ABI tag.
    Abi,
}

/// A calling-convention tag.
pub type FfiAbi = u32;

/// Status returned by the engine's prepare entry points: success.
pub const FFI_OK: u32 = 0;
/// Status returned by the engine's prepare entry points: bad type layout.
pub const FFI_BAD_TYPEDEF: u32 = 1;
/// Status returned by the engine's prepare entry points: bad ABI tag.
pub const FFI_BAD_ABI: u32 = 2;

/// Smallest tag value, itself not a usable calling convention.
pub const FFI_FIRST_ABI: FfiAbi = 1;
/// The System V calling convention of the modeled 64-bit target.
pub const FFI_UNIX64: FfiAbi = 2;
/// The Win64 calling convention tag of the modeled target.
pub const FFI_WIN64: FfiAbi = 3;
/// The GNU variant of the Win64 calling convention.
pub const FFI_GNUW64: FfiAbi = 4;
/// One past the largest usable tag.
pub const FFI_LAST_ABI: FfiAbi = 5;
/// The platform-default calling convention.
pub const FFI_DEFAULT_ABI: FfiAbi = FFI_UNIX64;

/// A calling-convention tag the engine accepts: strictly between the
/// first and last markers.
pub open spec fn spec_abi_is_valid(abi: FfiAbi) -> bool {
    FFI_FIRST_ABI < abi && abi < FFI_LAST_ABI
}

/// Decides whether the engine accepts `abi` as a calling convention.
pub fn abi_is_valid(abi: FfiAbi) -> (r: bool)
    ensures
        r == spec_abi_is_valid(abi),
{
    FFI_FIRST_ABI < abi && abi < FFI_LAST_ABI
}

/// The `Result` a prepare status stands for: `FFI_OK` means success,
/// `FFI_BAD_TYPEDEF` a bad type definition, and any other value — the
/// engine promises nothing else — a bad ABI.
pub open spec fn spec_status_to_result(status: u32) -> Result<(), Error> {
    if status == FFI_OK {
        Ok(())
    } else if status == FFI_BAD_TYPEDEF {
        Err(Error::Typedef)
    } else {
        Err(Error::Abi)
    }
}

/// Converts a raw engine status to a `Result`.
pub fn status_to_result(status: u32) -> (r: Result<(), Error>)
    ensures
        r == spec_status_to_result(status),
{
    if status == FFI_OK {
        Ok(())
    } else if status == FFI_BAD_TYPEDEF {
        Err(Error::Typedef)
    } else {
        Err(Error::Abi)
    }
}

/// Width in bytes of one machine register on the modeled target; the
/// engine writes at least this much storage for any call result.
pub const REGISTER_SIZE: usize = 8;

/// Byte order of the machine the engine runs on.
#[derive(Clone, Copy, Debug, PartialEq, Eq, Structural)]
pub enum ByteOrder {
    /// Least significant byte first.
    Little,
    /// Most significant byte first.
    Big,
}

/// The result widths the extraction below is defined for: a
/// front-aligned kind at any width, or else nothing (`void`), a power
/// of two below the register width, or at least a full register.
pub open spec fn return_width_ok(tag: u16, width: nat) -> bool {
    ||| starts_at_buffer_front(tag)
    ||| width == 0
    ||| width == 1
    ||| width == 2
    ||| width == 4
    ||| width >= REGISTER_SIZE
}

/// How many bytes the engine writes for a result of logical width
/// `width`: a full register at least, more for larger results.
pub open spec fn spec_result_buffer_len(width: nat) -> nat {
    if width < REGISTER_SIZE {
        REGISTER_SIZE as nat
    } else {
        width
    }
}

/// Kinds whose result is written at the front of the buffer on either
/// byte order: floating point, structures, and the empty result.
pub open spec fn starts_at_buffer_front(tag: u16) -> bool {
    ||| tag == type_tag::FLOAT
    ||| tag == type_tag::STRUCT
    ||| tag == type_tag::VOID
}

/// Offset of the logical result inside the written buffer.  On a
/// big-endian machine a narrow integer or pointer result is at the end
/// of the register; everything else is at the front.
pub open spec fn spec_return_offset(tag: u16, width: nat, order: ByteOrder) -> nat {
    if width >= REGISTER_SIZE {
        0
    } else if order == ByteOrder::Big && !starts_at_buffer_front(tag) {
        (REGISTER_SIZE - width) as nat
    } else {
        0
    }
}

/// The logical result bytes extracted from the buffer the engine wrote.
pub open spec fn spec_read_return(tag: u16, width: nat, raw: Seq<u8>, order: ByteOrder) -> Seq<
    u8,
> {
    raw.subrange(
        spec_return_offset(tag, width, order) as int,
        (spec_return_offset(tag, width, order) + width) as int,
    )
}

/// The buffer a callback (or the engine itself) produces for a logical
/// result `value`: the value at its documented offset, zeroes elsewhere.
pub open spec fn spec_write_return(tag: u16, value: Seq<u8>, order: ByteOrder) -> Seq<u8> {
    Seq::new(
        spec_result_buffer_len(value.len()),
        |i: int|
            {
                let off = spec_return_offset(tag, value.len(), order) as int;
                if off <= i < off + value.len() {
                    value[i - off]
                } else {
                    0u8
                }
            },
    )
}

/// Computes the offset of a result of kind `tag` and logical width
/// `width` inside the buffer the engine wrote.
pub fn return_offset(tag: u16, width: usize, order: ByteOrder) -> (r: usize)
    requires
        return_width_ok(tag, width as nat),
    ensures
        r == spec_return_offset(tag, width as nat, order),
{
    if width >= REGISTER_SIZE {
        0
    } else if order == ByteOrder::Big && !(tag == type_tag::FLOAT || tag == type_tag::STRUCT
        || tag == type_tag::VOID) {
        REGISTER_SIZE - width
    } else {
        0
    }
}

/// Extracts the logical result of kind `tag` and width `width` from the
/// buffer the engine wrote, honoring the machine's byte order.
pub fn read_return(tag: u16, width: usize, raw: &Vec<u8>, order: ByteOrder) -> (r: Vec<u8>)
    requires
        return_width_ok(tag, width as nat),
        raw@.len() == spec_result_buffer_len(width as nat),
    ensures
        r@ == spec_read_return(tag, width as nat, raw@, order),
{
    let off: usize = return_offset(tag, width, order);
    let mut out: Vec<u8> = Vec::new();
    let mut i: usize = 0;
    while i < width
        invariant
            i <= width,
            off == spec_return_offset(tag, width as nat, order),
            off + width <= raw@.len(),
            return_width_ok(tag, width as nat),
            raw@.len() == spec_result_buffer_len(width as nat),
            out@ == raw@.subrange(off as int, off + i),
        decreases width - i,
    {
        out.push(raw[off + i]);
        assert(out@ =~= raw@.subrange(off as int, off + i + 1));
        i = i + 1;
    }
    assert(out@ =~= spec_read_return(tag, width as nat, raw@, order));
    out
}

/// Builds the register-sized (or larger) buffer that holds `value` as a
/// result of kind `tag`: the value at its documented offset, zeroes in
/// the rest of the register.
pub fn write_return(tag: u16, value: &Vec<u8>, order: ByteOrder) -> (r: Vec<u8>)
    requires
        return_width_ok(tag, value@.len()),
    ensures
        r@ == spec_write_return(tag, value@, order),
{
    let width: usize = value.len();
    let off: usize = return_offset(tag, width, order);
    let total: usize = if width < REGISTER_SIZE {
        REGISTER_SIZE
    } else {
        width
    };
    let mut out: Vec<u8> = Vec::new();
    let mut i: usize = 0;
    while i < total
        invariant
            i <= total,
            off == spec_return_offset(tag, width as nat, order),
            width == value@.len(),
            total == spec_result_buffer_len(width as nat),
            off + width <= total,
            out@.len() == i,
            forall|j: int|
                0 <= j < i ==> out@[j] == spec_write_return(tag, value@, order)[j],
        decreases total - i,
    {
        if off <= i && i < off + width {
            out.push(value[i - off]);
        } else {
            out.push(0u8);
        }
        i = i + 1;
    }
    assert(out@ =~= spec_write_return(tag, value@, order));
    out
}

/// Writing a logical result into a register buffer and reading it back
/// at the documented offset yields the value unchanged, for every kind,
/// width and byte order.
pub proof fn lemma_return_roundtrip(tag: u16, value: Seq<u8>, order: ByteOrder)
    requires
        return_width_ok(tag, value.len()),
    ensures
        spec_read_return(
            tag,
            value.len(),
            spec_write_return(tag, value, order),
            order,
        ) == value,
{
    assert(spec_read_return(tag, value.len(), spec_write_return(tag, value, order), order)
        =~= value);
}

} // verus!
