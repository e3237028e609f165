//! Tests for call-interface preparation, calls through a prepared
//! interface with the engine's writes played back, and return-value
//! extraction on both byte orders.

use libffi::builder::Builder;
use libffi::cif::{arg, Arg, Cif};
use libffi::low::{
    read_return, return_offset, status_to_result, write_return, ByteOrder, Error,
    FFI_BAD_ABI, FFI_BAD_TYPEDEF, FFI_DEFAULT_ABI, FFI_OK, FFI_WIN64,
};
use libffi::type_tag;
use libffi::types::{Type, TypeArray};

/// Plays the engine's part for a call returning a 64-bit integer on a
/// little-endian machine: writes the value into a register-sized
/// buffer.
fn engine_writes_i64(value: i64) -> Vec<u8> {
    value.to_le_bytes().to_vec()
}

#[test]
fn mod_call() {
    let cif = Cif::new(vec![Type::I64, Type::I64], Type::I64).unwrap();
    let f = |m: i64, n: i64| -> i64 {
        let cells = vec![
            arg(m.to_le_bytes().to_vec()),
            arg(n.to_le_bytes().to_vec()),
        ];
        // The fatal argument-count check a caller must make before
        // handing the cells to the engine.
        assert!(cif.args_match(&cells));
        // The callee computes m + n and the engine writes the result.
        let raw = engine_writes_i64(m + n);
        let out = cif.call_result(&raw, ByteOrder::Little);
        i64::from_le_bytes(out.try_into().unwrap())
    };

    assert_eq!(12, f(5, 7));
    assert_eq!(13, f(6, 7));
    assert_eq!(15, f(8, 7));
}

#[test]
fn lib_call() {
    let args = vec![Type::I64, Type::I64];
    let cif = Cif::new(args, Type::I64).unwrap();
    let f = |m: i64, n: i64| -> i64 {
        let cells = vec![
            arg(m.to_le_bytes().to_vec()),
            arg(n.to_le_bytes().to_vec()),
        ];
        assert!(cif.args_match(&cells));
        let raw = engine_writes_i64(m + n);
        i64::from_le_bytes(
            cif.call_result(&raw, ByteOrder::Little).try_into().unwrap(),
        )
    };

    assert_eq!(12, f(5, 7));
    assert_eq!(13, f(6, 7));
    assert_eq!(15, f(8, 7));
}

#[test]
fn ffi_call() {
    let cif = Cif::from_type_array(
        TypeArray::new(vec![Type::I64, Type::I64]),
        Type::I64,
    )
    .unwrap();
    let f = |m: i64, n: i64| -> i64 {
        let cells = vec![
            arg(m.to_le_bytes().to_vec()),
            arg(n.to_le_bytes().to_vec()),
        ];
        assert!(cif.args_match(&cells));
        let raw = engine_writes_i64(m + n);
        i64::from_le_bytes(
            cif.call_result(&raw, ByteOrder::Little).try_into().unwrap(),
        )
    };

    assert_eq!(12, f(5, 7));
    assert_eq!(13, f(6, 7));
    assert_eq!(15, f(8, 7));
}

#[test]
fn clone_cif() {
    let cif = Cif::new(
        vec![
            Type::structure(vec![
                Type::structure(vec![Type::U64, Type::U8, Type::F64]),
                Type::I8,
                Type::I64,
            ]),
            Type::U64,
        ],
        Type::U64,
    )
    .unwrap();
    let clone_cif = cif.clone();

    let struct_arg = cif.arg_type(0);
    let struct_size = struct_arg.size();
    let substruct_size = struct_arg.element(0).size();

    let clone_struct_arg = clone_cif.arg_type(0);
    let clone_struct_size = clone_struct_arg.size();
    let clone_substruct_size = clone_struct_arg.element(0).size();

    assert_eq!(struct_size, clone_struct_size);
    assert_eq!(substruct_size, clone_substruct_size);
}

// One value of each returnable kind carried through the engine's
// result buffer and extracted again, on the little-endian order the
// test machine uses.
#[test]
fn test_return_values() {
    // A function returning nothing.
    {
        let cif = Cif::new(vec![], Type::Void).unwrap();
        let raw = vec![0u8; 8];
        assert!(cif.call_result(&raw, ByteOrder::Little).is_empty());
    }

    check_return_value(Type::I8, (0x55 as i8).to_le_bytes().to_vec());
    check_return_value(Type::U8, (0xAA as u8).to_le_bytes().to_vec());
    check_return_value(Type::I16, (0x5555 as i16).to_le_bytes().to_vec());
    check_return_value(Type::U16, (0xAAAA as u16).to_le_bytes().to_vec());
    check_return_value(Type::I32, (0x5555_5555 as i32).to_le_bytes().to_vec());
    check_return_value(Type::U32, (0xAAAA_AAAA as u32).to_le_bytes().to_vec());
    check_return_value(
        Type::I64,
        (0x5555_5555_5555_5555 as i64).to_le_bytes().to_vec(),
    );
    check_return_value(
        Type::U64,
        (0xAAAA_AAAA_AAAA_AAAA as u64).to_le_bytes().to_vec(),
    );
    check_return_value(Type::F32, core::f32::consts::E.to_le_bytes().to_vec());
    check_return_value(Type::F64, core::f64::consts::PI.to_le_bytes().to_vec());
    check_return_value(
        Type::Pointer,
        (0x1234_5678_usize as u64).to_le_bytes().to_vec(),
    );

    // A small structure: u8 at offset 0, u16 at offset 2, 4 bytes.
    check_return_value(
        Type::structure(vec![Type::U8, Type::U16]),
        vec![0xAA, 0x00, 0x55, 0x55],
    );

    // A large structure of four u64 fields, 32 bytes.
    let mut large: Vec<u8> = Vec::new();
    large.extend((0x1234_5678_9abc_def0 as u64).to_le_bytes());
    large.extend((0x0fed_cba9_8765_4321 as u64).to_le_bytes());
    large.extend((0x5555_5555_5555_5555 as u64).to_le_bytes());
    large.extend((0xAAAA_AAAA_AAAA_AAAA as u64).to_le_bytes());
    check_return_value(
        Type::structure(vec![Type::U64, Type::U64, Type::U64, Type::U64]),
        large,
    );
}

/// Prepares an interface returning `ty`, plays the engine writing the
/// promoted buffer for `value`, and checks the extraction returns the
/// value unchanged.
fn check_return_value(ty: Type, value: Vec<u8>) {
    let cif = Cif::new(vec![ty.clone()], ty).unwrap();
    let tag = cif.result_type().tag();
    let raw = write_return(tag, &value, ByteOrder::Little);
    assert_eq!(cif.call_result(&raw, ByteOrder::Little), value);
}

// The platform-conditional narrow-return rule, checked against
// synthetic register-sized buffers with known values at the documented
// offsets: narrow integers sit at the end of the register on a
// big-endian machine and at the front on a little-endian one, while
// floating-point, structure and empty results sit at the front on
// both.
#[test]
fn narrow_return_offsets() {
    assert_eq!(return_offset(type_tag::UINT8, 1, ByteOrder::Little), 0);
    assert_eq!(return_offset(type_tag::UINT8, 1, ByteOrder::Big), 7);
    assert_eq!(return_offset(type_tag::SINT16, 2, ByteOrder::Big), 6);
    assert_eq!(return_offset(type_tag::UINT32, 4, ByteOrder::Big), 4);
    assert_eq!(return_offset(type_tag::UINT64, 8, ByteOrder::Big), 0);
    assert_eq!(return_offset(type_tag::FLOAT, 4, ByteOrder::Big), 0);
    assert_eq!(return_offset(type_tag::STRUCT, 3, ByteOrder::Big), 0);
    assert_eq!(return_offset(type_tag::VOID, 0, ByteOrder::Big), 0);
}

#[test]
fn narrow_return_extraction_both_orders() {
    // The callee returns the 8-bit value 0x7F.  On a big-endian
    // machine the engine leaves it in the last byte of the register;
    // on a little-endian machine in the first.
    let big = vec![0, 0, 0, 0, 0, 0, 0, 0x7F];
    assert_eq!(
        read_return(type_tag::UINT8, 1, &big, ByteOrder::Big),
        vec![0x7F]
    );
    let little = vec![0x7F, 0, 0, 0, 0, 0, 0, 0];
    assert_eq!(
        read_return(type_tag::UINT8, 1, &little, ByteOrder::Little),
        vec![0x7F]
    );

    // Writing produces exactly those buffers again.
    assert_eq!(write_return(type_tag::UINT8, &vec![0x7F], ByteOrder::Big), big);
    assert_eq!(
        write_return(type_tag::UINT8, &vec![0x7F], ByteOrder::Little),
        little
    );

    // A 32-bit float result sits at the front on either order.
    let raw = vec![1, 2, 3, 4, 0, 0, 0, 0];
    assert_eq!(
        read_return(type_tag::FLOAT, 4, &raw, ByteOrder::Big),
        vec![1, 2, 3, 4]
    );
    assert_eq!(
        read_return(type_tag::FLOAT, 4, &raw, ByteOrder::Little),
        vec![1, 2, 3, 4]
    );
}

#[test]
fn bad_abi_is_reported() {
    // An unrecognized calling-convention tag must surface as the
    // bad-ABI error, never a crash or silent success.
    assert_eq!(
        Cif::new_with_abi(vec![Type::I64], Type::I64, 0).unwrap_err(),
        Error::Abi
    );
    assert_eq!(
        Cif::new_with_abi(vec![Type::I64], Type::I64, 99).unwrap_err(),
        Error::Abi
    );
    assert_eq!(
        Builder::new()
            .arg(Type::I64)
            .res(Type::I64)
            .abi(77)
            .into_cif()
            .unwrap_err(),
        Error::Abi
    );
    // The default tag is accepted.
    assert!(Cif::new_with_abi(vec![Type::I64], Type::I64, FFI_DEFAULT_ABI).is_ok());
}

#[test]
fn bad_typedef_is_reported() {
    // An empty structure cannot be laid out: bad type definition.
    assert_eq!(
        Cif::new(vec![Type::structure(vec![])], Type::I64).unwrap_err(),
        Error::Typedef
    );
    assert_eq!(
        Cif::new(vec![Type::I64], Type::structure(vec![])).unwrap_err(),
        Error::Typedef
    );
    // When both the tag and a type are bad, the ABI is blamed first,
    // as the engine checks it first.
    assert_eq!(
        Cif::new_with_abi(vec![Type::structure(vec![])], Type::I64, 0).unwrap_err(),
        Error::Abi
    );
}

#[test]
fn builder_accumulates_state() {
    let cif = Builder::new()
        .arg(Type::U8)
        .args(vec![Type::U16, Type::U32])
        .res(Type::U64)
        .into_cif()
        .unwrap();
    assert_eq!(cif.nargs(), 3);
    assert_eq!(cif.abi(), FFI_DEFAULT_ABI);
    assert_eq!(cif.arg_type(0).tag(), type_tag::UINT8);
    assert_eq!(cif.arg_type(1).tag(), type_tag::UINT16);
    assert_eq!(cif.arg_type(2).tag(), type_tag::UINT32);
    assert_eq!(cif.result_type().tag(), type_tag::UINT64);

    // The default result type is void.
    let cif = Builder::default().into_cif().unwrap();
    assert_eq!(cif.nargs(), 0);
    assert_eq!(cif.result_type().tag(), type_tag::VOID);
}

#[test]
fn set_abi_rewrites_the_tag() {
    let mut cif = Cif::new(vec![Type::U64], Type::U64).unwrap();
    assert_eq!(cif.abi(), FFI_DEFAULT_ABI);
    cif.set_abi(FFI_WIN64);
    assert_eq!(cif.abi(), FFI_WIN64);
}

#[test]
fn status_codes_decode() {
    assert_eq!(status_to_result(FFI_OK), Ok(()));
    assert_eq!(status_to_result(FFI_BAD_TYPEDEF), Err(Error::Typedef));
    assert_eq!(status_to_result(FFI_BAD_ABI), Err(Error::Abi));
    // An unrecognized status counts as an ABI error.
    assert_eq!(status_to_result(7), Err(Error::Abi));
}

#[test]
fn argument_cells() {
    let cell: Arg = arg(vec![1, 2, 3]);
    assert_eq!(cell.bytes(), &vec![1, 2, 3]);
    let copy = cell.clone();
    assert_eq!(copy, cell);

    let cif = Cif::new(vec![Type::U8, Type::U8], Type::Void).unwrap();
    assert!(cif.args_match(&vec![arg(vec![1]), arg(vec![2])]));
    assert!(!cif.args_match(&vec![arg(vec![1])]));
}

#[test]
fn variadic_preparation_validates_like_fixed() {
    // Two fixed arguments and one variadic tail argument.
    let cif = Cif::new_variadic(
        vec![Type::Pointer, Type::I32, Type::F64],
        2,
        Type::I32,
    )
    .unwrap();
    assert_eq!(cif.nargs(), 3);

    assert_eq!(
        Cif::new_variadic(vec![Type::structure(vec![])], 1, Type::Void).unwrap_err(),
        Error::Typedef
    );
}
