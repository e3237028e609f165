//! Tests for type descriptors, descriptor records, and the layout pass.

use libffi::low::Error;
use libffi::record::{FfiType, FfiTypeArray};
use libffi::type_tag;
use libffi::types::{Type, TypeArray};

#[test]
fn create_u64() {
    FfiType::new(&Type::U64);
}

#[test]
fn clone_u64() {
    let _ = Type::U64.clone().clone();
}

#[test]
fn types_create_struct() {
    Type::structure(vec![Type::I64, Type::I64, Type::U64]);
}

#[test]
fn types_clone_struct() {
    let _ = Type::structure(vec![Type::I64, Type::I64, Type::U64])
        .clone()
        .clone();
}

#[test]
fn ffi_type_create_uint64() {
    let record = FfiType::new(&Type::U64);
    assert_eq!(record.tag(), type_tag::UINT64);
    assert_eq!(record.size(), 8);
}

#[test]
fn ffi_type_create_struct() {
    let record = FfiType::new(&Type::structure(vec![
        Type::I64,
        Type::I64,
        Type::U64,
    ]));
    assert_eq!(record.tag(), type_tag::STRUCT);
    assert_eq!(record.num_elements(), 3);
}

#[test]
fn mod_create_uint64() {
    let _ = Type::U64;
}

#[test]
fn clone_uint64() {
    let _ = Type::U64.clone().clone();
}

#[test]
fn mod_create_struct() {
    Type::structure(vec![Type::I64, Type::I64, Type::U64]);
}

#[test]
fn mod_clone_struct() {
    let _ = Type::structure(vec![Type::I64, Type::I64, Type::U64])
        .clone()
        .clone();
}

/// Verify that `Type`'s `Debug` impl does not misbehave.
#[test]
fn verify_type_debug_behavior() {
    let ffi_type = Type::structure(vec![
        Type::U16,
        Type::F32,
        Type::structure(vec![Type::I32, Type::structure(vec![])]),
        Type::Pointer,
    ]);

    let _string = format!("{ffi_type:?}");
}

// Utility to verify the layout of the descriptor record built by
// `verify_type_layout` and to ensure proper handling when cloning and
// dropping records.
fn verify_struct_layout(ty: &FfiType) {
    // First struct: struct, i8, u8, f32, f64
    assert_eq!(ty.size(), 0);
    assert_eq!(ty.alignment(), 0);
    assert_eq!(ty.tag(), type_tag::STRUCT);
    assert_eq!(ty.num_elements(), 5);

    assert_eq!(ty.element(0).tag(), type_tag::STRUCT);
    assert_eq!(ty.element(1).tag(), type_tag::SINT8);
    assert_eq!(ty.element(2).tag(), type_tag::UINT8);
    assert_eq!(ty.element(3).tag(), type_tag::FLOAT);
    assert_eq!(ty.element(4).tag(), type_tag::DOUBLE);

    // Second struct: i16, struct, u16
    let struct_2 = ty.element(0);
    assert_eq!(struct_2.size(), 0);
    assert_eq!(struct_2.alignment(), 0);
    assert_eq!(struct_2.tag(), type_tag::STRUCT);
    assert_eq!(struct_2.num_elements(), 3);
    assert_eq!(struct_2.element(0).tag(), type_tag::SINT16);
    assert_eq!(struct_2.element(1).tag(), type_tag::STRUCT);
    assert_eq!(struct_2.element(2).tag(), type_tag::UINT16);

    // Third struct: i32, u32, struct
    let struct_3 = struct_2.element(1);
    assert_eq!(struct_3.size(), 0);
    assert_eq!(struct_3.alignment(), 0);
    assert_eq!(struct_3.tag(), type_tag::STRUCT);
    assert_eq!(struct_3.num_elements(), 3);
    assert_eq!(struct_3.element(0).tag(), type_tag::SINT32);
    assert_eq!(struct_3.element(1).tag(), type_tag::UINT32);
    assert_eq!(struct_3.element(2).tag(), type_tag::STRUCT);

    // Fourth struct: struct
    let struct_4 = struct_3.element(2);
    assert_eq!(struct_4.size(), 0);
    assert_eq!(struct_4.alignment(), 0);
    assert_eq!(struct_4.tag(), type_tag::STRUCT);
    assert_eq!(struct_4.num_elements(), 1);
    assert_eq!(struct_4.element(0).tag(), type_tag::STRUCT);

    // Fifth and final struct: nothing
    let struct_5 = struct_4.element(0);
    assert_eq!(struct_5.size(), 0);
    assert_eq!(struct_5.alignment(), 0);
    assert_eq!(struct_5.tag(), type_tag::STRUCT);
    assert_eq!(struct_5.num_elements(), 0);
}

#[test]
fn verify_type_layout() {
    let type_struct = Type::structure(vec![
        // First struct, containing a struct, i8, and u8
        Type::structure(vec![
            // Second struct, containing a i16, struct, and u16
            Type::I16,
            Type::structure(vec![
                // Third struct, containing a i32, u32 and struct
                Type::I32,
                Type::U32,
                Type::structure(vec![
                    // Fourth struct, only a struct
                    Type::structure(vec![
                        // Fifth and final struct, no members
                    ]),
                ]),
            ]),
            Type::U16,
        ]),
        Type::I8,
        Type::U8,
        Type::F32,
        Type::F64,
    ]);

    let ffi_struct = FfiType::new(&type_struct);

    verify_struct_layout(&ffi_struct);

    let clone1 = ffi_struct.clone();
    verify_struct_layout(&ffi_struct);
    verify_struct_layout(&clone1);

    let clone2 = ffi_struct.clone();
    verify_struct_layout(&ffi_struct);
    verify_struct_layout(&clone1);
    verify_struct_layout(&clone2);

    let clone3 = clone1.clone();
    verify_struct_layout(&ffi_struct);
    verify_struct_layout(&clone1);
    verify_struct_layout(&clone2);
    verify_struct_layout(&clone3);

    drop(clone2);
    verify_struct_layout(&ffi_struct);
    verify_struct_layout(&clone1);
    verify_struct_layout(&clone3);

    drop(ffi_struct);
    verify_struct_layout(&clone1);
    verify_struct_layout(&clone3);
}

#[test]
fn type_array_basics() {
    let array = TypeArray::new(vec![Type::I64, Type::U8, Type::Pointer]);
    assert_eq!(array.len(), 3);
    assert_eq!(array.as_raw_ptr()[1], Type::U8);
    let copy = array.clone();
    assert_eq!(copy.len(), 3);
    assert_eq!(copy, array);
}

#[test]
fn prepare_fills_in_struct_layout() {
    // A struct of u8 and u16: the u16 sits at offset 2, so the struct
    // is 4 bytes with alignment 2.
    let record = FfiType::new(&Type::structure(vec![Type::U8, Type::U16]));
    let prepared = record.prepare().unwrap();
    assert_eq!(prepared.size(), 4);
    assert_eq!(prepared.alignment(), 2);
    assert_eq!(prepared.tag(), type_tag::STRUCT);
    assert_eq!(prepared.element(0).tag(), type_tag::UINT8);
    assert_eq!(prepared.element(1).tag(), type_tag::UINT16);

    // A struct of u8 and u64: the u64 sits at offset 8, so the struct
    // is 16 bytes with alignment 8.
    let record = FfiType::new(&Type::structure(vec![Type::U8, Type::U64]));
    let prepared = record.prepare().unwrap();
    assert_eq!(prepared.size(), 16);
    assert_eq!(prepared.alignment(), 8);

    // Nesting: the inner struct above as a field keeps its 8-byte
    // alignment, so u8 then inner gives 8 + 16 = 24 bytes.
    let record = FfiType::new(&Type::structure(vec![
        Type::U8,
        Type::structure(vec![Type::U8, Type::U64]),
    ]));
    let prepared = record.prepare().unwrap();
    assert_eq!(prepared.size(), 24);
    assert_eq!(prepared.alignment(), 8);
}

#[test]
fn prepare_rejects_empty_struct() {
    let record = FfiType::new(&Type::structure(vec![]));
    assert_eq!(record.prepare().unwrap_err(), Error::Typedef);

    // An empty struct nested anywhere is rejected too.
    let record = FfiType::new(&Type::structure(vec![
        Type::U8,
        Type::structure(vec![Type::structure(vec![])]),
    ]));
    assert_eq!(record.prepare().unwrap_err(), Error::Typedef);
}

#[test]
fn prepare_keeps_scalars_and_records_shared_state() {
    let record = FfiType::new(&Type::U32);
    assert!(record.is_shared());
    let prepared = record.prepare().unwrap();
    assert_eq!(prepared.size(), 4);
    assert_eq!(prepared.alignment(), 4);

    // Extended-precision and complex records are owned per use, never
    // shared.
    assert!(!FfiType::new(&Type::LongDouble).is_shared());
    assert!(!FfiType::new(&Type::ComplexDouble).is_shared());
    assert!(!FfiType::new(&Type::structure(vec![Type::U8])).is_shared());
}

#[test]
fn ffi_type_array_basics() {
    let array = FfiTypeArray::new(vec![
        FfiType::new(&Type::I32),
        FfiType::new(&Type::U64),
    ]);
    assert_eq!(array.len(), 2);
    assert_eq!(array.element(0).tag(), type_tag::SINT32);
    let copy = array.clone();
    assert_eq!(copy.element(1).tag(), type_tag::UINT64);
}

#[test]
fn c_alias_constructors() {
    assert_eq!(Type::c_schar(), Type::I8);
    assert_eq!(Type::c_uchar(), Type::U8);
    assert_eq!(Type::c_short(), Type::I16);
    assert_eq!(Type::c_ushort(), Type::U16);
    assert_eq!(Type::c_int(), Type::I32);
    assert_eq!(Type::c_uint(), Type::U32);
    assert_eq!(Type::c_long(), Type::I64);
    assert_eq!(Type::c_ulong(), Type::U64);
    assert_eq!(Type::c_longlong(), Type::I64);
    assert_eq!(Type::c_ulonglong(), Type::U64);
    assert_eq!(Type::void(), Type::Void);
}

#[test]
fn structure_from_array_takes_the_fields() {
    let array = TypeArray::new(vec![Type::U8, Type::U16]);
    let ty = Type::structure_from_array(array);
    assert_eq!(ty, Type::structure(vec![Type::U8, Type::U16]));
}
