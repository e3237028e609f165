//! Descriptors of native types, and owned arrays thereof.
//!
//! A [`Type`] names one native type: a primitive kind, or a composite
//! structure that owns the descriptors of its fields.  Structure
//! descriptors form an owned tree of arbitrary depth; duplicating one
//! is a deep clone, and a [`TypeArray`] owns a whole argument list.
//! A sequence of `Type`s plus a result `Type` is what a call interface
//! is prepared from.

use vstd::prelude::*;

verus! {

/// Represents a single native type.
///
/// Primitive variants stand for the engine's built-in scalar kinds;
/// `Structure` owns the descriptors of its fields and may nest to any
/// depth.  `Void` is meaningful only as the result type of a call
/// interface.
#[derive(Debug, PartialEq, Eq)]
pub enum Type {
    /// The empty result type.
    Void,
    /// A signed 8-bit integer.
    I8,
    /// An unsigned 8-bit integer.
    U8,
    /// A signed 16-bit integer.
    I16,
    /// An unsigned 16-bit integer.
    U16,
    /// A signed 32-bit integer.
    I32,
    /// An unsigned 32-bit integer.
    U32,
    /// A signed 64-bit integer.
    I64,
    /// An unsigned 64-bit integer.
    U64,
    /// The signed pointer-sized integer.
    Isize,
    /// The unsigned pointer-sized integer.
    Usize,
    /// An untyped pointer.
    Pointer,
    /// A 32-bit floating-point number.
    F32,
    /// A 64-bit floating-point number.
    F64,
    /// An extended-precision floating-point number.
    LongDouble,
    /// A complex number over 32-bit parts.
    ComplexFloat,
    /// A complex number over 64-bit parts.
    ComplexDouble,
    /// A complex number over extended-precision parts.
    ComplexLongDouble,
    /// A structure type owning its field descriptors.
    Structure(Vec<Type>),
}

/// The mathematical shape of a [`Type`]: the same tree with ghost
/// sequences for field lists.
pub enum TyView {
    /// The empty result type.
    Void,
    /// A signed 8-bit integer.
    I8,
    /// An unsigned 8-bit integer.
    U8,
    /// A signed 16-bit integer.
    I16,
    /// An unsigned 16-bit integer.
    U16,
    /// A signed 32-bit integer.
    I32,
    /// An unsigned 32-bit integer.
    U32,
    /// A signed 64-bit integer.
    I64,
    /// An unsigned 64-bit integer.
    U64,
    /// The signed pointer-sized integer.
    Isize,
    /// The unsigned pointer-sized integer.
    Usize,
    /// An untyped pointer.
    Pointer,
    /// A 32-bit floating-point number.
    F32,
    /// A 64-bit floating-point number.
    F64,
    /// An extended-precision floating-point number.
    LongDouble,
    /// A complex number over 32-bit parts.
    ComplexFloat,
    /// A complex number over 64-bit parts.
    ComplexDouble,
    /// A complex number over extended-precision parts.
    ComplexLongDouble,
    /// A structure type with the shapes of its fields.
    Structure(Seq<TyView>),
}

impl View for Type {
    type V = TyView;

    open spec fn view(&self) -> TyView
        decreases self,
    {
        match self {
            Type::Void => TyView::Void,
            Type::I8 => TyView::I8,
            Type::U8 => TyView::U8,
            Type::I16 => TyView::I16,
            Type::U16 => TyView::U16,
            Type::I32 => TyView::I32,
            Type::U32 => TyView::U32,
            Type::I64 => TyView::I64,
            Type::U64 => TyView::U64,
            Type::Isize => TyView::Isize,
            Type::Usize => TyView::Usize,
            Type::Pointer => TyView::Pointer,
            Type::F32 => TyView::F32,
            Type::F64 => TyView::F64,
            Type::LongDouble => TyView::LongDouble,
            Type::ComplexFloat => TyView::ComplexFloat,
            Type::ComplexDouble => TyView::ComplexDouble,
            Type::ComplexLongDouble => TyView::ComplexLongDouble,
            Type::Structure(fields) => TyView::Structure(
                Seq::new(
                    fields@.len(),
                    |i: int|
                        if 0 <= i < fields@.len() {
                            fields@[i]@
                        } else {
                            TyView::Void
                        },
                ),
            ),
        }
    }
}

/// The shapes of a sequence of descriptors, element by element.
pub open spec fn views_of_types(s: Seq<Type>) -> Seq<TyView> {
    Seq::new(s.len(), |i: int| s[i]@)
}

impl Type {
    /// Constructs a structure type whose fields have the given types,
    /// taking ownership of each field descriptor.
    pub fn structure(fields: Vec<Type>) -> (r: Type)
        ensures
            r@ == TyView::Structure(views_of_types(fields@)),
    {
        let ghost fs = fields@;
        let r = Type::Structure(fields);
        proof {
            assert(r@->Structure_0 =~= views_of_types(fs));
        }
        r
    }

    /// Constructs a structure type from a descriptor array, taking
    /// ownership of it.
    pub fn structure_from_array(fields: TypeArray) -> (r: Type)
        ensures
            r@ == TyView::Structure(fields@),
    {
        Type::structure(fields.into_elements())
    }

    /// The descriptor of the empty result type; only meaningful as
    /// the return type of a call interface.
    pub fn void() -> (r: Type)
        ensures
            r@ == TyView::Void,
    {
        Type::Void
    }

    /// The descriptor of the C `signed char` type on the modeled
    /// target: a signed 8-bit integer.
    pub fn c_schar() -> (r: Type)
        ensures
            r@ == TyView::I8,
    {
        Type::I8
    }

    /// The descriptor of the C `unsigned char` type on the modeled
    /// target: an unsigned 8-bit integer.
    pub fn c_uchar() -> (r: Type)
        ensures
            r@ == TyView::U8,
    {
        Type::U8
    }

    /// The descriptor of the C `short` type on the modeled target: a
    /// signed 16-bit integer.
    pub fn c_short() -> (r: Type)
        ensures
            r@ == TyView::I16,
    {
        Type::I16
    }

    /// The descriptor of the C `unsigned short` type on the modeled
    /// target: an unsigned 16-bit integer.
    pub fn c_ushort() -> (r: Type)
        ensures
            r@ == TyView::U16,
    {
        Type::U16
    }

    /// The descriptor of the C `int` type on the modeled target: a
    /// signed 32-bit integer.
    pub fn c_int() -> (r: Type)
        ensures
            r@ == TyView::I32,
    {
        Type::I32
    }

    /// The descriptor of the C `unsigned int` type on the modeled
    /// target: an unsigned 32-bit integer.
    pub fn c_uint() -> (r: Type)
        ensures
            r@ == TyView::U32,
    {
        Type::U32
    }

    /// The descriptor of the C `long` type on the modeled target: a
    /// signed 64-bit integer.
    pub fn c_long() -> (r: Type)
        ensures
            r@ == TyView::I64,
    {
        Type::I64
    }

    /// The descriptor of the C `unsigned long` type on the modeled
    /// target: an unsigned 64-bit integer.
    pub fn c_ulong() -> (r: Type)
        ensures
            r@ == TyView::U64,
    {
        Type::U64
    }

    /// The descriptor of the C `long long` type on the modeled target:
    /// a signed 64-bit integer.
    pub fn c_longlong() -> (r: Type)
        ensures
            r@ == TyView::I64,
    {
        Type::I64
    }

    /// The descriptor of the C `unsigned long long` type on the
    /// modeled target: an unsigned 64-bit integer.
    pub fn c_ulonglong() -> (r: Type)
        ensures
            r@ == TyView::U64,
    {
        Type::U64
    }
}

impl Clone for Type {
    /// Duplicates a descriptor: primitives are copied outright, and a
    /// structure deep-clones every field descriptor, recursing through
    /// nested structures of any depth.
    #[verifier::loop_isolation(false)]
    fn clone(&self) -> (r: Self)
        ensures
            r@ == self@,
        decreases self,
    {
        match self {
            Type::Void => Type::Void,
            Type::I8 => Type::I8,
            Type::U8 => Type::U8,
            Type::I16 => Type::I16,
            Type::U16 => Type::U16,
            Type::I32 => Type::I32,
            Type::U32 => Type::U32,
            Type::I64 => Type::I64,
            Type::U64 => Type::U64,
            Type::Isize => Type::Isize,
            Type::Usize => Type::Usize,
            Type::Pointer => Type::Pointer,
            Type::F32 => Type::F32,
            Type::F64 => Type::F64,
            Type::LongDouble => Type::LongDouble,
            Type::ComplexFloat => Type::ComplexFloat,
            Type::ComplexDouble => Type::ComplexDouble,
            Type::ComplexLongDouble => Type::ComplexLongDouble,
            Type::Structure(fields) => {
                let mut copy: Vec<Type> = Vec::new();
                let mut i: usize = 0;
                while i < fields.len()
                    invariant
                        i <= fields@.len(),
                        copy@.len() == i,
                        forall|j: int| 0 <= j < i ==> copy@[j]@ == fields@[j]@,
                    decreases fields@.len() - i,
                {
                    proof {
                        assert(*fields == self->Structure_0);
                        assert(decreases_to!(self => self->Structure_0));
                        assert(decreases_to!(self->Structure_0 => self->Structure_0@));
                        assert(decreases_to!(self->Structure_0@ => self->Structure_0@[i as int]));
                        assert(decreases_to!(self => fields@[i as int]));
                    }
                    copy.push(fields[i].clone());
                    i = i + 1;
                }
                let r = Type::Structure(copy);
                proof {
                    assert(r@->Structure_0 =~= self@->Structure_0);
                }
                r
            },
        }
    }
}

/// An owned, null-terminated (in the engine's eyes) array of type
/// descriptors, used as the argument list of a call interface.
#[derive(Debug, PartialEq, Eq)]
pub struct TypeArray {
    elems: Vec<Type>,
}

impl View for TypeArray {
    type V = Seq<TyView>;

    closed spec fn view(&self) -> Seq<TyView> {
        views_of_types(self.elems@)
    }
}

impl TypeArray {
    /// Constructs an array from the given `Type`s, taking ownership of
    /// each element.
    pub fn new(elements: Vec<Type>) -> (r: TypeArray)
        ensures
            r@ == views_of_types(elements@),
    {
        TypeArray { elems: elements }
    }

    /// The number of descriptors in this array.
    pub fn len(&self) -> (r: usize)
        ensures
            r == self@.len(),
    {
        self.elems.len()
    }

    /// Borrows the underlying descriptor array, in the exact order the
    /// engine will walk it.
    pub fn as_raw_ptr(&self) -> (r: &Vec<Type>)
        ensures
            views_of_types(r@) == self@,
    {
        &self.elems
    }

    /// Takes the descriptors back out of the array.
    pub(crate) fn into_elements(self) -> (r: Vec<Type>)
        ensures
            views_of_types(r@) == self@,
    {
        self.elems
    }
}

impl Clone for TypeArray {
    /// Duplicates the array, deep-cloning every element.
    fn clone(&self) -> (r: Self)
        ensures
            r@ == self@,
    {
        let mut copy: Vec<Type> = Vec::new();
        let mut i: usize = 0;
        while i < self.elems.len()
            invariant
                i <= self.elems@.len(),
                copy@.len() == i,
                forall|j: int| 0 <= j < i ==> copy@[j]@ == self.elems@[j]@,
            decreases self.elems@.len() - i,
        {
            copy.push(self.elems[i].clone());
            i = i + 1;
        }
        let r = TypeArray { elems: copy };
        assert(r@ =~= self@);
        r
    }
}

} // verus!
