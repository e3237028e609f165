//! Statically-typed wrappers over the call-interface layer.
//!
//! A [`Type<T>`] couples a run-time descriptor with the Rust type `T`
//! it describes, so a call interface can be assembled with the
//! argument and result types tracked by the compiler.  [`CType`] names
//! the Rust types that marshal as a fixed descriptor, and
//! [`CRetType`] additionally admits `()` for functions that return
//! nothing.  [`Cif1`] and [`Cif2`] are typed call interfaces of one
//! and two arguments.

use crate::cif::{spec_prep_cif, Cif, CifView};
use crate::low::{Error, FfiAbi, FFI_DEFAULT_ABI};
use crate::types::TyView;
use core::marker::PhantomData;
use vstd::prelude::*;

verus! {

/// Closes [`CRetType`] to the types this module vouches for.
pub trait Sealed {
}

/// Represents a native type statically associated with a Rust type.
///
/// The run-time value describes a particular native type, while the
/// type parameter `T` is the equivalent Rust type.
#[derive(Debug)]
pub struct Type<T> {
    untyped: crate::types::Type,
    _marker: PhantomData<T>,
}

impl<T> View for Type<T> {
    type V = TyView;

    closed spec fn view(&self) -> TyView {
        self.untyped@
    }
}

impl<T> Type<T> {
    /// Makes a typed descriptor from an untyped one; the caller vouches
    /// that `T` really marshals as `untyped` describes.
    pub fn make(untyped: crate::types::Type) -> (r: Type<T>)
        ensures
            r@ == untyped@,
    {
        Type { untyped, _marker: PhantomData }
    }

    /// Gets the underlying untyped descriptor back.
    pub fn into_middle(self) -> (r: crate::types::Type)
        ensures
            r@ == self@,
    {
        self.untyped
    }
}

impl<T> Clone for Type<T> {
    /// Duplicates the descriptor, deep-cloning composites.
    fn clone(&self) -> (r: Self)
        ensures
            r@ == self@,
    {
        Type { untyped: self.untyped.clone(), _marker: PhantomData }
    }
}

/// Rust types that marshal to and from native code as one fixed
/// descriptor.
pub trait CType: Sized {
    /// The shape of the descriptor this type marshals as.
    spec fn spec_type() -> TyView;

    /// Creates the descriptor for this type.
    fn reify() -> (r: Type<Self>)
        ensures
            r@ == Self::spec_type(),
    ;
}

/// Rust types a called function may return: every [`CType`], and `()`
/// for functions that return nothing.
pub trait CRetType: Sized + Sealed {
    /// The shape of the result descriptor, or `None` for the empty
    /// result.
    spec fn spec_return_type() -> Option<TyView>;

    /// Creates the result descriptor for this type, or `None` for the
    /// empty result.
    fn get_return_type() -> (r: Option<crate::types::Type>)
        ensures
            r matches Some(t) ==> Self::spec_return_type() == Some(t@),
            r is None <==> Self::spec_return_type() is None,
    ;
}

impl CType for u8 {
    open spec fn spec_type() -> TyView {
        TyView::U8
    }

    fn reify() -> (r: Type<u8>) {
        Type::make(crate::types::Type::U8)
    }
}

impl CType for i8 {
    open spec fn spec_type() -> TyView {
        TyView::I8
    }

    fn reify() -> (r: Type<i8>) {
        Type::make(crate::types::Type::I8)
    }
}

impl CType for u16 {
    open spec fn spec_type() -> TyView {
        TyView::U16
    }

    fn reify() -> (r: Type<u16>) {
        Type::make(crate::types::Type::U16)
    }
}

impl CType for i16 {
    open spec fn spec_type() -> TyView {
        TyView::I16
    }

    fn reify() -> (r: Type<i16>) {
        Type::make(crate::types::Type::I16)
    }
}

impl CType for u32 {
    open spec fn spec_type() -> TyView {
        TyView::U32
    }

    fn reify() -> (r: Type<u32>) {
        Type::make(crate::types::Type::U32)
    }
}

impl CType for i32 {
    open spec fn spec_type() -> TyView {
        TyView::I32
    }

    fn reify() -> (r: Type<i32>) {
        Type::make(crate::types::Type::I32)
    }
}

impl CType for u64 {
    open spec fn spec_type() -> TyView {
        TyView::U64
    }

    fn reify() -> (r: Type<u64>) {
        Type::make(crate::types::Type::U64)
    }
}

impl CType for i64 {
    open spec fn spec_type() -> TyView {
        TyView::I64
    }

    fn reify() -> (r: Type<i64>) {
        Type::make(crate::types::Type::I64)
    }
}

impl CType for usize {
    open spec fn spec_type() -> TyView {
        TyView::Usize
    }

    fn reify() -> (r: Type<usize>) {
        Type::make(crate::types::Type::Usize)
    }
}

impl CType for isize {
    open spec fn spec_type() -> TyView {
        TyView::Isize
    }

    fn reify() -> (r: Type<isize>) {
        Type::make(crate::types::Type::Isize)
    }
}

impl<T: CType> Sealed for T {
}

impl Sealed for () {
}

impl<T: CType> CRetType for T {
    open spec fn spec_return_type() -> Option<TyView> {
        Some(T::spec_type())
    }

    fn get_return_type() -> (r: Option<crate::types::Type>) {
        Some(T::reify().into_middle())
    }
}

impl CRetType for () {
    open spec fn spec_return_type() -> Option<TyView> {
        None
    }

    fn get_return_type() -> (r: Option<crate::types::Type>) {
        None
    }
}

/// A typed call interface of one argument, statically tracking the
/// argument and result types.
#[derive(Debug)]
pub struct Cif1<A, R> {
    untyped: Cif,
    _marker: PhantomData<(A, R)>,
}

impl<A, R> View for Cif1<A, R> {
    type V = CifView;

    closed spec fn view(&self) -> CifView {
        self.untyped@
    }
}

impl<A, R> Cif1<A, R> {
    /// Creates a typed call interface with the given argument and
    /// result descriptors, under the platform's default calling
    /// convention.
    pub fn new(a: Type<A>, r: Type<R>) -> (res: Result<Cif1<A, R>, Error>)
        ensures
            res matches Ok(c) ==> spec_prep_cif(seq![a@], r@, FFI_DEFAULT_ABI) == Ok::<
                CifView,
                Error,
            >(c@),
            res matches Err(e) ==> spec_prep_cif(seq![a@], r@, FFI_DEFAULT_ABI) == Err::<
                CifView,
                Error,
            >(e),
    {
        let ghost aview = a@;
        let mut args: Vec<crate::types::Type> = Vec::new();
        args.push(a.into_middle());
        proof {
            assert(crate::types::views_of_types(args@) =~= seq![aview]);
        }
        let c = match Cif::new(args, r.into_middle()) {
            Err(e) => {
                return Err(e);
            },
            Ok(c) => c,
        };
        Ok(Cif1 { untyped: c, _marker: PhantomData })
    }

    /// Sets the interface to use the given calling convention; see
    /// [`Cif::set_abi`].
    pub fn set_abi(&mut self, abi: FfiAbi)
        ensures
            final(self)@ == (CifView {
                abi,
                args: old(self)@.args,
                result: old(self)@.result,
            }),
    {
        self.untyped.set_abi(abi);
    }

    /// Gets the underlying untyped interface back.
    pub fn into_untyped(self) -> (r: Cif)
        ensures
            r@ == self@,
    {
        self.untyped
    }
}

impl<A: CType, R: CType> Cif1<A, R> {
    /// Creates the typed interface by reifying the argument and result
    /// types.
    pub fn reify() -> (res: Result<Cif1<A, R>, Error>)
        ensures
            res matches Ok(c) ==> spec_prep_cif(
                seq![A::spec_type()],
                R::spec_type(),
                FFI_DEFAULT_ABI,
            ) == Ok::<CifView, Error>(c@),
            res matches Err(e) ==> spec_prep_cif(
                seq![A::spec_type()],
                R::spec_type(),
                FFI_DEFAULT_ABI,
            ) == Err::<CifView, Error>(e),
    {
        Self::new(A::reify(), R::reify())
    }
}

/// A typed call interface of two arguments, statically tracking the
/// argument and result types.
#[derive(Debug)]
pub struct Cif2<A, B, R> {
    untyped: Cif,
    _marker: PhantomData<(A, B, R)>,
}

impl<A, B, R> View for Cif2<A, B, R> {
    type V = CifView;

    closed spec fn view(&self) -> CifView {
        self.untyped@
    }
}

impl<A, B, R> Cif2<A, B, R> {
    /// Creates a typed call interface with the given argument and
    /// result descriptors, under the platform's default calling
    /// convention.
    pub fn new(a: Type<A>, b: Type<B>, r: Type<R>) -> (res: Result<Cif2<A, B, R>, Error>)
        ensures
            res matches Ok(c) ==> spec_prep_cif(seq![a@, b@], r@, FFI_DEFAULT_ABI) == Ok::<
                CifView,
                Error,
            >(c@),
            res matches Err(e) ==> spec_prep_cif(seq![a@, b@], r@, FFI_DEFAULT_ABI) == Err::<
                CifView,
                Error,
            >(e),
    {
        let ghost aview = a@;
        let ghost bview = b@;
        let mut args: Vec<crate::types::Type> = Vec::new();
        args.push(a.into_middle());
        args.push(b.into_middle());
        proof {
            assert(crate::types::views_of_types(args@) =~= seq![aview, bview]);
        }
        let c = match Cif::new(args, r.into_middle()) {
            Err(e) => {
                return Err(e);
            },
            Ok(c) => c,
        };
        Ok(Cif2 { untyped: c, _marker: PhantomData })
    }

    /// Sets the interface to use the given calling convention; see
    /// [`Cif::set_abi`].
    pub fn set_abi(&mut self, abi: FfiAbi)
        ensures
            final(self)@ == (CifView {
                abi,
                args: old(self)@.args,
                result: old(self)@.result,
            }),
    {
        self.untyped.set_abi(abi);
    }

    /// Gets the underlying untyped interface back.
    pub fn into_untyped(self) -> (r: Cif)
        ensures
            r@ == self@,
    {
        self.untyped
    }
}

impl<A: CType, B: CType, R: CType> Cif2<A, B, R> {
    /// Creates the typed interface by reifying the argument and result
    /// types.
    pub fn reify() -> (res: Result<Cif2<A, B, R>, Error>)
        ensures
            res matches Ok(c) ==> spec_prep_cif(
                seq![A::spec_type(), B::spec_type()],
                R::spec_type(),
                FFI_DEFAULT_ABI,
            ) == Ok::<CifView, Error>(c@),
            res matches Err(e) ==> spec_prep_cif(
                seq![A::spec_type(), B::spec_type()],
                R::spec_type(),
                FFI_DEFAULT_ABI,
            ) == Err::<CifView, Error>(e),
    {
        Self::new(A::reify(), B::reify(), R::reify())
    }
}

} // verus!
