//! A builder-style API for constructing call interfaces and closures.
//!
//! A [`Builder`] accumulates argument types, a result type (the empty
//! `void` type by default) and a calling-convention tag (the
//! platform's default by default), and turns them into a prepared
//! [`Cif`] or into a closure of any capture variant.  It adds no rules
//! of its own: preparation can fail exactly as [`Cif::new_with_abi`]
//! can, and the builder hands the accumulated state over unchanged.

use crate::cif::{spec_prep_cif, Cif, CifView};
use crate::closure::{Closure, ClosureMut, ClosureOnce, ClosureOnceView, ClosureView};
use crate::low::{Error, FfiAbi, FFI_DEFAULT_ABI};
use crate::types::{views_of_types, TyView, Type};
use vstd::prelude::*;

verus! {

/// The accumulated state of a [`Builder`]: argument shapes, result
/// shape, and the calling-convention tag.
pub struct BuilderView {
    /// The argument types added so far, in order.
    pub args: Seq<TyView>,
    /// The result type.
    pub res: TyView,
    /// The calling-convention tag.
    pub abi: FfiAbi,
}

/// Provides a builder-style API for constructing CIFs and closures.
#[derive(Debug)]
pub struct Builder {
    args: Vec<Type>,
    res: Type,
    abi: FfiAbi,
}

impl View for Builder {
    type V = BuilderView;

    closed spec fn view(&self) -> BuilderView {
        BuilderView { args: views_of_types(self.args@), res: self.res@, abi: self.abi }
    }
}

impl Builder {
    /// Constructs a `Builder` with no arguments, the `void` result
    /// type, and the platform's default calling convention.
    pub fn new() -> (r: Builder)
        ensures
            r@.args.len() == 0,
            r@.res == TyView::Void,
            r@.abi == FFI_DEFAULT_ABI,
    {
        let r = Builder { args: Vec::new(), res: Type::Void, abi: FFI_DEFAULT_ABI };
        proof {
            assert(r@.args =~= Seq::<TyView>::empty());
        }
        r
    }

    /// Adds a type to the argument type list.
    pub fn arg(self, type_: Type) -> (r: Builder)
        ensures
            r@.args == self@.args.push(type_@),
            r@.res == self@.res,
            r@.abi == self@.abi,
    {
        let ghost old_args = self@.args;
        let ghost pushed = type_@;
        let Builder { mut args, res, abi } = self;
        args.push(type_);
        let r = Builder { args, res, abi };
        proof {
            assert(r@.args =~= old_args.push(pushed));
        }
        r
    }

    /// Adds several types to the argument type list, in order, taking
    /// ownership of each.
    #[verifier::loop_isolation(false)]
    pub fn args(self, types: Vec<Type>) -> (r: Builder)
        ensures
            r@.args == self@.args + views_of_types(types@),
            r@.res == self@.res,
            r@.abi == self@.abi,
    {
        let ghost old_args = self@.args;
        let ghost all = views_of_types(types@);
        let Builder { mut args, res, abi } = self;
        let mut rest = types;
        proof {
            assert(views_of_types(args@) + views_of_types(rest@) =~= old_args + all);
        }
        while rest.len() > 0
            invariant
                views_of_types(args@) + views_of_types(rest@) == old_args + all,
            decreases rest@.len(),
        {
            let ghost a0 = views_of_types(args@);
            let ghost t0 = views_of_types(rest@);
            let t = rest.remove(0);
            args.push(t);
            proof {
                assert(views_of_types(args@) + views_of_types(rest@) =~= a0 + t0);
            }
        }
        let r = Builder { args, res, abi };
        proof {
            assert(views_of_types(rest@) =~= Seq::<TyView>::empty());
            assert(r@.args =~= r@.args + views_of_types(rest@));
            assert(r@.args =~= old_args + all);
        }
        r
    }

    /// Sets the result type.
    pub fn res(self, type_: Type) -> (r: Builder)
        ensures
            r@.args == self@.args,
            r@.res == type_@,
            r@.abi == self@.abi,
    {
        let Builder { args, res: _, abi } = self;
        Builder { args, res: type_, abi }
    }

    /// Sets the calling convention.
    pub fn abi(self, abi: FfiAbi) -> (r: Builder)
        ensures
            r@.args == self@.args,
            r@.res == self@.res,
            r@.abi == abi,
    {
        let Builder { args, res, abi: _ } = self;
        Builder { args, res, abi }
    }

    /// Builds a CIF from the accumulated state: the preparation runs
    /// under the accumulated ABI tag and fails exactly as
    /// [`Cif::new_with_abi`] says.
    pub fn into_cif(self) -> (r: Result<Cif, Error>)
        ensures
            r matches Ok(c) ==> spec_prep_cif(self@.args, self@.res, self@.abi) == Ok::<
                CifView,
                Error,
            >(c@),
            r matches Err(e) ==> spec_prep_cif(self@.args, self@.res, self@.abi) == Err::<
                CifView,
                Error,
            >(e),
    {
        let Builder { args, res, abi } = self;
        Cif::new_with_abi(args, res, abi)
    }

    /// Builds an immutable closure over `userdata` from the
    /// accumulated state.
    pub fn into_closure<U>(self, userdata: U) -> (r: Result<Closure<U>, Error>)
        ensures
            r matches Ok(c) ==> spec_prep_cif(self@.args, self@.res, self@.abi) == Ok::<
                CifView,
                Error,
            >(c@.cif) && c@.userdata == userdata,
            r matches Err(e) ==> spec_prep_cif(self@.args, self@.res, self@.abi) == Err::<
                CifView,
                Error,
            >(e),
    {
        let cif = match self.into_cif() {
            Err(e) => {
                return Err(e);
            },
            Ok(c) => c,
        };
        Closure::new(cif, userdata)
    }

    /// Builds a mutable closure over `userdata` from the accumulated
    /// state.
    pub fn into_closure_mut<U>(self, userdata: U) -> (r: Result<ClosureMut<U>, Error>)
        ensures
            r matches Ok(c) ==> spec_prep_cif(self@.args, self@.res, self@.abi) == Ok::<
                CifView,
                Error,
            >(c@.cif) && c@.userdata == userdata,
            r matches Err(e) ==> spec_prep_cif(self@.args, self@.res, self@.abi) == Err::<
                CifView,
                Error,
            >(e),
    {
        let cif = match self.into_cif() {
            Err(e) => {
                return Err(e);
            },
            Ok(c) => c,
        };
        ClosureMut::new_mut(cif, userdata)
    }

    /// Builds a one-shot closure owning `userdata` from the
    /// accumulated state.
    pub fn into_closure_once<U>(self, userdata: U) -> (r: Result<ClosureOnce<U>, Error>)
        ensures
            r matches Ok(c) ==> spec_prep_cif(self@.args, self@.res, self@.abi) == Ok::<
                CifView,
                Error,
            >(c@.cif) && c@.userdata == Some(userdata),
            r matches Err(e) ==> spec_prep_cif(self@.args, self@.res, self@.abi) == Err::<
                CifView,
                Error,
            >(e),
    {
        let cif = match self.into_cif() {
            Err(e) => {
                return Err(e);
            },
            Ok(c) => c,
        };
        ClosureOnce::new(cif, userdata)
    }
}

impl Default for Builder {
    /// The same empty state as [`Builder::new`].
    fn default() -> (r: Builder)
        ensures
            r@.args.len() == 0,
            r@.res == TyView::Void,
            r@.abi == FFI_DEFAULT_ABI,
    {
        Builder::new()
    }
}

impl Clone for Builder {
    /// Duplicates the accumulated state, deep-cloning the argument
    /// descriptors.
    fn clone(&self) -> (r: Self)
        ensures
            r@.args == self@.args,
            r@.res == self@.res,
            r@.abi == self@.abi,
    {
        let mut args: Vec<Type> = Vec::new();
        let mut i: usize = 0;
        while i < self.args.len()
            invariant
                i <= self.args@.len(),
                args@.len() == i,
                forall|j: int| 0 <= j < i ==> args@[j]@ == self.args@[j]@,
            decreases self.args@.len() - i,
        {
            args.push(self.args[i].clone());
            i = i + 1;
        }
        let r = Builder { args, res: self.res.clone(), abi: self.abi };
        proof {
            assert(r@.args =~= self@.args);
        }
        r
    }
}

} // verus!
