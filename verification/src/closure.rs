//! Closures callable from native code, modeled at the managed side of
//! the trampoline.
//!
//! A closure binds a prepared call interface and captured user state
//! to a dynamically generated trampoline; the engine allocates the
//! trampoline, initializes it, and frees it when the closure is
//! dropped.  What this layer owns — and what is verified here — is the
//! captured state's lifecycle: a [`Closure`] shares its state
//! immutably across invocations, a [`ClosureMut`] threads exclusive
//! mutable state through each invocation, and a [`ClosureOnce`]
//! consumes its state on the first invocation and deterministically
//! signals [`ConsumedError`] on every later one, never returning stale
//! data.
//!
//! Each `invoke` method models one arrival from native code through
//! the trampoline: it runs the callback on the captured state and the
//! incoming argument, and its contract ties the result to the
//! callback's own contract.  The native caller's obligations remain
//! outside this model: it must not run an exclusive-mutable closure's
//! trampoline concurrently, must never call a freed trampoline, and
//! the embedder must convert any unwinding out of a callback into an
//! immediate process abort rather than let it cross the native
//! boundary.

use crate::cif::{Cif, CifView};
use crate::low::{abi_is_valid, spec_abi_is_valid, Error};
use vstd::prelude::*;

verus! {

/// Signaled by a one-shot closure entered again after its captured
/// value was consumed.
#[derive(Clone, Copy, Debug, PartialEq, Eq, Structural)]
pub struct ConsumedError;

/// The shape of a closure with immutable or threaded state: the
/// interface its trampoline was prepared against, and the captured
/// value.
pub struct ClosureView<U> {
    /// The prepared call interface.
    pub cif: CifView,
    /// The captured user state.
    pub userdata: U,
}

/// The shape of a one-shot closure: the captured value is gone once
/// the closure has been invoked.
pub struct ClosureOnceView<U> {
    /// The prepared call interface.
    pub cif: CifView,
    /// The captured user state, until the first invocation consumes
    /// it.
    pub userdata: Option<U>,
}

/// A closure with shared, immutable captured state: every invocation
/// observes the same value.
#[derive(Debug)]
pub struct Closure<U> {
    cif: Cif,
    userdata: U,
}

impl<U> View for Closure<U> {
    type V = ClosureView<U>;

    closed spec fn view(&self) -> ClosureView<U> {
        ClosureView { cif: self.cif@, userdata: self.userdata }
    }
}

impl<U> Closure<U> {
    /// Creates a new closure with immutable userdata: the trampoline
    /// is allocated and initialized against `cif`.  Initialization
    /// re-checks the interface as the engine does; since `cif` was
    /// already prepared, only a bad ABI tag — possible after
    /// [`Cif::set_abi`] — can fail here, and it fails exactly then.
    pub fn new(cif: Cif, userdata: U) -> (r: Result<Closure<U>, Error>)
        ensures
            spec_abi_is_valid(cif@.abi) ==> (r matches Ok(c) && c@ == (ClosureView {
                cif: cif@,
                userdata,
            })),
            !spec_abi_is_valid(cif@.abi) ==> (r matches Err(e) && e == Error::Abi),
    {
        let abi = cif.abi();
        if !abi_is_valid(abi) {
            return Err(Error::Abi);
        }
        Ok(Closure { cif, userdata })
    }

    /// The interface the closure's trampoline answers to.
    pub fn cif(&self) -> (r: &Cif)
        ensures
            r@ == self@.cif,
    {
        &self.cif
    }

    /// Borrows the captured state, as the callback does on every
    /// invocation.
    pub fn userdata(&self) -> (r: &U)
        ensures
            r == &self@.userdata,
    {
        &self.userdata
    }

    /// Models one invocation arriving from native code: the callback
    /// `f` runs over the shared captured state and the incoming
    /// argument, and the result is exactly what `f` answers for them.
    pub fn invoke<A, R, F: Fn(&U, A) -> R>(&self, f: F, a: A) -> (r: R)
        requires
            call_requires(f, (&self@.userdata, a)),
        ensures
            call_ensures(f, (&self@.userdata, a), r),
    {
        f(&self.userdata, a)
    }
}

/// A closure with exclusive, mutable captured state.  The state is
/// threaded through each invocation: invoking consumes the closure and
/// hands back its successor, which makes the exclusivity the native
/// caller must respect explicit.
#[derive(Debug)]
pub struct ClosureMut<U> {
    cif: Cif,
    userdata: U,
}

impl<U> View for ClosureMut<U> {
    type V = ClosureView<U>;

    closed spec fn view(&self) -> ClosureView<U> {
        ClosureView { cif: self.cif@, userdata: self.userdata }
    }
}

impl<U> ClosureMut<U> {
    /// Creates a new closure with mutable userdata; fails with the
    /// bad-ABI error exactly when the interface's tag is one the
    /// engine does not accept.
    pub fn new_mut(cif: Cif, userdata: U) -> (r: Result<ClosureMut<U>, Error>)
        ensures
            spec_abi_is_valid(cif@.abi) ==> (r matches Ok(c) && c@ == (ClosureView {
                cif: cif@,
                userdata,
            })),
            !spec_abi_is_valid(cif@.abi) ==> (r matches Err(e) && e == Error::Abi),
    {
        let abi = cif.abi();
        if !abi_is_valid(abi) {
            return Err(Error::Abi);
        }
        Ok(ClosureMut { cif, userdata })
    }

    /// The interface the closure's trampoline answers to.
    pub fn cif(&self) -> (r: &Cif)
        ensures
            r@ == self@.cif,
    {
        &self.cif
    }

    /// Borrows the captured state between invocations.
    pub fn userdata(&self) -> (r: &U)
        ensures
            r == &self@.userdata,
    {
        &self.userdata
    }

    /// Models one invocation arriving from native code: the callback
    /// `f` turns the captured state and the incoming argument into the
    /// new state and the result.  The successor closure keeps the same
    /// interface and carries the new state.
    pub fn invoke<A, R, F: Fn(U, A) -> (U, R)>(self, f: F, a: A) -> (res: (ClosureMut<U>, R))
        requires
            call_requires(f, (self@.userdata, a)),
        ensures
            res.0@.cif == self@.cif,
            call_ensures(f, (self@.userdata, a), (res.0@.userdata, res.1)),
    {
        let ClosureMut { cif, userdata } = self;
        let (next, out) = f(userdata, a);
        (ClosureMut { cif, userdata: next }, out)
    }
}

/// A closure that owns its captured state and hands it to the callback
/// on the first invocation.  The value is then gone: a later
/// invocation deterministically signals [`ConsumedError`] instead of
/// touching freed state.
#[derive(Debug)]
pub struct ClosureOnce<U> {
    cif: Cif,
    userdata: Option<U>,
}

impl<U> View for ClosureOnce<U> {
    type V = ClosureOnceView<U>;

    closed spec fn view(&self) -> ClosureOnceView<U> {
        ClosureOnceView { cif: self.cif@, userdata: self.userdata }
    }
}

impl<U> ClosureOnce<U> {
    /// Creates a new closure with owned userdata; fails with the
    /// bad-ABI error exactly when the interface's tag is one the
    /// engine does not accept.
    pub fn new(cif: Cif, userdata: U) -> (r: Result<ClosureOnce<U>, Error>)
        ensures
            spec_abi_is_valid(cif@.abi) ==> (r matches Ok(c) && c@ == (ClosureOnceView {
                cif: cif@,
                userdata: Some(userdata),
            })),
            !spec_abi_is_valid(cif@.abi) ==> (r matches Err(e) && e == Error::Abi),
    {
        let abi = cif.abi();
        if !abi_is_valid(abi) {
            return Err(Error::Abi);
        }
        Ok(ClosureOnce { cif, userdata: Some(userdata) })
    }

    /// The interface the closure's trampoline answers to.
    pub fn cif(&self) -> (r: &Cif)
        ensures
            r@ == self@.cif,
    {
        &self.cif
    }

    /// Whether the captured value has already been consumed.
    pub fn is_consumed(&self) -> (r: bool)
        ensures
            r == (self@.userdata is None),
    {
        self.userdata.is_none()
    }

    /// Models one invocation arriving from native code.  On the first
    /// invocation the callback takes ownership of the captured value
    /// and its answer is returned; on every later one the closure
    /// signals [`ConsumedError`] — it neither runs the callback nor
    /// fabricates a value.
    pub fn invoke<A, R, F: FnOnce(U, A) -> R>(&mut self, f: F, a: A) -> (r: Result<
        R,
        ConsumedError,
    >)
        requires
            old(self)@.userdata matches Some(u) ==> call_requires(f, (u, a)),
        ensures
            final(self)@.cif == old(self)@.cif,
            final(self)@.userdata is None,
            old(self)@.userdata matches Some(u) ==> (r matches Ok(v) && call_ensures(
                f,
                (u, a),
                v,
            )),
            old(self)@.userdata is None ==> (r matches Err(e) && e == ConsumedError),
    {
        let taken = self.userdata.take();
        match taken {
            Some(u) => Ok(f(u, a)),
            None => Err(ConsumedError),
        }
    }
}

} // verus!
