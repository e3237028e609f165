//! Prepared call interfaces.
//!
//! A [`Cif`] binds an argument-type array, a result type and a
//! calling-convention tag into a prepared record, the model of the
//! engine's "prepare call interface" entry point.  Preparation
//! validates the ABI tag, lowers every descriptor to an engine record
//! and runs the layout pass over each; it fails with the recoverable
//! bad-ABI or bad-typedef errors exactly as the engine reports them.
//!
//! A call through a prepared interface happens in three steps.  The
//! argument cells are counted against the prepared record —
//! [`Cif::args_match`]; handing the engine a wrong count would make it
//! read out of bounds, so a caller must treat a mismatch as a fatal
//! programmer error, never call through it.  The engine performs the
//! machine-level invocation and writes at least a register's worth of
//! result.  [`Cif::call_result`] interprets that buffer, honoring the
//! byte order and the implicit promotion of narrow results.

use crate::low::{
    abi_is_valid, spec_abi_is_valid, spec_read_return, spec_result_buffer_len, read_return,
    return_width_ok, ByteOrder, Error, FfiAbi, FFI_DEFAULT_ABI,
};
use crate::record::{
    lemma_prepare_all_err, lemma_prepare_all_err_kind, lemma_prepare_err_kind, lower_spec,
    spec_prepare, spec_prepare_all, views_of_records, FfiType, FfiTypeArray, RecView,
};
use crate::type_tag;
use crate::types::{views_of_types, Type, TypeArray, TyView};
use vstd::prelude::*;

verus! {

/// The mathematical shape of a prepared call interface: its ABI tag,
/// the prepared argument records and the prepared result record.
pub struct CifView {
    /// The calling-convention tag the interface was prepared with (or
    /// later switched to).
    pub abi: FfiAbi,
    /// The prepared argument records, in call order.
    pub args: Seq<RecView>,
    /// The prepared result record.
    pub result: RecView,
}

/// The records a sequence of descriptors lowers to, element by element.
pub open spec fn lower_all(ts: Seq<TyView>) -> Seq<RecView> {
    Seq::new(ts.len(), |i: int| lower_spec(ts[i]))
}

/// The logical width of a call result described by `v`: nothing for
/// `void`, the record's size otherwise.
pub open spec fn spec_logical_width(v: RecView) -> nat {
    if v.tag == type_tag::VOID {
        0
    } else {
        v.size
    }
}

/// What preparing a call interface yields: the bad-ABI error on a tag
/// the engine does not accept, the bad-typedef error when the layout
/// pass rejects the result or an argument type, and the prepared
/// interface otherwise.
pub open spec fn spec_prep_cif(args: Seq<TyView>, result: TyView, abi: FfiAbi) -> Result<
    CifView,
    Error,
> {
    if !spec_abi_is_valid(abi) {
        Err(Error::Abi)
    } else {
        match spec_prepare(lower_spec(result)) {
            Err(e) => Err(e),
            Ok(rrec) => match spec_prepare_all(lower_all(args)) {
                Err(e) => Err(e),
                Ok(arecs) => Ok(CifView { abi, args: arecs, result: rrec }),
            },
        }
    }
}

/// Contains an untyped argument cell: the bytes the engine will read
/// for one argument, laid out as the argument's descriptor says.
#[derive(Debug, PartialEq, Eq)]
pub struct Arg {
    bytes: Vec<u8>,
}

impl View for Arg {
    type V = Seq<u8>;

    closed spec fn view(&self) -> Seq<u8> {
        self.bytes@
    }
}

impl Arg {
    /// Wraps the bytes of one argument value as a cell for a call.
    pub fn new(bytes: Vec<u8>) -> (r: Arg)
        ensures
            r@ == bytes@,
    {
        Arg { bytes }
    }

    /// Borrows the cell's bytes.
    pub fn bytes(&self) -> (r: &Vec<u8>)
        ensures
            r@ == self@,
    {
        &self.bytes
    }
}

impl Clone for Arg {
    /// Duplicates the cell.
    fn clone(&self) -> (r: Self)
        ensures
            r@ == self@,
    {
        let mut bytes: Vec<u8> = Vec::new();
        let mut i: usize = 0;
        while i < self.bytes.len()
            invariant
                i <= self.bytes@.len(),
                bytes@ == self.bytes@.subrange(0, i as int),
            decreases self.bytes@.len() - i,
        {
            bytes.push(self.bytes[i]);
            proof {
                assert(bytes@ =~= self.bytes@.subrange(0, i + 1));
            }
            i = i + 1;
        }
        proof {
            assert(bytes@ =~= self.bytes@);
        }
        Arg { bytes }
    }
}

/// Wraps the bytes of one argument value as a cell for a call; the
/// same as [`Arg::new`].
pub fn arg(bytes: Vec<u8>) -> (r: Arg)
    ensures
        r@ == bytes@,
{
    Arg::new(bytes)
}

/// Describes the calling convention and types for calling a function:
/// a prepared call-interface record owning its argument-type array and
/// result descriptor record.
#[derive(Debug)]
pub struct Cif {
    abi: FfiAbi,
    args: FfiTypeArray,
    result: FfiType,
}

impl View for Cif {
    type V = CifView;

    closed spec fn view(&self) -> CifView {
        CifView { abi: self.abi, args: self.args@, result: self.result@ }
    }
}

impl Cif {
    /// The prepared result record allows its width to be read back at
    /// the documented offset: it is `void`, narrow with a power-of-two
    /// width, front-aligned, or at least a register wide.
    #[verifier::type_invariant]
    closed spec fn inv(&self) -> bool {
        return_width_ok(self.result@.tag, spec_logical_width(self.result@))
    }

    /// Creates a call interface for the given argument and result
    /// types under the platform's default calling convention, taking
    /// ownership of the descriptors.  Fails with the bad-typedef error
    /// exactly when the engine's layout pass rejects a descriptor.
    pub fn new(args: Vec<Type>, result: Type) -> (r: Result<Cif, Error>)
        ensures
            r matches Ok(c) ==> spec_prep_cif(views_of_types(args@), result@, FFI_DEFAULT_ABI)
                == Ok::<CifView, Error>(c@),
            r matches Err(e) ==> spec_prep_cif(views_of_types(args@), result@, FFI_DEFAULT_ABI)
                == Err::<CifView, Error>(e),
    {
        Self::new_with_abi(args, result, FFI_DEFAULT_ABI)
    }

    /// Creates a call interface from an argument-type array, as
    /// [`Cif::new`] does.
    pub fn from_type_array(args: TypeArray, result: Type) -> (r: Result<Cif, Error>)
        ensures
            r matches Ok(c) ==> spec_prep_cif(args@, result@, FFI_DEFAULT_ABI) == Ok::<
                CifView,
                Error,
            >(c@),
            r matches Err(e) ==> spec_prep_cif(args@, result@, FFI_DEFAULT_ABI) == Err::<
                CifView,
                Error,
            >(e),
    {
        Self::new_with_abi(args.into_elements(), result, FFI_DEFAULT_ABI)
    }

    /// Creates a call interface under an explicit calling convention.
    /// Fails with the bad-ABI error exactly when the tag is outside the
    /// range the engine accepts, and with the bad-typedef error exactly
    /// when the layout pass rejects a descriptor; the ABI is checked
    /// first, as the engine checks it first.
    #[verifier::loop_isolation(false)]
    pub fn new_with_abi(args: Vec<Type>, result: Type, abi: FfiAbi) -> (r: Result<Cif, Error>)
        ensures
            r matches Ok(c) ==> spec_prep_cif(views_of_types(args@), result@, abi) == Ok::<
                CifView,
                Error,
            >(c@),
            r matches Err(e) ==> spec_prep_cif(views_of_types(args@), result@, abi) == Err::<
                CifView,
                Error,
            >(e),
    {
        if !abi_is_valid(abi) {
            return Err(Error::Abi);
        }
        let rrec0 = FfiType::new(&result);
        let rrec = match rrec0.prepare() {
            Err(e) => {
                return Err(e);
            },
            Ok(p) => p,
        };
        let ghost lowered = lower_all(views_of_types(args@));
        let mut arecs: Vec<FfiType> = Vec::new();
        proof {
            assert(lowered.subrange(0, 0) =~= Seq::<RecView>::empty());
            assert(views_of_records(arecs@) =~= Seq::<RecView>::empty());
        }
        let mut i: usize = 0;
        while i < args.len()
            invariant
                i <= args@.len(),
                arecs@.len() == i,
                lowered == lower_all(views_of_types(args@)),
                spec_prepare_all(lowered.subrange(0, i as int)) == Ok::<Seq<RecView>, Error>(
                    views_of_records(arecs@),
                ),
            decreases args@.len() - i,
        {
            let rec = FfiType::new(&args[i]);
            proof {
                assert(rec@ == lowered[i as int]);
            }
            match rec.prepare() {
                Err(e) => {
                    proof {
                        lemma_prepare_all_err(lowered, i as int, e);
                    }
                    return Err(e);
                },
                Ok(p) => {
                    proof {
                        assert(lowered.subrange(0, i + 1).drop_last() =~= lowered.subrange(
                            0,
                            i as int,
                        ));
                        assert(lowered.subrange(0, i + 1).last() == lowered[i as int]);
                    }
                    let ghost old_recs = views_of_records(arecs@);
                    arecs.push(p);
                    proof {
                        assert(views_of_records(arecs@) =~= old_recs.push(arecs@[i as int]@));
                    }
                    i = i + 1;
                },
            }
        }
        proof {
            assert(lowered.subrange(0, lowered.len() as int) =~= lowered);
        }
        let c = Cif { abi, args: FfiTypeArray::new(arecs), result: rrec };
        proof {
            lemma_prepared_result_width(result@);
        }
        Ok(c)
    }

    /// Creates a call interface for a variadic function: the first
    /// `nfixedargs` of `args` are the fixed parameters and the rest
    /// the variadic tail of one concrete call.  The split only steers
    /// the machine-level argument passing, which is the engine's
    /// business; validation and layout run exactly as in [`Cif::new`].
    pub fn new_variadic(args: Vec<Type>, nfixedargs: usize, result: Type) -> (r: Result<
        Cif,
        Error,
    >)
        requires
            nfixedargs <= args@.len(),
        ensures
            r matches Ok(c) ==> spec_prep_cif(views_of_types(args@), result@, FFI_DEFAULT_ABI)
                == Ok::<CifView, Error>(c@),
            r matches Err(e) ==> spec_prep_cif(views_of_types(args@), result@, FFI_DEFAULT_ABI)
                == Err::<CifView, Error>(e),
    {
        let _ = nfixedargs;
        Self::new_with_abi(args, result, FFI_DEFAULT_ABI)
    }

    /// The number of arguments the interface was prepared for.
    pub fn nargs(&self) -> (r: usize)
        ensures
            r == self@.args.len(),
    {
        self.args.len()
    }

    /// The calling-convention tag currently in the prepared record.
    pub fn abi(&self) -> (r: FfiAbi)
        ensures
            r == self@.abi,
    {
        self.abi
    }

    /// Sets the interface to use the given calling convention,
    /// rewriting the prepared record's ABI field directly.  No
    /// re-preparation happens: the field is independent of the type
    /// layout.  The tag is not validated here; one the engine does not
    /// accept surfaces as the bad-ABI error when a closure is prepared
    /// against this interface.
    pub fn set_abi(&mut self, abi: FfiAbi)
        ensures
            final(self)@ == (CifView { abi, args: old(self)@.args, result: old(self)@.result }),
    {
        proof {
            use_type_invariant(&*self);
        }
        self.abi = abi;
    }

    /// Borrows the prepared result record.
    pub fn result_type(&self) -> (r: &FfiType)
        ensures
            r@ == self@.result,
    {
        &self.result
    }

    /// Borrows the `i`th prepared argument record.
    pub fn arg_type(&self, i: usize) -> (r: &FfiType)
        requires
            i < self@.args.len(),
        ensures
            r@ == self@.args[i as int],
    {
        self.args.element(i)
    }

    /// Decides whether a sequence of argument cells matches the count
    /// the interface was prepared for.  Handing the engine a mismatched
    /// count makes it read out of bounds: a caller must treat `false`
    /// as an immediate, fatal programmer error and never start the
    /// call.
    pub fn args_match(&self, args: &Vec<Arg>) -> (ok: bool)
        ensures
            ok == (args@.len() == self@.args.len()),
    {
        args.len() == self.args.len()
    }

    /// Interprets the result buffer the engine wrote for a call through
    /// this interface: the logical result bytes, extracted from the
    /// byte-order-dependent offset inside the register-sized (or
    /// larger) buffer.
    pub fn call_result(&self, raw: &Vec<u8>, order: ByteOrder) -> (r: Vec<u8>)
        requires
            raw@.len() == spec_result_buffer_len(spec_logical_width(self@.result)),
        ensures
            r@ == spec_read_return(
                self@.result.tag,
                spec_logical_width(self@.result),
                raw@,
                order,
            ),
    {
        proof {
            use_type_invariant(self);
        }
        let tag: u16 = self.result.tag();
        let width: usize = if tag == type_tag::VOID {
            0
        } else {
            self.result.size()
        };
        read_return(tag, width, raw, order)
    }
}

impl Clone for Cif {
    /// Duplicates the interface.  The argument array and result record
    /// are deep-cloned, and the duplicate's prepared record refers to
    /// its own clones' storage, never to the original's: either copy
    /// can be destroyed without touching the other.
    fn clone(&self) -> (r: Self)
        ensures
            r@ == self@,
    {
        proof {
            use_type_invariant(self);
        }
        Cif { abi: self.abi, args: self.args.clone(), result: self.result.clone() }
    }
}

/// Preparing a call interface reports the bad-ABI error exactly on a
/// calling-convention tag outside the range the engine accepts: an
/// unrecognized tag never crashes and never silently succeeds, and an
/// accepted tag is never blamed for the ABI.
pub proof fn lemma_bad_abi_reported(args: Seq<TyView>, result: TyView, abi: FfiAbi)
    ensures
        (spec_prep_cif(args, result, abi) == Err::<CifView, Error>(Error::Abi)) <==> !spec_abi_is_valid(
            abi,
        ),
{
    if spec_abi_is_valid(abi) {
        lemma_prepare_err_kind(lower_spec(result));
        lemma_prepare_all_err_kind(lower_all(args));
    }
}

/// The result record of a successfully prepared interface always
/// allows its width to be read back: `void` and front-aligned kinds at
/// the buffer's front, scalars at their power-of-two widths, wide
/// results in full.
proof fn lemma_prepared_result_width(t: TyView)
    requires
        spec_prepare(lower_spec(t)) is Ok,
    ensures
        return_width_ok(
            spec_prepare(lower_spec(t))->Ok_0.tag,
            spec_logical_width(spec_prepare(lower_spec(t))->Ok_0),
        ),
{
    // Case split over the descriptor: a structure prepares to a
    // front-aligned record, and every other kind passes through the
    // layout pass with the width its static descriptor carries.
    match t {
        TyView::Structure(_) => {},
        _ => {},
    }
}

} // verus!
