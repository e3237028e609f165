//! Engine-facing descriptor records.
//!
//! The calling engine consumes flat records: a tag, a size, an
//! alignment, and — for composite records — a null-terminated array of
//! element records.  [`FfiType`] models one such record as an owned
//! tree.  Primitive records stand for the engine's static,
//! process-wide descriptors and are marked shared: they are never
//! freed and duplicating one duplicates only the reference.  Structure
//! records are owned outright, are created with their size and
//! alignment left at zero, and have both filled in by [`FfiType::prepare`],
//! the model of the engine's layout pass.  Extended-precision and
//! complex records are treated as composite-like and always cloned per
//! use: on some targets the engine's static records for them are not
//! safe to share between threads, so this model never shares them.
//!
//! Destruction follows ownership: dropping a record frees its element
//! records recursively, at any nesting depth, while the static
//! descriptors behind shared records are never freed — a shared record
//! owns no elements, so its drop gives nothing back.

use crate::low::Error;
use crate::type_tag;
use crate::types::{TyView, Type};
use vstd::arithmetic::div_mod::{lemma_fundamental_div_mod, lemma_mod_bound};
use vstd::prelude::*;

verus! {

/// Largest size in bytes the model accepts for one type; a layout that
/// grows past it is rejected as a bad type definition.  No call could
/// pass a value of such a type anyway, and the bound keeps every layout
/// computation inside exact machine arithmetic.
pub const MAX_TYPE_SIZE: usize = 0x1000_0000;

/// Largest alignment any record can carry on the modeled target.
pub const MAX_ALIGN: u16 = 16;

/// The mathematical shape of a descriptor record: its tag, layout, the
/// sharing mark, and the shapes of its elements.
pub struct RecView {
    /// The type tag of the record.
    pub tag: u16,
    /// Size in bytes; zero on a structure record not yet prepared.
    pub size: nat,
    /// Alignment in bytes; zero on a structure record not yet prepared.
    pub alignment: nat,
    /// Whether the record stands for an engine-owned static descriptor,
    /// shared by reference and never freed.
    pub shared: bool,
    /// The element records of a composite; empty on scalars.
    pub elements: Seq<RecView>,
}

/// One descriptor record handed to the calling engine, owning its
/// element records.
#[derive(Debug, PartialEq, Eq)]
pub struct FfiType {
    pub(crate) tag: u16,
    pub(crate) size: usize,
    pub(crate) alignment: u16,
    pub(crate) shared: bool,
    pub(crate) elements: Vec<FfiType>,
}

/// The shape of one record: its scalar fields together with the shapes
/// of its elements.
pub(crate) closed spec fn rec_view(t: FfiType) -> RecView
    decreases t,
{
    RecView {
        tag: t.tag,
        size: t.size as nat,
        alignment: t.alignment as nat,
        shared: t.shared,
        elements: Seq::new(
            t.elements@.len(),
            |i: int|
                if 0 <= i < t.elements@.len() {
                    rec_view(t.elements@[i])
                } else {
                    arbitrary()
                },
        ),
    }
}

impl View for FfiType {
    type V = RecView;

    closed spec fn view(&self) -> RecView {
        rec_view(*self)
    }
}

/// A scalar record shape with no elements.
pub open spec fn prim_rec(tag: u16, size: nat, alignment: nat, shared: bool) -> RecView {
    RecView { tag, size, alignment, shared, elements: Seq::empty() }
}

/// The record a descriptor lowers to before preparation: primitives
/// reference the engine's static records with their final layout;
/// structure records start with size and alignment zero; extended
/// precision and complex records are owned per-use copies.
pub open spec fn lower_spec(t: TyView) -> RecView
    decreases t,
{
    match t {
        TyView::Void => prim_rec(type_tag::VOID, 1, 1, true),
        TyView::I8 => prim_rec(type_tag::SINT8, 1, 1, true),
        TyView::U8 => prim_rec(type_tag::UINT8, 1, 1, true),
        TyView::I16 => prim_rec(type_tag::SINT16, 2, 2, true),
        TyView::U16 => prim_rec(type_tag::UINT16, 2, 2, true),
        TyView::I32 => prim_rec(type_tag::SINT32, 4, 4, true),
        TyView::U32 => prim_rec(type_tag::UINT32, 4, 4, true),
        TyView::I64 => prim_rec(type_tag::SINT64, 8, 8, true),
        TyView::U64 => prim_rec(type_tag::UINT64, 8, 8, true),
        TyView::Isize => prim_rec(type_tag::SINT64, 8, 8, true),
        TyView::Usize => prim_rec(type_tag::UINT64, 8, 8, true),
        TyView::Pointer => prim_rec(type_tag::POINTER, 8, 8, true),
        TyView::F32 => prim_rec(type_tag::FLOAT, 4, 4, true),
        TyView::F64 => prim_rec(type_tag::DOUBLE, 8, 8, true),
        TyView::LongDouble => prim_rec(type_tag::LONGDOUBLE, 16, 16, false),
        TyView::ComplexFloat => RecView {
            tag: type_tag::COMPLEX,
            size: 8,
            alignment: 4,
            shared: false,
            elements: seq![prim_rec(type_tag::FLOAT, 4, 4, false)],
        },
        TyView::ComplexDouble => RecView {
            tag: type_tag::COMPLEX,
            size: 16,
            alignment: 8,
            shared: false,
            elements: seq![prim_rec(type_tag::DOUBLE, 8, 8, false)],
        },
        TyView::ComplexLongDouble => RecView {
            tag: type_tag::COMPLEX,
            size: 32,
            alignment: 16,
            shared: false,
            elements: seq![prim_rec(type_tag::LONGDOUBLE, 16, 16, false)],
        },
        TyView::Structure(fields) => RecView {
            tag: type_tag::STRUCT,
            size: 0,
            alignment: 0,
            shared: false,
            elements: Seq::new(
                fields.len(),
                |i: int|
                    if 0 <= i < fields.len() {
                        lower_spec(fields[i])
                    } else {
                        arbitrary()
                    },
            ),
        },
    }
}

/// Bounds every well-formed record obeys: the layout fields fit the
/// model's limits, recursively through the elements.
pub open spec fn rec_bounded(v: RecView) -> bool
    decreases v,
{
    &&& v.size <= MAX_TYPE_SIZE
    &&& v.alignment <= MAX_ALIGN
    &&& (forall|i: int| 0 <= i < v.elements.len() ==> rec_bounded(#[trigger] v.elements[i]))
}

/// Rounds `off` up to the next multiple of `align`.
pub open spec fn spec_round_up(off: nat, align: nat) -> nat {
    if align == 0 {
        off
    } else {
        ((off + align - 1) / (align as int)) as nat * align
    }
}

/// The running layout of the first `i` element records of a structure:
/// the end offset past the last laid-out field and the largest
/// alignment seen, or a bad-typedef error once the layout outgrows the
/// model's limit.
pub open spec fn spec_layout_fold(es: Seq<RecView>, i: int) -> Result<(nat, nat), Error>
    decreases i,
{
    if i <= 0 {
        Ok((0, 1))
    } else {
        match spec_layout_fold(es, i - 1) {
            Err(e) => Err(e),
            Ok((end, al)) => {
                let a = es[i - 1].alignment;
                let next = spec_round_up(end, a) + es[i - 1].size;
                if next > MAX_TYPE_SIZE {
                    Err(Error::Typedef)
                } else {
                    Ok((next, if al < a { a } else { al }))
                }
            },
        }
    }
}

/// The engine's layout pass over one record.  Scalars and complex
/// records already carry their layout and pass through unchanged.  A
/// structure must have at least one element; its elements are prepared
/// first, its fields are laid out in order at their alignments, and the
/// total is rounded up to the structure's own alignment.  An empty
/// structure, or a layout past the model's limit, is a bad type
/// definition.
pub open spec fn spec_prepare(v: RecView) -> Result<RecView, Error>
    decreases v,
{
    if v.tag != type_tag::STRUCT {
        Ok(v)
    } else if v.elements.len() == 0 {
        Err(Error::Typedef)
    } else {
        match spec_prepare_all(v.elements) {
            Err(e) => Err(e),
            Ok(es) => match spec_layout_fold(es, es.len() as int) {
                Err(e) => Err(e),
                Ok((end, al)) => {
                    let total = spec_round_up(end, al);
                    if total > MAX_TYPE_SIZE {
                        Err(Error::Typedef)
                    } else {
                        Ok(
                            RecView {
                                tag: type_tag::STRUCT,
                                size: total,
                                alignment: al,
                                shared: v.shared,
                                elements: es,
                            },
                        )
                    }
                },
            },
        }
    }
}

/// Prepares each record of a sequence in order, stopping at the first
/// error.
pub open spec fn spec_prepare_all(es: Seq<RecView>) -> Result<Seq<RecView>, Error>
    decreases es,
{
    if es.len() == 0 {
        Ok(Seq::empty())
    } else {
        match spec_prepare_all(es.drop_last()) {
            Err(e) => Err(e),
            Ok(rs) => match spec_prepare(es.last()) {
                Err(e) => Err(e),
                Ok(r) => Ok(rs.push(r)),
            },
        }
    }
}

impl FfiType {
    /// The record's type tag.
    pub fn tag(&self) -> (r: u16)
        ensures
            r == self@.tag,
    {
        self.tag
    }

    /// The record's size in bytes; zero on an unprepared structure.
    pub fn size(&self) -> (r: usize)
        ensures
            r == self@.size,
    {
        self.size
    }

    /// The record's alignment in bytes; zero on an unprepared
    /// structure.
    pub fn alignment(&self) -> (r: u16)
        ensures
            r == self@.alignment,
    {
        self.alignment
    }

    /// Whether the record references an engine-owned static descriptor.
    pub fn is_shared(&self) -> (r: bool)
        ensures
            r == self@.shared,
    {
        self.shared
    }

    /// How many element records the record owns; the engine sees one
    /// more slot holding the null terminator.
    pub fn num_elements(&self) -> (r: usize)
        ensures
            r == self@.elements.len(),
    {
        self.elements.len()
    }

    /// Borrows the `i`th element record.
    pub fn element(&self, i: usize) -> (r: &FfiType)
        requires
            i < self@.elements.len(),
        ensures
            r@ == self@.elements[i as int],
    {
        &self.elements[i]
    }

    /// A record for the `void` result type.
    pub fn void() -> (r: FfiType)
        ensures
            r@ == lower_spec(TyView::Void),
            rec_bounded(r@),
    {
        let r = FfiType { tag: type_tag::VOID, size: 1, alignment: 1, shared: true, elements: Vec::new() };
        proof {
            assert(r@.elements =~= Seq::<RecView>::empty());
        }
        r
    }

    /// Creates a record from a descriptor.
    ///
    /// Scalar descriptors reference the engine's static records, so no
    /// allocation is modeled and the record carries its final layout.
    /// Extended-precision and complex descriptors are cloned per use as
    /// an explicit thread-safety decision.  A structure allocates a new
    /// record per field, recursively, with size and alignment left for
    /// [`FfiType::prepare`] to fill in.
    #[verifier::loop_isolation(false)]
    pub fn new(ty: &Type) -> (r: FfiType)
        ensures
            r@ == lower_spec(ty@),
            rec_bounded(r@),
        decreases ty,
    {
        let r = match ty {
            Type::Void => Self::prim(type_tag::VOID, 1, 1, true),
            Type::I8 => Self::prim(type_tag::SINT8, 1, 1, true),
            Type::U8 => Self::prim(type_tag::UINT8, 1, 1, true),
            Type::I16 => Self::prim(type_tag::SINT16, 2, 2, true),
            Type::U16 => Self::prim(type_tag::UINT16, 2, 2, true),
            Type::I32 => Self::prim(type_tag::SINT32, 4, 4, true),
            Type::U32 => Self::prim(type_tag::UINT32, 4, 4, true),
            Type::I64 => Self::prim(type_tag::SINT64, 8, 8, true),
            Type::U64 => Self::prim(type_tag::UINT64, 8, 8, true),
            Type::Isize => Self::prim(type_tag::SINT64, 8, 8, true),
            Type::Usize => Self::prim(type_tag::UINT64, 8, 8, true),
            Type::Pointer => Self::prim(type_tag::POINTER, 8, 8, true),
            Type::F32 => Self::prim(type_tag::FLOAT, 4, 4, true),
            Type::F64 => Self::prim(type_tag::DOUBLE, 8, 8, true),
            Type::LongDouble => Self::prim(type_tag::LONGDOUBLE, 16, 16, false),
            Type::ComplexFloat => Self::complex(8, 4, Self::prim(type_tag::FLOAT, 4, 4, false)),
            Type::ComplexDouble => Self::complex(16, 8, Self::prim(type_tag::DOUBLE, 8, 8, false)),
            Type::ComplexLongDouble => Self::complex(
                32,
                16,
                Self::prim(type_tag::LONGDOUBLE, 16, 16, false),
            ),
            Type::Structure(fields) => {
                let mut elements: Vec<FfiType> = Vec::new();
                let mut i: usize = 0;
                while i < fields.len()
                    invariant
                        i <= fields@.len(),
                        elements@.len() == i,
                        forall|j: int|
                            0 <= j < i ==> elements@[j]@ == lower_spec(fields@[j]@),
                    decreases fields@.len() - i,
                {
                    proof {
                        assert(decreases_to!(ty => ty->Structure_0));
                        assert(decreases_to!(ty->Structure_0 => ty->Structure_0@));
                        assert(decreases_to!(ty->Structure_0@ => ty->Structure_0@[i as int]));
                        assert(decreases_to!(ty => fields@[i as int]));
                    }
                    elements.push(Self::new(&fields[i]));
                    i = i + 1;
                }
                let r = FfiType {
                    tag: type_tag::STRUCT,
                    size: 0,
                    alignment: 0,
                    shared: false,
                    elements,
                };
                proof {
                    assert(r@.elements =~= lower_spec(ty@).elements);
                }
                r
            },
        };
        proof {
            lemma_lower_bounded(ty@);
        }
        r
    }

    /// A record referencing (or copying) one of the engine's scalar
    /// descriptors.
    fn prim(tag: u16, size: usize, alignment: u16, shared: bool) -> (r: FfiType)
        ensures
            r@ == prim_rec(tag, size as nat, alignment as nat, shared),
    {
        let r = FfiType { tag, size, alignment, shared, elements: Vec::new() };
        proof {
            assert(r@.elements =~= Seq::<RecView>::empty());
        }
        r
    }

    /// An owned complex record over the given part record.
    fn complex(size: usize, alignment: u16, part: FfiType) -> (r: FfiType)
        ensures
            r@ == (RecView {
                tag: type_tag::COMPLEX,
                size: size as nat,
                alignment: alignment as nat,
                shared: false,
                elements: seq![part@],
            }),
    {
        let ghost part_view = part@;
        let mut elements: Vec<FfiType> = Vec::new();
        elements.push(part);
        let r = FfiType { tag: type_tag::COMPLEX, size, alignment, shared: false, elements };
        proof {
            assert(r@.elements =~= seq![part_view]);
        }
        r
    }
}

impl Clone for FfiType {
    /// Duplicates a record as the engine's ownership rules demand:
    /// element records are deep-cloned through nesting of any depth.  A
    /// shared scalar record owns no elements — see
    /// [`lemma_lower_shared_is_leaf`] — so duplicating it amounts to
    /// copying the reference to the engine's static descriptor.
    #[verifier::loop_isolation(false)]
    fn clone(&self) -> (r: Self)
        ensures
            r@ == self@,
        decreases self,
    {
        let mut elements: Vec<FfiType> = Vec::new();
        let mut i: usize = 0;
        while i < self.elements.len()
            invariant
                i <= self.elements@.len(),
                elements@.len() == i,
                forall|j: int| 0 <= j < i ==> elements@[j]@ == self@.elements[j],
            decreases self.elements@.len() - i,
        {
            proof {
                assert(decreases_to!(self => self.elements));
                assert(decreases_to!(self.elements => self.elements@));
                assert(decreases_to!(self.elements@ => self.elements@[i as int]));
                assert(decreases_to!(self => self.elements@[i as int]));
            }
            elements.push(self.elements[i].clone());
            i = i + 1;
        }
        let r = FfiType {
            tag: self.tag,
            size: self.size,
            alignment: self.alignment,
            shared: self.shared,
            elements,
        };
        proof {
            assert(r@.elements =~= self@.elements);
        }
        r
    }
}

/// A record with no shared elements below a certain point would break
/// the clone dispatch above; this invariant says a shared record has no
/// elements, so copying the reference copies the whole shape.
pub open spec fn shared_is_leaf(v: RecView) -> bool
    decreases v,
{
    &&& (v.shared ==> v.elements.len() == 0)
    &&& (forall|i: int| 0 <= i < v.elements.len() ==> shared_is_leaf(#[trigger] v.elements[i]))
}

/// Every lowered record keeps shared records as leaves.
pub proof fn lemma_lower_shared_is_leaf(t: TyView)
    ensures
        shared_is_leaf(lower_spec(t)),
    decreases t,
{
    match t {
        TyView::Structure(fields) => {
            assert forall|i: int| 0 <= i < lower_spec(t).elements.len() implies shared_is_leaf(
                #[trigger] lower_spec(t).elements[i],
            ) by {
                assert(decreases_to!(t => fields[i]));
                lemma_lower_shared_is_leaf(fields[i]);
            }
        },
        TyView::ComplexFloat => {
            assert(shared_is_leaf(prim_rec(type_tag::FLOAT, 4, 4, false)));
        },
        TyView::ComplexDouble => {
            assert(shared_is_leaf(prim_rec(type_tag::DOUBLE, 8, 8, false)));
        },
        TyView::ComplexLongDouble => {
            assert(shared_is_leaf(prim_rec(type_tag::LONGDOUBLE, 16, 16, false)));
        },
        _ => {},
    }
}

/// Every lowered record obeys the model's layout bounds.
pub proof fn lemma_lower_bounded(t: TyView)
    ensures
        rec_bounded(lower_spec(t)),
    decreases t,
{
    match t {
        TyView::Structure(fields) => {
            assert forall|i: int| 0 <= i < lower_spec(t).elements.len() implies rec_bounded(
                #[trigger] lower_spec(t).elements[i],
            ) by {
                assert(decreases_to!(t => fields[i]));
                lemma_lower_bounded(fields[i]);
            }
        },
        TyView::ComplexFloat => {
            assert(rec_bounded(prim_rec(type_tag::FLOAT, 4, 4, false)));
        },
        TyView::ComplexDouble => {
            assert(rec_bounded(prim_rec(type_tag::DOUBLE, 8, 8, false)));
        },
        TyView::ComplexLongDouble => {
            assert(rec_bounded(prim_rec(type_tag::LONGDOUBLE, 16, 16, false)));
        },
        _ => {},
    }
}

/// Rounds `off` up to a multiple of `align` without leaving the model's
/// arithmetic range.
fn round_up_to(off: usize, align: u16) -> (r: usize)
    requires
        1 <= align <= MAX_ALIGN,
        off <= MAX_TYPE_SIZE,
    ensures
        r == spec_round_up(off as nat, align as nat),
        off <= r <= off + align - 1,
{
    let a: usize = align as usize;
    let d: usize = off + a - 1;
    proof {
        lemma_fundamental_div_mod(d as int, a as int);
        lemma_mod_bound(d as int, a as int);
        assert(((d as int) / (a as int)) * (a as int) == d - ((d as int) % (a as int)));
    }
    let r: usize = (d / a) * a;
    proof {
        assert(r >= off) by {
            assert((d as int) - ((d as int) % (a as int)) >= (d as int) - ((a as int) - 1));
        }
    }
    r
}

impl FfiType {
    /// The engine's layout pass, modeled: checks the record and fills
    /// in the sizes and alignments of its structure records, returning
    /// the prepared record.  Fails with a bad-typedef error exactly on
    /// an empty structure anywhere in the tree or on a layout past the
    /// model's size limit.
    #[verifier::loop_isolation(false)]
    pub fn prepare(&self) -> (r: Result<FfiType, Error>)
        requires
            rec_bounded(self@),
        ensures
            r matches Ok(p) ==> spec_prepare(self@) == Ok::<RecView, Error>(p@) && rec_bounded(
                p@,
            ),
            r matches Err(e) ==> spec_prepare(self@) == Err::<RecView, Error>(e),
        decreases self,
    {
        if self.tag != type_tag::STRUCT {
            return Ok(self.clone());
        }
        if self.elements.len() == 0 {
            return Err(Error::Typedef);
        }
        let mut prepped: Vec<FfiType> = Vec::new();
        proof {
            assert(self@.elements.subrange(0, 0) =~= Seq::<RecView>::empty());
            assert(Seq::new(prepped@.len(), |j: int| prepped@[j]@) =~= Seq::<RecView>::empty());
        }
        let mut i: usize = 0;
        while i < self.elements.len()
            invariant
                i <= self.elements@.len(),
                prepped@.len() == i,
                spec_prepare_all(self@.elements.subrange(0, i as int)) == Ok::<
                    Seq<RecView>,
                    Error,
                >(Seq::new(prepped@.len(), |j: int| prepped@[j]@)),
                forall|j: int| 0 <= j < i ==> rec_bounded(#[trigger] prepped@[j]@),
            decreases self.elements@.len() - i,
        {
            proof {
                assert(decreases_to!(self => self.elements));
                assert(decreases_to!(self.elements => self.elements@));
                assert(decreases_to!(self.elements@ => self.elements@[i as int]));
                assert(decreases_to!(self => self.elements@[i as int]));
                assert(rec_bounded(self@.elements[i as int]));
            }
            let e = self.elements[i].prepare();
            match e {
                Err(err) => {
                    proof {
                        lemma_prepare_all_err(self@.elements, i as int, err);
                    }
                    return Err(err);
                },
                Ok(p) => {
                    proof {
                        lemma_prepare_bounded(self@.elements[i as int]);
                        assert(self@.elements.subrange(0, i + 1).drop_last() =~= self@.elements.subrange(
                            0,
                            i as int,
                        ));
                        assert(self@.elements.subrange(0, i + 1).last() == self@.elements[i as int]);
                    }
                    let ghost old_prepped = Seq::new(prepped@.len(), |j: int| prepped@[j]@);
                    prepped.push(p);
                    proof {
                        assert(Seq::new(prepped@.len(), |j: int| prepped@[j]@) =~= old_prepped.push(
                            prepped@[i as int]@,
                        ));
                    }
                    i = i + 1;
                },
            }
        }
        proof {
            assert(self@.elements.subrange(0, self@.elements.len() as int) =~= self@.elements);
        }
        let ghost es = Seq::new(prepped@.len(), |j: int| prepped@[j]@);
        let mut end: usize = 0;
        let mut align: u16 = 1;
        let mut k: usize = 0;
        while k < prepped.len()
            invariant
                k <= prepped@.len(),
                prepped@.len() == self.elements@.len(),
                es == Seq::new(prepped@.len(), |j: int| prepped@[j]@),
                forall|j: int| 0 <= j < prepped@.len() ==> rec_bounded(#[trigger] prepped@[j]@),
                spec_layout_fold(es, k as int) == Ok::<(nat, nat), Error>(
                    (end as nat, align as nat),
                ),
                end <= MAX_TYPE_SIZE,
                1 <= align <= MAX_ALIGN,
            decreases prepped@.len() - k,
        {
            let a: u16 = prepped[k].alignment;
            let sz: usize = prepped[k].size;
            proof {
                assert(rec_bounded(prepped@[k as int]@));
            }
            let rounded: usize = if a == 0 {
                end
            } else {
                round_up_to(end, a)
            };
            let next: usize = rounded + sz;
            if next > MAX_TYPE_SIZE {
                proof {
                    assert(spec_layout_fold(es, k + 1) == Err::<(nat, nat), Error>(Error::Typedef));
                    lemma_layout_fold_err(es, k + 1, es.len() as int);
                }
                return Err(Error::Typedef);
            }
            end = next;
            if align < a {
                align = a;
            }
            k = k + 1;
        }
        let total: usize = round_up_to(end, align);
        if total > MAX_TYPE_SIZE {
            return Err(Error::Typedef);
        }
        let r = FfiType {
            tag: type_tag::STRUCT,
            size: total,
            alignment: align,
            shared: self.shared,
            elements: prepped,
        };
        proof {
            assert(r@.elements =~= es);
        }
        Ok(r)
    }
}

/// Once the layout fold has failed it stays failed for every longer
/// prefix.
proof fn lemma_layout_fold_err(es: Seq<RecView>, k: int, n: int)
    requires
        0 <= k <= n,
        spec_layout_fold(es, k) is Err,
    ensures
        spec_layout_fold(es, n) == spec_layout_fold(es, k),
    decreases n - k,
{
    if n > k {
        lemma_layout_fold_err(es, k, n - 1);
    }
}

/// If preparing the `i`th record of `es` fails with `err` while all
/// earlier ones succeed, preparing the whole sequence fails with `err`.
pub(crate) proof fn lemma_prepare_all_err(es: Seq<RecView>, i: int, err: Error)
    requires
        0 <= i < es.len(),
        spec_prepare_all(es.subrange(0, i)) is Ok,
        spec_prepare(es[i]) == Err::<RecView, Error>(err),
    ensures
        spec_prepare_all(es) == Err::<Seq<RecView>, Error>(err),
{
    lemma_prepare_all_err_from(es, es.len() as int, i, err);
    assert(es.subrange(0, es.len() as int) =~= es);
}

/// Helper for [`lemma_prepare_all_err`], inducting down from `n`.
proof fn lemma_prepare_all_err_from(es: Seq<RecView>, n: int, i: int, err: Error)
    requires
        0 <= i < n <= es.len(),
        spec_prepare_all(es.subrange(0, i)) is Ok,
        spec_prepare(es[i]) == Err::<RecView, Error>(err),
    ensures
        spec_prepare_all(es.subrange(0, n)) == Err::<Seq<RecView>, Error>(err),
    decreases n,
{
    let pre = es.subrange(0, n);
    assert(pre.drop_last() =~= es.subrange(0, n - 1));
    if i == n - 1 {
        assert(pre.last() == es[i]);
    } else {
        lemma_prepare_all_err_from(es, n - 1, i, err);
    }
}

/// A prepared record stays within the model's layout bounds.
pub proof fn lemma_prepare_bounded(v: RecView)
    requires
        rec_bounded(v),
        spec_prepare(v) is Ok,
    ensures
        rec_bounded(spec_prepare(v)->Ok_0),
    decreases v,
{
    if v.tag != type_tag::STRUCT {
    } else {
        let es = spec_prepare_all(v.elements)->Ok_0;
        lemma_prepare_all_bounded(v.elements);
        lemma_layout_fold_bounds(es, es.len() as int);
    }
}

/// Every record of a successfully prepared sequence stays within the
/// model's layout bounds.
proof fn lemma_prepare_all_bounded(es: Seq<RecView>)
    requires
        forall|i: int| 0 <= i < es.len() ==> rec_bounded(#[trigger] es[i]),
        spec_prepare_all(es) is Ok,
    ensures
        spec_prepare_all(es)->Ok_0.len() == es.len(),
        forall|i: int|
            0 <= i < es.len() ==> rec_bounded(#[trigger] spec_prepare_all(es)->Ok_0[i]),
    decreases es,
{
    if es.len() == 0 {
    } else {
        lemma_prepare_all_bounded(es.drop_last());
        lemma_prepare_bounded(es.last());
        let rs = spec_prepare_all(es.drop_last())->Ok_0;
        assert(spec_prepare_all(es)->Ok_0 =~= rs.push(spec_prepare(es.last())->Ok_0));
    }
}

/// A successful layout fold keeps its end offset within the size limit
/// and its alignment between one and the largest alignment.
proof fn lemma_layout_fold_bounds(es: Seq<RecView>, i: int)
    requires
        forall|j: int| 0 <= j < es.len() ==> rec_bounded(#[trigger] es[j]),
        0 <= i <= es.len(),
        spec_layout_fold(es, i) is Ok,
    ensures
        spec_layout_fold(es, i)->Ok_0.0 <= MAX_TYPE_SIZE,
        1 <= spec_layout_fold(es, i)->Ok_0.1 <= MAX_ALIGN,
    decreases i,
{
    if i > 0 {
        lemma_layout_fold_bounds(es, i - 1);
    }
}


/// The views of a sequence of records, element by element.
pub open spec fn views_of_records(s: Seq<FfiType>) -> Seq<RecView> {
    Seq::new(s.len(), |i: int| s[i]@)
}

/// An owned array of descriptor records, used as the argument-type
/// array of a prepared call interface.  The engine sees one more slot
/// holding the null terminator.
#[derive(Debug, PartialEq, Eq)]
pub struct FfiTypeArray {
    elems: Vec<FfiType>,
}

impl View for FfiTypeArray {
    type V = Seq<RecView>;

    closed spec fn view(&self) -> Seq<RecView> {
        views_of_records(self.elems@)
    }
}

impl FfiTypeArray {
    /// Builds the array from the given records, taking ownership of
    /// each.
    pub fn new(types: Vec<FfiType>) -> (r: FfiTypeArray)
        ensures
            r@ == views_of_records(types@),
    {
        FfiTypeArray { elems: types }
    }

    /// The number of records in the array.
    pub fn len(&self) -> (r: usize)
        ensures
            r == self@.len(),
    {
        self.elems.len()
    }

    /// Borrows the `i`th record of the array.
    pub fn element(&self, i: usize) -> (r: &FfiType)
        requires
            i < self@.len(),
        ensures
            r@ == self@[i as int],
    {
        &self.elems[i]
    }
}

impl Clone for FfiTypeArray {
    /// Duplicates the array, cloning every record under the engine's
    /// ownership rules.
    fn clone(&self) -> (r: Self)
        ensures
            r@ == self@,
    {
        let mut elems: Vec<FfiType> = Vec::new();
        let mut i: usize = 0;
        while i < self.elems.len()
            invariant
                i <= self.elems@.len(),
                elems@.len() == i,
                forall|j: int| 0 <= j < i ==> elems@[j]@ == self.elems@[j]@,
            decreases self.elems@.len() - i,
        {
            elems.push(self.elems[i].clone());
            i = i + 1;
        }
        let r = FfiTypeArray { elems };
        proof {
            assert(r@ =~= self@);
        }
        r
    }
}


/// Two records have the same shape when their tags agree at every
/// level of nesting.
pub open spec fn same_shape(a: RecView, b: RecView) -> bool
    decreases a,
{
    &&& a.tag == b.tag
    &&& a.elements.len() == b.elements.len()
    &&& (forall|i: int|
        0 <= i < a.elements.len() ==> same_shape(#[trigger] a.elements[i], b.elements[i]))
}

/// Every record has its own shape.
pub proof fn lemma_same_shape_refl(v: RecView)
    ensures
        same_shape(v, v),
    decreases v,
{
    assert forall|i: int| 0 <= i < v.elements.len() implies same_shape(
        #[trigger] v.elements[i],
        v.elements[i],
    ) by {
        lemma_same_shape_refl(v.elements[i]);
    }
}

/// The layout pass only fills in sizes and alignments: a prepared
/// record reports the same tags as the record it was prepared from, at
/// every level of nesting.
pub proof fn lemma_prepare_keeps_shape(v: RecView)
    requires
        spec_prepare(v) is Ok,
    ensures
        same_shape(spec_prepare(v)->Ok_0, v),
    decreases v,
{
    if v.tag != type_tag::STRUCT {
        lemma_same_shape_refl(v);
    } else {
        let es = spec_prepare_all(v.elements)->Ok_0;
        lemma_prepare_all_keeps_shape(v.elements);
        let p = spec_prepare(v)->Ok_0;
        assert forall|i: int| 0 <= i < p.elements.len() implies same_shape(
            #[trigger] p.elements[i],
            v.elements[i],
        ) by {
        }
    }
}

/// Preparing a sequence of records keeps each record's shape.
proof fn lemma_prepare_all_keeps_shape(es: Seq<RecView>)
    requires
        spec_prepare_all(es) is Ok,
    ensures
        spec_prepare_all(es)->Ok_0.len() == es.len(),
        forall|i: int|
            0 <= i < es.len() ==> same_shape(
                #[trigger] spec_prepare_all(es)->Ok_0[i],
                es[i],
            ),
    decreases es,
{
    if es.len() == 0 {
    } else {
        lemma_prepare_all_keeps_shape(es.drop_last());
        lemma_prepare_keeps_shape(es.last());
        let rs = spec_prepare_all(es.drop_last())->Ok_0;
        assert(spec_prepare_all(es)->Ok_0 =~= rs.push(spec_prepare(es.last())->Ok_0));
    }
}

/// The layout pass reports only the bad-typedef error: whatever goes
/// wrong while preparing a record is a bad type definition, never a
/// bad ABI.
pub proof fn lemma_prepare_err_kind(v: RecView)
    ensures
        spec_prepare(v) is Err ==> spec_prepare(v) == Err::<RecView, Error>(Error::Typedef),
    decreases v,
{
    if v.tag == type_tag::STRUCT && v.elements.len() > 0 {
        lemma_prepare_all_err_kind(v.elements);
        lemma_layout_fold_err_kind(v.elements, v.elements.len() as int);
        if spec_prepare_all(v.elements) is Ok {
            let es = spec_prepare_all(v.elements)->Ok_0;
            lemma_layout_fold_err_kind(es, es.len() as int);
        }
    }
}

/// Preparing a sequence of records reports only the bad-typedef error.
pub proof fn lemma_prepare_all_err_kind(es: Seq<RecView>)
    ensures
        spec_prepare_all(es) is Err ==> spec_prepare_all(es) == Err::<Seq<RecView>, Error>(
            Error::Typedef,
        ),
    decreases es,
{
    if es.len() > 0 {
        lemma_prepare_all_err_kind(es.drop_last());
        lemma_prepare_err_kind(es.last());
    }
}

/// The layout fold reports only the bad-typedef error.
proof fn lemma_layout_fold_err_kind(es: Seq<RecView>, i: int)
    ensures
        spec_layout_fold(es, i) is Err ==> spec_layout_fold(es, i) == Err::<(nat, nat), Error>(
            Error::Typedef,
        ),
    decreases i,
{
    if i > 0 {
        lemma_layout_fold_err_kind(es, i - 1);
    }
}

} // verus!
