//! The memory-layout algebra: size, alignment and member offsets for every
//! type shape, under a 32-bit, naturally aligned, little-endian memory model.
use vstd::prelude::*;

use crate::ast::{cases_dv, lemma_cases_dv, lemma_members_dv, members_dv, BuiltinType, CaseV,
    IntRepr, MemberV, RecordDatatype, RecordKind, RecordV, Type, TypeRef, TypeRefV, TypeV, Variant,
    VariantV};

verus! {

/// Smallest multiple of `alignment` that is at least `offs`.
pub open spec fn spec_align_to(offs: nat, alignment: nat) -> nat
    recommends
        alignment > 0,
{
    (alignment * ((offs + alignment - 1) / alignment as int)) as nat
}

/// If the next free byte in an aggregate is `offs`, and the next member has
/// alignment `alignment`, the member is placed at the next multiple of
/// `alignment` at or after `offs`.
pub fn align_to(offs: usize, alignment: usize) -> (r: usize)
    requires
        0 < alignment <= 8,
        offs + alignment <= usize::MAX,
    ensures
        r == spec_align_to(offs as nat, alignment as nat),
        r >= offs,
        r % alignment == 0,
        r < offs + alignment,
{
    let r = offs + alignment - 1 - ((offs + alignment - 1) % alignment);
    proof {
        let o = offs as int;
        let a = alignment as int;
        let m = o + a - 1;
        assert(m - m % a == a * (m / a)) by {
            vstd::arithmetic::div_mod::lemma_fundamental_div_mod(m, a);
        }
        assert(r == spec_align_to(offs as nat, alignment as nat));
        assert(r % alignment == 0) by {
            vstd::arithmetic::div_mod::lemma_mod_multiples_basic(m / a, a);
            assert(a * (m / a) == m / a * a) by (nonlinear_arith);
        }
        assert(r >= offs && r < offs + alignment) by {
            vstd::arithmetic::div_mod::lemma_mod_bound(m, a);
        }
    }
    r
}

/// Rounding up never moves below the start, and an aligned offset stays put.
pub proof fn lemma_align_up_ge(offs: nat, alignment: nat)
    requires
        alignment >= 1,
    ensures
        spec_align_to(offs, alignment) >= offs,
        spec_align_to(offs, alignment) < offs + alignment,
        spec_align_to(offs, alignment) % alignment == 0,
        offs % alignment == 0 ==> spec_align_to(offs, alignment) == offs,
{
    let a = alignment as int;
    let m = offs + a - 1;
    vstd::arithmetic::div_mod::lemma_fundamental_div_mod(m, a);
    vstd::arithmetic::div_mod::lemma_mod_bound(m, a);
    assert(a * (m / a) == m - m % a);
    assert(spec_align_to(offs, alignment) % alignment == 0) by {
        vstd::arithmetic::div_mod::lemma_mod_multiples_basic(m / a, a);
        assert(a * (m / a) == m / a * a) by (nonlinear_arith);
    }
    if offs % alignment == 0 {
        vstd::arithmetic::div_mod::lemma_fundamental_div_mod(offs as int, a);
        vstd::arithmetic::div_mod::lemma_mod_bound(offs as int, a);
        let q = offs as int / a;
        assert(offs == a * q);
        assert(m == a * q + (a - 1));
        assert(m / a == q) by {
            vstd::arithmetic::div_mod::lemma_div_multiples_vanish_fancy(q, a - 1, a);
        }
    }
}

pub open spec fn nmax(a: nat, b: nat) -> nat {
    if a >= b {
        a
    } else {
        b
    }
}

/// An upper bound on the size of any type a document may lay out; keeps every
/// intermediate offset computation within machine range.
pub open spec fn max_type_size() -> nat {
    0xFFFF_FF00
}

// ---------------------------------------------------------------------------
// Size and alignment of every shape
// ---------------------------------------------------------------------------

/// Builtins occupy their natural width and are naturally aligned.
pub open spec fn builtin_mem_size(b: BuiltinType) -> nat {
    match b {
        BuiltinType::U8 | BuiltinType::Char8 | BuiltinType::S8 => 1,
        BuiltinType::U16 | BuiltinType::S16 => 2,
        BuiltinType::U32 | BuiltinType::Usize | BuiltinType::S32 | BuiltinType::Char
            | BuiltinType::F32 => 4,
        BuiltinType::U64 | BuiltinType::S64 | BuiltinType::F64 => 8,
    }
}

pub open spec fn intrepr_mem_size(r: IntRepr) -> nat {
    match r {
        IntRepr::U8 => 1,
        IntRepr::U16 => 2,
        IntRepr::U32 => 4,
        IntRepr::U64 => 8,
    }
}

/// The packed width of a bitflags record with `n` members: the smallest
/// power-of-two byte count holding `n` bits.
pub open spec fn bitflags_repr_of(n: nat) -> IntRepr {
    if n <= 8 {
        IntRepr::U8
    } else if n <= 16 {
        IntRepr::U16
    } else if n <= 32 {
        IntRepr::U32
    } else {
        IntRepr::U64
    }
}

// Alignment is independent of size, so it forms its own recursion.

pub open spec fn tref_align(t: TypeRefV) -> nat
    decreases t,
{
    match t {
        TypeRefV::Name(nt) => tref_align(nt.tref),
        TypeRefV::Value(ty) => type_align(*ty),
    }
}

pub open spec fn type_align(t: TypeV) -> nat
    decreases t,
{
    match t {
        TypeV::Record(r) => record_align(r),
        TypeV::Variant(v) => variant_align(v),
        TypeV::Handle => 4,
        TypeV::List(_) => 4,
        TypeV::Pointer(_) => 4,
        TypeV::ConstPointer(_) => 4,
        TypeV::Builtin(b) => builtin_mem_size(b),
    }
}

pub open spec fn record_align(r: RecordV) -> nat
    decreases r,
{
    if r.kind is Bitflags {
        intrepr_mem_size(bitflags_repr_of(r.members.len()))
    } else {
        members_align(r.members)
    }
}

/// Alignment of a plain record: the maximum member alignment.
pub open spec fn members_align(ms: Seq<MemberV>) -> nat
    decreases ms,
{
    if ms.len() == 0 {
        0
    } else {
        nmax(members_align(ms.drop_last()), tref_align(ms.last().tref))
    }
}

pub open spec fn variant_align(v: VariantV) -> nat
    decreases v,
{
    cases_align(v.tag_repr, v.cases)
}

pub open spec fn case_align(tag: IntRepr, c: CaseV) -> nat
    decreases c,
{
    match c.tref {
        Some(p) => nmax(intrepr_mem_size(tag), tref_align(p)),
        None => intrepr_mem_size(tag),
    }
}

/// Alignment of a variant: the maximum over its cases of the tag alignment
/// joined with the case's payload alignment.
pub open spec fn cases_align(tag: IntRepr, cs: Seq<CaseV>) -> nat
    decreases cs,
{
    if cs.len() == 0 {
        0
    } else {
        nmax(cases_align(tag, cs.drop_last()), case_align(tag, cs.last()))
    }
}

// Sizes.

pub open spec fn tref_size(t: TypeRefV) -> nat
    decreases t,
{
    match t {
        TypeRefV::Name(nt) => tref_size(nt.tref),
        TypeRefV::Value(ty) => type_size(*ty),
    }
}

pub open spec fn type_size(t: TypeV) -> nat
    decreases t,
{
    match t {
        TypeV::Record(r) => record_size(r),
        TypeV::Variant(v) => variant_size(v),
        TypeV::Handle => 4,
        TypeV::List(_) => 8,  // pointer and length, 4 bytes each
        TypeV::Pointer(_) => 4,
        TypeV::ConstPointer(_) => 4,
        TypeV::Builtin(b) => builtin_mem_size(b),
    }
}

/// End of the last member's region: each member starts at the previous end
/// rounded up to its own alignment.
pub open spec fn members_end(ms: Seq<MemberV>) -> nat
    decreases ms,
{
    if ms.len() == 0 {
        0
    } else {
        spec_align_to(members_end(ms.drop_last()), tref_align(ms.last().tref)) + tref_size(
            ms.last().tref,
        )
    }
}

/// Size of a plain record: the end of the last member's region, rounded up to
/// the record's alignment. A bitflags record collapses to one packed integer.
pub open spec fn record_size(r: RecordV) -> nat
    decreases r,
{
    if r.kind is Bitflags {
        intrepr_mem_size(bitflags_repr_of(r.members.len()))
    } else {
        spec_align_to(members_end(r.members), members_align(r.members))
    }
}

/// Byte offset of member `i` of a plain record.
pub open spec fn member_offset(ms: Seq<MemberV>, i: int) -> nat
    recommends
        0 <= i < ms.len(),
{
    spec_align_to(members_end(ms.take(i)), tref_align(ms[i].tref))
}

/// The payload of a case sits at the tag width rounded up to the payload's
/// alignment; a case without payload occupies the tag alone.
pub open spec fn payload_offset(tag: IntRepr, p: TypeRefV) -> nat {
    spec_align_to(intrepr_mem_size(tag), tref_align(p))
}

pub open spec fn case_end(tag: IntRepr, c: CaseV) -> nat
    decreases c,
{
    match c.tref {
        Some(p) => payload_offset(tag, p) + tref_size(p),
        None => intrepr_mem_size(tag),
    }
}

pub open spec fn cases_end(tag: IntRepr, cs: Seq<CaseV>) -> nat
    decreases cs,
{
    if cs.len() == 0 {
        0
    } else {
        nmax(cases_end(tag, cs.drop_last()), case_end(tag, cs.last()))
    }
}

/// Size of a variant: the furthest case end, rounded up to the variant's
/// alignment. For an enum this is exactly the tag width.
pub open spec fn variant_size(v: VariantV) -> nat
    decreases v,
{
    spec_align_to(cases_end(v.tag_repr, v.cases), cases_align(v.tag_repr, v.cases))
}

/// The width of a type's scalar encoding, where one exists: every shape but a
/// plain record and a payload-carrying variant is stored as one fixed-width
/// integer.
pub open spec fn scalar_size(t: TypeV) -> Option<nat> {
    match t {
        TypeV::Record(r) => if r.kind is Bitflags {
            Some(intrepr_mem_size(bitflags_repr_of(r.members.len())))
        } else {
            None
        },
        TypeV::Variant(v) => if v.is_enum() {
            Some(intrepr_mem_size(v.tag_repr))
        } else {
            None
        },
        TypeV::Handle => Some(4),
        TypeV::List(_) => Some(8),
        TypeV::Pointer(_) => Some(4),
        TypeV::ConstPointer(_) => Some(4),
        TypeV::Builtin(b) => Some(builtin_mem_size(b)),
    }
}

// ---------------------------------------------------------------------------
// Which shapes have a layout at all
// ---------------------------------------------------------------------------

/// A shape the layout algebra is defined on: aggregates are non-empty, packed
/// flag sets fit their widest integer, and the total size stays within range.
pub open spec fn layout_ok_tref(t: TypeRefV) -> bool
    decreases t,
{
    match t {
        TypeRefV::Name(nt) => layout_ok_tref(nt.tref),
        TypeRefV::Value(ty) => layout_ok_type(*ty),
    }
}

pub open spec fn layout_ok_type(t: TypeV) -> bool
    decreases t,
{
    &&& match t {
        TypeV::Record(r) => if r.kind is Bitflags {
            r.members.len() <= 64
        } else {
            r.members.len() >= 1 && (forall|i: int|
                0 <= i < r.members.len() ==> layout_ok_tref(#[trigger] r.members[i].tref))
        },
        TypeV::Variant(v) => v.cases.len() >= 1 && (forall|i: int|
            0 <= i < v.cases.len() ==> match (#[trigger] v.cases[i]).tref {
                Some(p) => layout_ok_tref(p),
                None => true,
            }),
        TypeV::List(e) => layout_ok_tref(*e),
        _ => true,
    }
    &&& type_size(t) <= max_type_size()
}

/// A well-laid-out shape's size is within range.
pub proof fn lemma_tref_size_bound(t: TypeRefV)
    requires
        layout_ok_tref(t),
    ensures
        tref_size(t) <= max_type_size(),
    decreases t,
{
    match t {
        TypeRefV::Name(nt) => {
            lemma_tref_size_bound(nt.tref);
            assert(tref_size(t) == tref_size(nt.tref));
        },
        TypeRefV::Value(ty) => {
            assert(layout_ok_type(*ty));
            assert(tref_size(t) == type_size(*ty));
        },
    }
}

/// Every well-laid-out shape has an alignment between 1 and 8.
pub proof fn lemma_align_range_tref(t: TypeRefV)
    requires
        layout_ok_tref(t),
    ensures
        1 <= tref_align(t) <= 8,
    decreases t,
{
    match t {
        TypeRefV::Name(nt) => lemma_align_range_tref(nt.tref),
        TypeRefV::Value(ty) => lemma_align_range_type(*ty),
    }
}

pub proof fn lemma_members_align_range(ms: Seq<MemberV>)
    requires
        ms.len() >= 1,
        forall|i: int| 0 <= i < ms.len() ==> layout_ok_tref(#[trigger] ms[i].tref),
    ensures
        1 <= members_align(ms) <= 8,
    decreases ms,
{
    assert(ms.last() == ms[ms.len() - 1]);
    lemma_align_range_tref(ms.last().tref);
    if ms.len() > 1 {
        assert(forall|i: int|
            0 <= i < ms.drop_last().len() ==> ms.drop_last()[i] == ms[i]);
        lemma_members_align_range(ms.drop_last());
    }
}

pub proof fn lemma_cases_align_range(tag: IntRepr, cs: Seq<CaseV>)
    requires
        cs.len() >= 1,
        forall|i: int|
            0 <= i < cs.len() ==> match (#[trigger] cs[i]).tref {
                Some(p) => layout_ok_tref(p),
                None => true,
            },
    ensures
        1 <= cases_align(tag, cs) <= 8,
    decreases cs,
{
    assert(cs.last() == cs[cs.len() - 1]);
    match cs.last().tref {
        Some(p) => lemma_align_range_tref(p),
        None => {},
    }
    assert(1 <= case_align(tag, cs.last()) <= 8);
    if cs.len() > 1 {
        assert(forall|i: int| 0 <= i < cs.drop_last().len() ==> cs.drop_last()[i] == cs[i]);
        lemma_cases_align_range(tag, cs.drop_last());
        assert(cases_align(tag, cs) == nmax(cases_align(tag, cs.drop_last()), case_align(tag, cs.last())));
    } else {
        assert(cases_align(tag, cs) == nmax(cases_align(tag, cs.drop_last()), case_align(tag, cs.last())));
        assert(cs.drop_last().len() == 0);
        assert(cases_align(tag, cs.drop_last()) == 0);
    }
}

pub proof fn lemma_align_range_type(t: TypeV)
    requires
        layout_ok_type(t),
    ensures
        1 <= type_align(t) <= 8,
    decreases t,
{
    match t {
        TypeV::Record(r) => {
            if !(r.kind is Bitflags) {
                lemma_members_align_range(r.members);
            }
        },
        TypeV::Variant(v) => {
            lemma_cases_align_range(v.tag_repr, v.cases);
        },
        _ => {},
    }
}

} // verus!

verus! {

// ---------------------------------------------------------------------------
// Prefix lemmas: how the fold over members/cases grows step by step
// ---------------------------------------------------------------------------

/// One step of the member fold: adding member `i` places it at the previous
/// end rounded to its alignment.
pub proof fn lemma_members_end_step(ms: Seq<MemberV>, i: int)
    requires
        0 <= i < ms.len(),
    ensures
        members_end(ms.take(i + 1)) == spec_align_to(
            members_end(ms.take(i)),
            tref_align(ms[i].tref),
        ) + tref_size(ms[i].tref),
        members_align(ms.take(i + 1)) == nmax(
            members_align(ms.take(i)),
            tref_align(ms[i].tref),
        ),
{
    let p = ms.take(i + 1);
    assert(p.drop_last() =~= ms.take(i));
    assert(p.last() == ms[i]);
}

pub proof fn lemma_cases_end_step(tag: IntRepr, cs: Seq<CaseV>, i: int)
    requires
        0 <= i < cs.len(),
    ensures
        cases_end(tag, cs.take(i + 1)) == nmax(cases_end(tag, cs.take(i)), case_end(tag, cs[i])),
        cases_align(tag, cs.take(i + 1)) == nmax(
            cases_align(tag, cs.take(i)),
            case_align(tag, cs[i]),
        ),
{
    let p = cs.take(i + 1);
    assert(p.drop_last() =~= cs.take(i));
    assert(p.last() == cs[i]);
}

/// The member fold is monotone: every prefix ends at or before the whole.
pub proof fn lemma_members_end_prefix(ms: Seq<MemberV>, j: int)
    requires
        0 <= j <= ms.len(),
        forall|i: int| 0 <= i < ms.len() ==> layout_ok_tref(#[trigger] ms[i].tref),
    ensures
        members_end(ms.take(j)) <= members_end(ms),
        members_align(ms.take(j)) <= members_align(ms),
    decreases ms.len() - j,
{
    if j == ms.len() {
        assert(ms.take(j) =~= ms);
    } else {
        lemma_members_end_step(ms, j);
        lemma_align_range_tref(ms[j].tref);
        lemma_align_up_ge(members_end(ms.take(j)), tref_align(ms[j].tref));
        lemma_members_end_prefix(ms, j + 1);
    }
}

pub proof fn lemma_cases_end_prefix(tag: IntRepr, cs: Seq<CaseV>, j: int)
    requires
        0 <= j <= cs.len(),
    ensures
        cases_end(tag, cs.take(j)) <= cases_end(tag, cs),
        cases_align(tag, cs.take(j)) <= cases_align(tag, cs),
    decreases cs.len() - j,
{
    if j == cs.len() {
        assert(cs.take(j) =~= cs);
    } else {
        lemma_cases_end_step(tag, cs, j);
        lemma_cases_end_prefix(tag, cs, j + 1);
    }
}

// ---------------------------------------------------------------------------
// Executable layout
// ---------------------------------------------------------------------------

impl IntRepr {
    pub fn mem_size(&self) -> (s: usize)
        ensures
            s == intrepr_mem_size(*self),
    {
        match self {
            IntRepr::U8 => 1,
            IntRepr::U16 => 2,
            IntRepr::U32 => 4,
            IntRepr::U64 => 8,
        }
    }
}

impl BuiltinType {
    pub fn mem_size(&self) -> (s: usize)
        ensures
            s == builtin_mem_size(*self),
    {
        match self {
            BuiltinType::U8 | BuiltinType::Char8 | BuiltinType::S8 => 1,
            BuiltinType::U16 | BuiltinType::S16 => 2,
            BuiltinType::U32 | BuiltinType::Usize | BuiltinType::S32 | BuiltinType::Char
                | BuiltinType::F32 => 4,
            BuiltinType::U64 | BuiltinType::S64 | BuiltinType::F64 => 8,
        }
    }
}

/// The packed representation of a bitflags record with `n` members.
pub fn bitflags_repr_for(n: usize) -> (r: IntRepr)
    ensures
        r == bitflags_repr_of(n as nat),
{
    if n <= 8 {
        IntRepr::U8
    } else if n <= 16 {
        IntRepr::U16
    } else if n <= 32 {
        IntRepr::U32
    } else {
        IntRepr::U64
    }
}

impl TypeRef {
    /// Size and alignment of the referenced type.
    pub fn mem_size_align(&self) -> (r: (usize, usize))
        requires
            layout_ok_tref(self.dv()),
        ensures
            r.0 == tref_size(self.dv()),
            r.1 == tref_align(self.dv()),
        decreases self,
    {
        match self {
            TypeRef::Name(nt) => nt.tref.mem_size_align(),
            TypeRef::Value(t) => t.mem_size_align(),
        }
    }

    pub fn mem_size(&self) -> (s: usize)
        requires
            layout_ok_tref(self.dv()),
        ensures
            s == tref_size(self.dv()),
    {
        self.mem_size_align().0
    }

    pub fn mem_align(&self) -> (a: usize)
        requires
            layout_ok_tref(self.dv()),
        ensures
            a == tref_align(self.dv()),
    {
        self.mem_size_align().1
    }
}

impl Type {
    pub fn mem_size_align(&self) -> (r: (usize, usize))
        requires
            layout_ok_type(self.dv()),
        ensures
            r.0 == type_size(self.dv()),
            r.1 == type_align(self.dv()),
        decreases self,
    {
        match self {
            Type::Record(r) => r.mem_size_align(),
            Type::Variant(v) => v.mem_size_align(),
            Type::Handle => (4, 4),
            Type::List(_) => (8, 4),
            Type::Pointer(_) => (4, 4),
            Type::ConstPointer(_) => (4, 4),
            Type::Builtin(b) => {
                let s = b.mem_size();
                (s, s)
            },
        }
    }
}

impl RecordDatatype {
    pub fn mem_size_align(&self) -> (r: (usize, usize))
        requires
            layout_ok_type(TypeV::Record(self.dv())),
        ensures
            r.0 == record_size(self.dv()),
            r.1 == record_align(self.dv()),
        decreases self,
    {
        proof {
            lemma_members_dv(self.members@);
        }
        if matches!(self.kind, RecordKind::Bitflags) {
            let s = bitflags_repr_for(self.members.len()).mem_size();
            (s, s)
        } else {
            let ghost ms = members_dv(self.members@);
            proof {
                assert(self.dv().members == ms);
                lemma_members_align_range(ms);
                lemma_align_up_ge(members_end(ms), members_align(ms));
                assert(ms.take(0) =~= Seq::<MemberV>::empty());
            }
            let mut end: usize = 0;
            let mut align: usize = 0;
            let n = self.members.len();
            for i in 0..n
                invariant
                    n == self.members.len(),
                    ms == members_dv(self.members@),
                    ms.len() == n,
                    forall|k: int| 0 <= k < n ==> ms[k] == self.members@[k].dv(),
                    forall|k: int| 0 <= k < n ==> layout_ok_tref(#[trigger] ms[k].tref),
                    end == members_end(ms.take(i as int)),
                    align == members_align(ms.take(i as int)),
                    end <= members_end(ms),
                    align <= 8,
                    members_end(ms) <= max_type_size(),
                decreases n - i,
            {
                let (msz, mal) = self.members[i].tref.mem_size_align();
                proof {
                    lemma_members_end_step(ms, i as int);
                    lemma_align_range_tref(ms[i as int].tref);
                    lemma_align_up_ge(members_end(ms.take(i as int)), mal as nat);
                    lemma_members_end_prefix(ms, i as int + 1);
                }
                end = align_to(end, mal) + msz;
                if mal > align {
                    align = mal;
                }
            }
            proof {
                assert(ms.take(n as int) =~= ms);
                lemma_members_align_range(ms);
                lemma_align_up_ge(members_end(ms), members_align(ms));
            }
            let size = align_to(end, align);
            (size, align)
        }
    }
}

impl Variant {
    pub fn mem_size_align(&self) -> (r: (usize, usize))
        requires
            layout_ok_type(TypeV::Variant(self.dv())),
        ensures
            r.0 == variant_size(self.dv()),
            r.1 == variant_align(self.dv()),
        decreases self,
    {
        let ghost cs = cases_dv(self.cases@);
        let ghost tag = self.tag_repr;
        proof {
            lemma_cases_dv(self.cases@);
        }
        let tag_size = self.tag_repr.mem_size();
        proof {
            assert(self.dv().cases == cs);
            lemma_cases_align_range(tag, cs);
            lemma_align_up_ge(cases_end(tag, cs), cases_align(tag, cs));
            assert(cs.take(0) =~= Seq::<CaseV>::empty());
        }
        let mut end: usize = 0;
        let mut align: usize = 0;
        let n = self.cases.len();
        for i in 0..n
            invariant
                n == self.cases.len(),
                cs == cases_dv(self.cases@),
                tag == self.tag_repr,
                tag_size == intrepr_mem_size(tag),
                cs.len() == n,
                n >= 1,
                forall|k: int| 0 <= k < n ==> cs[k] == self.cases@[k].dv(),
                forall|k: int|
                    0 <= k < n ==> match (#[trigger] cs[k]).tref {
                        Some(p) => layout_ok_tref(p),
                        None => true,
                    },
                end == cases_end(tag, cs.take(i as int)),
                align == cases_align(tag, cs.take(i as int)),
                end <= cases_end(tag, cs),
                align <= 8,
                cases_end(tag, cs) + 8 <= usize::MAX,
            decreases n - i,
        {
            proof {
                lemma_cases_end_step(tag, cs, i as int);
                lemma_cases_end_prefix(tag, cs, i as int + 1);
            }
            let (cend, calign): (usize, usize) = match &self.cases[i].tref {
                Some(p) => {
                    let (psz, pal) = p.mem_size_align();
                    proof {
                        lemma_align_range_tref(cs[i as int].tref->Some_0);
                        lemma_align_up_ge(intrepr_mem_size(tag), pal as nat);
                    }
                    let off = align_to(tag_size, pal);
                    (off + psz, if pal > tag_size { pal } else { tag_size })
                },
                None => (tag_size, tag_size),
            };
            if cend > end {
                end = cend;
            }
            if calign > align {
                align = calign;
            }
        }
        proof {
            assert(cs.take(n as int) =~= cs);
            lemma_cases_align_range(tag, cs);
            lemma_align_up_ge(cases_end(tag, cs), cases_align(tag, cs));
        }
        let size = align_to(end, align);
        (size, align)
    }

    /// Whether no case carries a payload.
    pub fn is_enum(&self) -> (b: bool)
        ensures
            b == self.dv().is_enum(),
    {
        proof {
            lemma_cases_dv(self.cases@);
        }
        let n = self.cases.len();
        for i in 0..n
            invariant
                n == self.cases.len(),
                forall|k: int|
                    0 <= k < n ==> cases_dv(self.cases@)[k] == self.cases@[k].dv(),
                cases_dv(self.cases@).len() == n,
                forall|k: int| 0 <= k < i ==> (#[trigger] cases_dv(self.cases@)[k]).tref is None,
            decreases n - i,
        {
            if self.cases[i].tref.is_some() {
                proof {
                    assert(self.dv().cases[i as int].tref is Some);
                }
                return false;
            }
            proof {
                assert(self.cases@[i as int].dv().tref is None);
            }
        }
        true
    }
}

impl RecordDatatype {
    /// The packed representation, for a bitflags record.
    pub fn bitflags_repr(&self) -> (r: Option<IntRepr>)
        ensures
            r == if self.dv().kind is Bitflags {
                Some(bitflags_repr_of(self.dv().members.len()))
            } else {
                None::<IntRepr>
            },
    {
        proof {
            lemma_members_dv(self.members@);
        }
        if matches!(self.kind, RecordKind::Bitflags) {
            Some(bitflags_repr_for(self.members.len()))
        } else {
            None
        }
    }

    pub fn is_tuple(&self) -> (b: bool)
        ensures
            b == self.dv().is_tuple(),
    {
        matches!(self.kind, RecordKind::Tuple)
    }

    /// Byte offset of every member of a plain record, in order.
    pub fn member_layout(&self) -> (offsets: Vec<usize>)
        requires
            !(self.dv().kind is Bitflags),
            layout_ok_type(TypeV::Record(self.dv())),
        ensures
            offsets.len() == self.members.len(),
            forall|k: int|
                0 <= k < offsets.len() ==> offsets[k] == member_offset(
                    self.dv().members,
                    k,
                ),
    {
        let ghost ms = members_dv(self.members@);
        proof {
            lemma_members_dv(self.members@);
        }
        proof {
            assert(self.dv().members == ms);
            lemma_members_align_range(ms);
            lemma_align_up_ge(members_end(ms), members_align(ms));
            assert(ms.take(0) =~= Seq::<MemberV>::empty());
        }
        let mut offsets: Vec<usize> = Vec::new();
        let mut end: usize = 0;
        let n = self.members.len();
        for i in 0..n
            invariant
                n == self.members.len(),
                ms == members_dv(self.members@),
                ms.len() == n,
                forall|k: int| 0 <= k < n ==> ms[k] == self.members@[k].dv(),
                forall|k: int| 0 <= k < n ==> layout_ok_tref(#[trigger] ms[k].tref),
                end == members_end(ms.take(i as int)),
                end <= members_end(ms),
                members_end(ms) <= max_type_size(),
                offsets.len() == i,
                forall|k: int| 0 <= k < i ==> offsets[k] == member_offset(ms, k),
            decreases n - i,
        {
            let (msz, mal) = self.members[i].tref.mem_size_align();
            proof {
                lemma_members_end_step(ms, i as int);
                lemma_align_range_tref(ms[i as int].tref);
                lemma_align_up_ge(members_end(ms.take(i as int)), mal as nat);
                lemma_members_end_prefix(ms, i as int + 1);
            }
            let off = align_to(end, mal);
            offsets.push(off);
            end = off + msz;
        }
        offsets
    }
}

/// The width of a type's scalar encoding, where one exists.
pub fn mem_size(ty: &Type) -> (r: Option<usize>)
    ensures
        r matches Some(s) ==> scalar_size(ty.dv()) == Some(s as nat),
        r is None <==> scalar_size(ty.dv()) is None,
{
    match ty {
        Type::Record(r) => match r.bitflags_repr() {
            Some(repr) => Some(repr.mem_size()),
            None => None,
        },
        Type::Variant(v) => if v.is_enum() {
            Some(v.tag_repr.mem_size())
        } else {
            None
        },
        Type::Handle => Some(4),
        Type::List(_) => Some(8),
        Type::Pointer(_) | Type::ConstPointer(_) => Some(4),
        Type::Builtin(b) => Some(b.mem_size()),
    }
}

} // verus!
