//! The stated laws of the generator, each proved over the specification
//! functions that the executable contracts use.
use vstd::prelude::*;

use crate::ast::{Document, IntRepr, MemberV, RecordKind, RecordV, TypeV, VariantV};
use crate::layout::{bitflags_repr_of, intrepr_mem_size, layout_ok_type, lemma_align_range_tref,
    lemma_align_up_ge, lemma_members_align_range, lemma_members_end_prefix,
    lemma_members_end_step, member_offset, members_align, members_end, payload_offset,
    record_align, record_size, spec_align_to, tref_align, tref_size, variant_align, variant_size};
use crate::compose::{spec_to_go, GeneratedV};
use crate::lower::{result_lower_text, OperandV};

verus! {

/// Generation is a function of the document and the input names alone:
/// identical inputs yield identical output texts, so repeated runs are
/// byte-identical.
pub proof fn lemma_generation_deterministic(
    d1: Document,
    d2: Document,
    inputs1: Seq<char>,
    inputs2: Seq<char>,
)
    requires
        d1 == d2,
        inputs1 == inputs2,
    ensures
        spec_to_go(d1, inputs1) == spec_to_go(d2, inputs2),
{
}

/// Layout correctness for records: every member sits at an offset rounded to
/// its own alignment, members are laid out in order without overlap, the
/// reported total size covers every member and is the end of the last
/// member's region rounded up, and it is a multiple of the reported
/// alignment.
pub proof fn lemma_record_layout(r: RecordV)
    requires
        !(r.kind is Bitflags),
        layout_ok_type(TypeV::Record(r)),
    ensures
        forall|i: int|
            0 <= i < r.members.len() ==> #[trigger] member_offset(r.members, i) % tref_align(
                r.members[i].tref,
            ) == 0,
        forall|i: int|
            1 <= i < r.members.len() ==> #[trigger] member_offset(r.members, i) >= member_offset(
                r.members,
                i - 1,
            ) + tref_size(r.members[i - 1].tref),
        forall|i: int|
            0 <= i < r.members.len() ==> #[trigger] member_offset(r.members, i) + tref_size(
                r.members[i].tref,
            ) <= record_size(r),
        record_size(r) == spec_align_to(members_end(r.members), members_align(r.members)),
        members_end(r.members) == member_offset(r.members, r.members.len() - 1) + tref_size(
            r.members[r.members.len() - 1].tref,
        ),
        record_size(r) % record_align(r) == 0,
{
    let ms = r.members;
    let n = ms.len() as int;
    lemma_members_align_range(ms);
    lemma_align_up_ge(members_end(ms), members_align(ms));
    assert forall|i: int| 0 <= i < n implies #[trigger] member_offset(ms, i) % tref_align(
        ms[i].tref,
    ) == 0 by {
        lemma_align_range_tref(ms[i].tref);
        lemma_align_up_ge(members_end(ms.take(i)), tref_align(ms[i].tref));
    }
    assert forall|i: int| 1 <= i < n implies #[trigger] member_offset(ms, i) >= member_offset(
        ms,
        i - 1,
    ) + tref_size(ms[i - 1].tref) by {
        lemma_members_end_step(ms, i - 1);
        lemma_align_range_tref(ms[i].tref);
        lemma_align_up_ge(members_end(ms.take(i)), tref_align(ms[i].tref));
    }
    assert forall|i: int| 0 <= i < n implies #[trigger] member_offset(ms, i) + tref_size(
        ms[i].tref,
    ) <= record_size(r) by {
        lemma_members_end_step(ms, i);
        lemma_members_end_prefix(ms, i + 1);
    }
    lemma_members_end_step(ms, n - 1);
    assert(ms.take(n) =~= ms);
}

/// Layout correctness for variants: every payload sits at the tag width
/// rounded up to the payload's alignment; when all payloads share one
/// alignment, that offset is identical across the cases.
pub proof fn lemma_variant_payload_offsets(v: VariantV)
    ensures
        forall|i: int|
            0 <= i < v.cases.len() && (#[trigger] v.cases[i]).tref is Some ==> payload_offset(
                v.tag_repr,
                v.cases[i].tref->Some_0,
            ) == spec_align_to(
                intrepr_mem_size(v.tag_repr),
                tref_align(v.cases[i].tref->Some_0),
            ),
        forall|i: int, j: int|
            0 <= i < v.cases.len() && 0 <= j < v.cases.len() && (#[trigger] v.cases[i]).tref
                is Some && (#[trigger] v.cases[j]).tref is Some && tref_align(
                v.cases[i].tref->Some_0,
            ) == tref_align(v.cases[j].tref->Some_0) ==> payload_offset(
                v.tag_repr,
                v.cases[i].tref->Some_0,
            ) == payload_offset(v.tag_repr, v.cases[j].tref->Some_0),
{
}

/// Bit-packing: the packed width of a bitflags record with `n` members is a
/// power of two, holds all `n` bits, and no smaller power-of-two byte count
/// does.
pub open spec fn is_pow2(p: nat) -> bool
    decreases p,
{
    if p == 0 {
        false
    } else if p == 1 {
        true
    } else {
        p % 2 == 0 && is_pow2(p / 2)
    }
}

proof fn lemma_pow2_small(p: nat)
    requires
        is_pow2(p),
        p < 8,
    ensures
        p == 1 || p == 2 || p == 4,
    decreases p,
{
    if p > 1 {
        lemma_pow2_small(p / 2);
    }
}

pub proof fn lemma_bitflags_packing(n: nat)
    requires
        n <= 64,
    ensures
        is_pow2(intrepr_mem_size(bitflags_repr_of(n))),
        8 * intrepr_mem_size(bitflags_repr_of(n)) >= n,
        forall|p: nat|
            is_pow2(p) && 8 * p >= n ==> p >= intrepr_mem_size(bitflags_repr_of(n)),
{
    let w = intrepr_mem_size(bitflags_repr_of(n));
    assert(is_pow2(1) && is_pow2(2) && is_pow2(4) && is_pow2(8)) by {
        reveal_with_fuel(is_pow2, 5);
    }
    assert forall|p: nat| is_pow2(p) && 8 * p >= n implies p >= w by {
        if p < w {
            assert(p < 8);
            lemma_pow2_small(p);
        }
    }
}

/// Result lowering: the result code starts at the success sentinel. With no
/// ok-block, the err-block runs exactly when the discriminant differs from
/// the success tag; with an ok-block, the success path runs exactly when the
/// discriminant equals it, and otherwise the err-block runs and its yielded
/// expression becomes the code.
pub proof fn lemma_result_lowering(
    disc: Seq<char>,
    ok_block: Seq<char>,
    err_block: Seq<char>,
    err_expr: Option<OperandV>,
)
    ensures
        ok_block.len() == 0 ==> result_lower_text(disc, ok_block, err_block, err_expr)
            == "res := int32(wasiErrnoSuccess)\n"@ + ("if "@ + disc
            + " != wasiErrnoSuccess {\n"@) + err_block + (match err_expr {
            Some(e) => "\tres = "@ + e.expr + "\n"@,
            None => Seq::<char>::empty(),
        }) + "}\n"@,
        ok_block.len() > 0 ==> result_lower_text(disc, ok_block, err_block, err_expr)
            == "res := int32(wasiErrnoSuccess)\n"@ + ("if "@ + disc + " == wasiErrnoSuccess {\n"@
            + ok_block + "} else {\n"@) + err_block + (match err_expr {
            Some(e) => "\tres = "@ + e.expr + "\n"@,
            None => Seq::<char>::empty(),
        }) + "}\n"@,
{
}

} // verus!
