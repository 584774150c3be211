//! A byte-level model of the linear memory the generated store and load
//! routines address: fixed-width little-endian writes and reads at
//! offset-keyed addresses. The round-trip law of the generated code is
//! proved here over this model and the layout algebra.
use vstd::prelude::*;

use crate::ast::{RecordKind, RecordV, TypeV};
use crate::layout::{layout_ok_type, lemma_align_range_tref, lemma_align_up_ge,
    lemma_members_end_prefix, lemma_members_end_step, member_offset, members_end, record_size,
    tref_align, tref_size};

verus! {

/// 256 to the `w`: the number of values a `w`-byte field can hold.
pub open spec fn pow256(w: nat) -> nat
    decreases w,
{
    if w == 0 {
        1
    } else {
        256 * pow256((w - 1) as nat)
    }
}

/// The `w` little-endian bytes of `v`.
pub open spec fn le_bytes(v: nat, w: nat) -> Seq<u8>
    decreases w,
{
    if w == 0 {
        Seq::empty()
    } else {
        seq![(v % 256) as u8] + le_bytes(v / 256, (w - 1) as nat)
    }
}

/// The value read back from little-endian bytes.
pub open spec fn le_value(bs: Seq<u8>) -> nat
    decreases bs,
{
    if bs.len() == 0 {
        0
    } else {
        (bs[0] + 256 * le_value(bs.drop_first())) as nat
    }
}

/// A fixed-width write encodes exactly its width in bytes, and reading the
/// bytes back yields the stored value: the scalar store/load pair is the
/// identity on every value that fits the width.
pub proof fn lemma_le_roundtrip(v: nat, w: nat)
    requires
        v < pow256(w),
    ensures
        le_bytes(v, w).len() == w,
        le_value(le_bytes(v, w)) == v,
    decreases w,
{
    if w > 0 {
        assert(v / 256 < pow256((w - 1) as nat)) by {
            assert(pow256(w) == 256 * pow256((w - 1) as nat));
            vstd::arithmetic::div_mod::lemma_div_is_ordered_by_denominator(v as int, 1, 256);
            assert(v / 256 * 256 <= v) by {
                vstd::arithmetic::div_mod::lemma_fundamental_div_mod(v as int, 256);
                vstd::arithmetic::div_mod::lemma_mod_bound(v as int, 256);
                assert(256 * (v / 256) == v - v % 256);
                assert(v / 256 * 256 == 256 * (v / 256)) by (nonlinear_arith);
            }
            assert(v / 256 < pow256((w - 1) as nat)) by (nonlinear_arith)
                requires
                    v < 256 * pow256((w - 1) as nat),
                    v / 256 * 256 <= v,
            ;
        }
        lemma_le_roundtrip(v / 256, (w - 1) as nat);
        let bs = le_bytes(v, w);
        assert(bs.drop_first() =~= le_bytes(v / 256, (w - 1) as nat));
        assert(bs[0] == v % 256);
        vstd::arithmetic::div_mod::lemma_fundamental_div_mod(v as int, 256);
    }
}

/// Write `bs` into `mem` at `addr`.
pub open spec fn write_bytes(mem: Seq<u8>, addr: nat, bs: Seq<u8>) -> Seq<u8>
    recommends
        addr + bs.len() <= mem.len(),
{
    mem.take(addr as int) + bs + mem.skip((addr + bs.len()) as int)
}

/// Read `w` bytes from `mem` at `addr`.
pub open spec fn read_bytes(mem: Seq<u8>, addr: nat, w: nat) -> Seq<u8>
    recommends
        addr + w <= mem.len(),
{
    mem.subrange(addr as int, (addr + w) as int)
}

/// A write leaves the memory's length unchanged, reads back exactly as
/// written, and leaves every byte outside the written range untouched.
pub proof fn lemma_write_read(mem: Seq<u8>, addr: nat, bs: Seq<u8>)
    requires
        addr + bs.len() <= mem.len(),
    ensures
        write_bytes(mem, addr, bs).len() == mem.len(),
        read_bytes(write_bytes(mem, addr, bs), addr, bs.len()) == bs,
        forall|i: int|
            0 <= i < mem.len() && !(addr <= i < addr + bs.len()) ==> write_bytes(
                mem,
                addr,
                bs,
            )[i] == mem[i],
{
    let w = write_bytes(mem, addr, bs);
    assert(read_bytes(w, addr, bs.len()) =~= bs);
}

/// Reading an untouched range after a disjoint write returns what was there
/// before.
pub proof fn lemma_read_frame(mem: Seq<u8>, addr: nat, bs: Seq<u8>, raddr: nat, rw: nat)
    requires
        addr + bs.len() <= mem.len(),
        raddr + rw <= mem.len(),
        raddr + rw <= addr || addr + bs.len() <= raddr,
    ensures
        read_bytes(write_bytes(mem, addr, bs), raddr, rw) == read_bytes(mem, raddr, rw),
{
    lemma_write_read(mem, addr, bs);
    assert(read_bytes(write_bytes(mem, addr, bs), raddr, rw) =~= read_bytes(mem, raddr, rw));
}

/// Storing a scalar and loading it back from the same address reconstructs
/// the value, for every value the width can hold: zero, the maximum, and
/// everything between.
pub proof fn lemma_scalar_roundtrip(mem: Seq<u8>, addr: nat, v: nat, w: nat)
    requires
        v < pow256(w),
        addr + w <= mem.len(),
    ensures
        le_value(read_bytes(write_bytes(mem, addr, le_bytes(v, w)), addr, w)) == v,
{
    lemma_le_roundtrip(v, w);
    lemma_write_read(mem, addr, le_bytes(v, w));
}

/// Member regions of a laid-out record are pairwise disjoint: an earlier
/// member's region ends before a later member's begins.
pub proof fn lemma_member_regions_disjoint(r: RecordV, i: int, j: int)
    requires
        !(r.kind is Bitflags),
        layout_ok_type(TypeV::Record(r)),
        0 <= i < j < r.members.len(),
    ensures
        member_offset(r.members, i) + tref_size(r.members[i].tref) <= member_offset(r.members, j),
    decreases j - i,
{
    let ms = r.members;
    lemma_members_end_step(ms, i);
    lemma_align_range_tref(ms[j].tref);
    lemma_align_up_ge(members_end(ms.take(j)), tref_align(ms[j].tref));
    if j == i + 1 {
        // the next member starts at or after this member's end
    } else {
        lemma_member_regions_disjoint(r, i, j - 1);
        lemma_members_end_step(ms, j - 1);
        lemma_align_range_tref(ms[j - 1].tref);
        lemma_align_up_ge(members_end(ms.take(j - 1)), tref_align(ms[j - 1].tref));
    }
}

/// Store the first `n` members of a record at their layout offsets.
pub open spec fn store_members(
    mem: Seq<u8>,
    base: nat,
    r: RecordV,
    vals: Seq<nat>,
    n: int,
) -> Seq<u8>
    decreases n,
{
    if n <= 0 {
        mem
    } else {
        write_bytes(
            store_members(mem, base, r, vals, n - 1),
            base + member_offset(r.members, n - 1),
            le_bytes(vals[n - 1], tref_size(r.members[n - 1].tref)),
        )
    }
}

/// Load member `i` of a record from its layout offset.
pub open spec fn load_member(mem: Seq<u8>, base: nat, r: RecordV, i: int) -> nat {
    le_value(
        read_bytes(mem, base + member_offset(r.members, i), tref_size(r.members[i].tref)),
    )
}

proof fn lemma_store_members_len(mem: Seq<u8>, base: nat, r: RecordV, vals: Seq<nat>, n: int)
    requires
        !(r.kind is Bitflags),
        layout_ok_type(TypeV::Record(r)),
        n <= r.members.len(),
        base + record_size(r) <= mem.len(),
    ensures
        store_members(mem, base, r, vals, n).len() == mem.len(),
    decreases n,
{
    if n > 0 {
        lemma_store_members_len(mem, base, r, vals, n - 1);
        lemma_members_end_step(r.members, n - 1);
        lemma_members_end_prefix(r.members, n);
        crate::layout::lemma_members_align_range(r.members);
        lemma_align_up_ge(members_end(r.members), crate::layout::members_align(r.members));
        lemma_le_len(vals[n - 1], tref_size(r.members[n - 1].tref));
        lemma_write_read(
            store_members(mem, base, r, vals, n - 1),
            base + member_offset(r.members, n - 1),
            le_bytes(vals[n - 1], tref_size(r.members[n - 1].tref)),
        );
    }
}

proof fn lemma_le_len(v: nat, w: nat)
    ensures
        le_bytes(v, w).len() == w,
    decreases w,
{
    if w > 0 {
        lemma_le_len(v / 256, (w - 1) as nat);
    }
}

/// Round-trip: storing every member of a record at its layout offset and
/// loading each back reconstructs every value, for every value each member's
/// width can hold and for every member index.
pub proof fn lemma_record_roundtrip(mem: Seq<u8>, base: nat, r: RecordV, vals: Seq<nat>, i: int)
    requires
        !(r.kind is Bitflags),
        layout_ok_type(TypeV::Record(r)),
        vals.len() == r.members.len(),
        base + record_size(r) <= mem.len(),
        forall|k: int|
            0 <= k < vals.len() ==> vals[k] < pow256(tref_size(r.members[k].tref)),
        0 <= i < r.members.len(),
    ensures
        load_member(
            store_members(mem, base, r, vals, r.members.len() as int),
            base,
            r,
            i,
        ) == vals[i],
{
    lemma_roundtrip_aux(mem, base, r, vals, i, r.members.len() as int);
}

/// After storing the first `n` members with `i < n`, member `i` reads back
/// as stored: later stores land in disjoint regions.
proof fn lemma_roundtrip_aux(mem: Seq<u8>, base: nat, r: RecordV, vals: Seq<nat>, i: int, n: int)
    requires
        !(r.kind is Bitflags),
        layout_ok_type(TypeV::Record(r)),
        vals.len() == r.members.len(),
        base + record_size(r) <= mem.len(),
        forall|k: int|
            0 <= k < vals.len() ==> vals[k] < pow256(tref_size(r.members[k].tref)),
        0 <= i < n <= r.members.len(),
    ensures
        load_member(store_members(mem, base, r, vals, n), base, r, i) == vals[i],
    decreases n,
{
    let ms = r.members;
    lemma_members_end_step(ms, n - 1);
    lemma_members_end_prefix(ms, n);
    crate::layout::lemma_members_align_range(ms);
    lemma_align_up_ge(members_end(ms), crate::layout::members_align(ms));
    lemma_store_members_len(mem, base, r, vals, n - 1);
    lemma_le_len(vals[n - 1], tref_size(ms[n - 1].tref));
    if i == n - 1 {
        lemma_members_end_step(ms, i);
        lemma_members_end_prefix(ms, i + 1);
        lemma_scalar_roundtrip(
            store_members(mem, base, r, vals, n - 1),
            base + member_offset(ms, i),
            vals[i],
            tref_size(ms[i].tref),
        );
    } else {
        lemma_roundtrip_aux(mem, base, r, vals, i, n - 1);
        lemma_member_regions_disjoint(r, i, n - 1);
        lemma_members_end_step(ms, i);
        lemma_members_end_prefix(ms, i + 1);
        lemma_read_frame(
            store_members(mem, base, r, vals, n - 1),
            base + member_offset(ms, n - 1),
            le_bytes(vals[n - 1], tref_size(ms[n - 1].tref)),
            base + member_offset(ms, i),
            tref_size(ms[i].tref),
        );
    }
}

} // verus!

verus! {

/// Round-trip for a tagged union: the tag is stored at the base and the
/// active case's payload at its payload offset, which lies at or past the
/// tag's end; loading reads both back unchanged, whichever case is active.
pub proof fn lemma_variant_roundtrip(
    mem: Seq<u8>,
    base: nat,
    tag: crate::ast::IntRepr,
    p: crate::ast::TypeRefV,
    tagv: nat,
    pv: nat,
)
    requires
        crate::layout::layout_ok_tref(p),
        tagv < pow256(crate::layout::intrepr_mem_size(tag)),
        pv < pow256(tref_size(p)),
        base + crate::layout::payload_offset(tag, p) + tref_size(p) <= mem.len(),
    ensures
        ({
            let wt = crate::layout::intrepr_mem_size(tag);
            let off = crate::layout::payload_offset(tag, p);
            let wp = tref_size(p);
            let stored = write_bytes(
                write_bytes(mem, base, le_bytes(tagv, wt)),
                base + off,
                le_bytes(pv, wp),
            );
            le_value(read_bytes(stored, base, wt)) == tagv && le_value(
                read_bytes(stored, base + off, wp),
            ) == pv
        }),
{
    let wt = crate::layout::intrepr_mem_size(tag);
    let off = crate::layout::payload_offset(tag, p);
    let wp = tref_size(p);
    lemma_align_range_tref(p);
    lemma_align_up_ge(wt, tref_align(p));
    lemma_le_len(tagv, wt);
    lemma_le_len(pv, wp);
    let m1 = write_bytes(mem, base, le_bytes(tagv, wt));
    lemma_write_read(mem, base, le_bytes(tagv, wt));
    lemma_le_roundtrip(tagv, wt);
    lemma_scalar_roundtrip(m1, base + off, pv, wp);
    lemma_read_frame(m1, base + off, le_bytes(pv, wp), base, wt);
}

} // verus!
